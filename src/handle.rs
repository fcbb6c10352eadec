//! Opaque handles: a slot index and a generation packed into one `i64`.
//!
//! The generation lives in the upper 32 bits and is never zero, so every
//! handle is positive and `0` can serve as the "no producer" sentinel.
use vstd::arithmetic::div_mod::lemma_fundamental_div_mod_converse;
use vstd::prelude::*;

verus! {

/// The value of a handle field that refers to no producer.
pub const UNSET_HANDLE: i64 = 0;

/// The largest generation a handle can carry (keeps handles positive).
pub const MAX_GENERATION: u32 = 0x7fff_ffff;

/// Number of distinct slot indices a handle can carry.
pub const SLOT_SPAN: u64 = 0x1_0000_0000;

/// Whether `(index, generation)` can be packed into a handle.
pub open spec fn valid_parts(index: int, generation: int) -> bool {
    0 <= index < SLOT_SPAN && 1 <= generation <= MAX_GENERATION
}

/// The integer that stands for slot `index` at `generation`.
pub open spec fn encode_spec(index: int, generation: int) -> int {
    generation * SLOT_SPAN + index
}

/// The parts a handle stands for; `None` for the sentinel, negative values,
/// and anything whose generation would be zero.
pub open spec fn decode_spec(h: int) -> Option<(int, int)> {
    if h >= SLOT_SPAN {
        Some((h % (SLOT_SPAN as int), h / (SLOT_SPAN as int)))
    } else {
        None
    }
}

/// Packs a slot index and a generation into a handle.
pub fn encode(index: u32, generation: u32) -> (h: i64)
    requires
        1 <= generation <= MAX_GENERATION,
    ensures
        h == encode_spec(index as int, generation as int),
        h > UNSET_HANDLE,
{
    let g: u64 = generation as u64;
    let i: u64 = index as u64;
    assert(g * SLOT_SPAN <= 0x7fff_ffff_0000_0000) by (nonlinear_arith)
        requires
            g <= 0x7fff_ffff,
    ;
    (g * SLOT_SPAN + i) as i64
}

/// Unpacks a handle into `(index, generation)`.
pub fn decode(h: i64) -> (r: Option<(u32, u32)>)
    ensures
        match r {
            Some((i, g)) => decode_spec(h as int) == Some((i as int, g as int)),
            None => decode_spec(h as int) is None,
        },
{
    if h >= SLOT_SPAN as i64 {
        let u: u64 = h as u64;
        let i: u64 = u % SLOT_SPAN;
        let g: u64 = u / SLOT_SPAN;
        assert(g <= 0x7fff_ffff) by (nonlinear_arith)
            requires
                g == u / 0x1_0000_0000,
                u <= 0x7fff_ffff_ffff_ffff,
        ;
        Some((i as u32, g as u32))
    } else {
        None
    }
}

/// Decoding a packed handle gives back its parts.
pub proof fn lemma_decode_encode(index: int, generation: int)
    requires
        valid_parts(index, generation),
    ensures
        decode_spec(encode_spec(index, generation)) == Some((index, generation)),
{
    let h = encode_spec(index, generation);
    lemma_fundamental_div_mod_converse(h, SLOT_SPAN as int, generation, index);
}

/// A handle that decodes is the packing of what it decodes to, so two
/// different handles never decode to the same parts.
pub proof fn lemma_encode_decode(h: int, index: int, generation: int)
    requires
        decode_spec(h) == Some((index, generation)),
        h <= i64::MAX,
    ensures
        valid_parts(index, generation),
        encode_spec(index, generation) == h,
{
    let d = SLOT_SPAN as int;
    assert(h == d * (h / d) + h % d && 0 <= h % d < d) by (nonlinear_arith)
        requires
            d > 0,
    ;
    assert(1 <= h / d <= MAX_GENERATION) by (nonlinear_arith)
        requires
            d == 0x1_0000_0000,
            d <= h <= 0x7fff_ffff_ffff_ffff,
    ;
}

} // verus!
