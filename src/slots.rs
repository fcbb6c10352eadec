//! A table of live instances addressed by generation-checked handles.
//!
//! Releasing an instance leaves its slot vacant; reusing the slot bumps its
//! generation, so a handle that was released never names an instance again.
//! A slot whose generation has reached [`MAX_GENERATION`] is retired once
//! vacant.
use crate::handle::{
    decode, decode_spec, encode, encode_spec, lemma_decode_encode, lemma_encode_decode,
    MAX_GENERATION, SLOT_SPAN,
};
use vstd::prelude::*;

verus! {

/// One entry of a [`SlotTable`]: the generation of its latest occupant and
/// that occupant, while it is live.
pub struct Slot<T> {
    pub generation: u32,
    pub value: Option<T>,
}

/// Owner of every live instance; callers hold only handles into it.
pub struct SlotTable<T> {
    slots: Vec<Slot<T>>,
}

impl<T> View for SlotTable<T> {
    type V = Seq<Slot<T>>;

    closed spec fn view(&self) -> Seq<Slot<T>> {
        self.slots@
    }
}

impl<T> SlotTable<T> {
    /// Every slot has a generation a handle can carry, and every index fits.
    pub open spec fn well_formed(&self) -> bool {
        &&& self@.len() <= SLOT_SPAN
        &&& forall|i: int|
            0 <= i < self@.len() ==> 1 <= #[trigger] self@[i].generation <= MAX_GENERATION
    }

    /// The instance that handle `h` names, if it is live.
    pub open spec fn lookup(&self, h: i64) -> Option<T> {
        match decode_spec(h as int) {
            Some((i, g)) => if 0 <= i < self@.len() && self@[i].generation == g {
                self@[i].value
            } else {
                None
            },
            None => None,
        }
    }

    /// Whether `h` has ever been handed out by this table.
    pub open spec fn issued(&self, h: i64) -> bool {
        match decode_spec(h as int) {
            Some((i, g)) => 0 <= i < self@.len() && g <= self@[i].generation,
            None => false,
        }
    }

    /// Slot `i` is vacant and may take a new occupant.
    pub open spec fn reusable(&self, i: int) -> bool {
        self@[i].value is None && self@[i].generation < MAX_GENERATION
    }

    /// Whether one more instance can be stored.
    pub open spec fn has_room(&self) -> bool {
        self@.len() < SLOT_SPAN || exists|i: int| 0 <= i < self@.len() && #[trigger] self.reusable(i)
    }

    /// An empty table.
    pub fn new() -> (r: Self)
        ensures
            r.well_formed(),
            r@.len() == 0,
            forall|h: i64| #[trigger] r.lookup(h) is None,
    {
        SlotTable { slots: Vec::new() }
    }

    /// Stores `value` and returns a handle that names it; hands `value`
    /// back when no slot is left.
    pub fn insert(&mut self, value: T) -> (r: Result<i64, T>)
        requires
            old(self).well_formed(),
        ensures
            final(self).well_formed(),
            r is Ok <==> old(self).has_room(),
            match r {
                Ok(h) => {
                    &&& h > 0
                    &&& !old(self).issued(h)
                    &&& final(self).issued(h)
                    &&& final(self).lookup(h) == Some(value)
                    &&& forall|k: i64| k != h ==> #[trigger] final(self).lookup(k) == old(self).lookup(k)
                    &&& forall|k: i64| old(self).issued(k) ==> #[trigger] final(self).issued(k)
                },
                Err(v) => v == value && final(self)@ == old(self)@,
            },
    {
        let mut i: usize = 0;
        while i < self.slots.len()
            invariant
                self@ == old(self)@,
                old(self).well_formed(),
                0 <= i <= self@.len(),
                forall|j: int| 0 <= j < i ==> !#[trigger] old(self).reusable(j),
            decreases self@.len() - i,
        {
            if self.slots[i].value.is_none() && self.slots[i].generation < MAX_GENERATION {
                let g: u32 = self.slots[i].generation + 1;
                proof {
                    lemma_decode_encode(i as int, g as int);
                    assert(old(self).reusable(i as int));
                }
                self.slots[i] = Slot { generation: g, value: Some(value) };
                let h = encode(i as u32, g);
                proof {
                    assert forall|k: i64| k != h implies #[trigger] self.lookup(k) == old(self).lookup(k) by {
                        if let Some((i2, g2)) = decode_spec(k as int) {
                            lemma_encode_decode(k as int, i2, g2);
                        }
                    }
                }
                return Ok(h);
            }
            i += 1;
        }
        if (self.slots.len() as u64) < SLOT_SPAN {
            let n: usize = self.slots.len();
            proof {
                lemma_decode_encode(n as int, 1);
            }
            self.slots.push(Slot { generation: 1, value: Some(value) });
            let h = encode(n as u32, 1);
            proof {
                assert forall|k: i64| k != h implies #[trigger] self.lookup(k) == old(self).lookup(k) by {
                    if let Some((i2, g2)) = decode_spec(k as int) {
                        lemma_encode_decode(k as int, i2, g2);
                    }
                }
                assert forall|k: i64| old(self).issued(k) implies #[trigger] self.issued(k) by {
                    assert(self@[k as int % (SLOT_SPAN as int)] == old(self)@[k as int % (SLOT_SPAN as int)]);
                }
            }
            Ok(h)
        } else {
            Err(value)
        }
    }

    /// The live instance that `h` names, if any.
    pub fn get(&self, h: i64) -> (r: Option<&T>)
        requires
            self.well_formed(),
        ensures
            match r {
                Some(v) => self.lookup(h) == Some(*v),
                None => self.lookup(h) is None,
            },
    {
        match decode(h) {
            Some((i, g)) => {
                let i: usize = i as usize;
                if i < self.slots.len() && self.slots[i].generation == g {
                    match &self.slots[i].value {
                        Some(v) => Some(v),
                        None => None,
                    }
                } else {
                    None
                }
            },
            None => None,
        }
    }

    /// Takes out the live instance that `h` names; `h` is dead afterwards.
    pub fn remove(&mut self, h: i64) -> (r: Option<T>)
        requires
            old(self).well_formed(),
        ensures
            final(self).well_formed(),
            r == old(self).lookup(h),
            final(self).lookup(h) is None,
            forall|k: i64| k != h ==> #[trigger] final(self).lookup(k) == old(self).lookup(k),
            forall|k: i64| #[trigger] final(self).issued(k) == old(self).issued(k),
    {
        match decode(h) {
            Some((i, g)) => {
                let i: usize = i as usize;
                if i < self.slots.len() && self.slots[i].generation == g {
                    let r = self.slots[i].value.take();
                    proof {
                        assert forall|k: i64| k != h implies #[trigger] self.lookup(k) == old(self).lookup(k) by {
                            if let Some((i2, g2)) = decode_spec(k as int) {
                                lemma_encode_decode(k as int, i2, g2);
                                lemma_encode_decode(h as int, i as int, g as int);
                            }
                        }
                        assert forall|k: i64| #[trigger] self.issued(k) == old(self).issued(k) by {
                            if let Some((i2, g2)) = decode_spec(k as int) {
                                if 0 <= i2 < self@.len() {
                                    assert(self@[i2].generation == old(self)@[i2].generation);
                                }
                            }
                        }
                    }
                    r
                } else {
                    None
                }
            },
            None => None,
        }
    }
}

} // verus!
