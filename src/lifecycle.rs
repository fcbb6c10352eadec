//! Laws of the producer lifecycle, stated over the steps that
//! [`DefaultRustKafkaProducer`]'s operations promise.
use crate::error::{InitError, LookupError};
use crate::facade::DefaultRustKafkaProducer;
use crate::handle::UNSET_HANDLE;
use crate::slots::SlotTable;
use vstd::prelude::*;

verus! {

type Producer = DefaultRustKafkaProducer;

/// `init` followed by `close` leaves the object unset and nothing in the
/// table under the handle `init` produced; when the object held no live
/// producer before, the table names exactly what it named before `init`.
pub proof fn lemma_init_then_close_leaves_no_entry<T>(
    o0: Producer,
    s0: SlotTable<T>,
    v: T,
    o1: Producer,
    s1: SlotTable<T>,
    r1: Result<(), InitError>,
    o2: Producer,
    s2: SlotTable<T>,
    r2: Result<T, LookupError>,
)
    requires
        Producer::init_step(o0, s0, v, o1, s1, r1),
        Producer::close_step(o1, s1, o2, s2, r2),
    ensures
        o2.producer == UNSET_HANDLE,
        s2.lookup(o1.producer) is None,
        r1 is Ok ==> r2 == Ok::<T, LookupError>(v),
        o0.resolve(s0) is Err ==> forall|k: i64| #[trigger] s2.lookup(k) == s0.lookup(k),
{
    if o0.resolve(s0) is Err {
        assert forall|k: i64| #[trigger] s2.lookup(k) == s0.lookup(k) by {
            if k == o1.producer {
                assert(s1.lookup(k) == s0.lookup(k) || !s0.issued(k));
            } else {
                assert(s1.lookup(k) == s0.lookup(k));
            }
        }
    }
}

/// A second `init` of an object whose first `init` succeeded is refused and
/// changes nothing: the object keeps its one live producer.
pub proof fn lemma_second_init_rejected<T>(
    o0: Producer,
    s0: SlotTable<T>,
    v1: T,
    o1: Producer,
    s1: SlotTable<T>,
    r1: Result<(), InitError>,
    v2: T,
    o2: Producer,
    s2: SlotTable<T>,
    r2: Result<(), InitError>,
)
    requires
        Producer::init_step(o0, s0, v1, o1, s1, r1),
        r1 is Ok,
        Producer::init_step(o1, s1, v2, o2, s2, r2),
    ensures
        r2 == Err::<(), InitError>(InitError::AlreadyInitialized),
        o2 == o1,
        s2@ == s1@,
        o2.resolve(s2) == Ok::<T, LookupError>(v1),
{
}

/// Closing an object twice: the second `close` reports that the object
/// holds no producer and leaves the table as the first left it.
pub proof fn lemma_close_twice<T>(
    o0: Producer,
    s0: SlotTable<T>,
    o1: Producer,
    s1: SlotTable<T>,
    r1: Result<T, LookupError>,
    o2: Producer,
    s2: SlotTable<T>,
    r2: Result<T, LookupError>,
)
    requires
        Producer::close_step(o0, s0, o1, s1, r1),
        Producer::close_step(o1, s1, o2, s2, r2),
    ensures
        r2 == Err::<T, LookupError>(LookupError::NotInitialized),
        o2 == o1,
        forall|k: i64| #[trigger] s2.lookup(k) == s1.lookup(k),
{
    assert forall|k: i64| #[trigger] s2.lookup(k) == s1.lookup(k) by {
        if k == UNSET_HANDLE {
            assert(s2.lookup(k) is None && s1.lookup(k) is None);
        }
    }
}

/// After `close`, the object resolves to no producer, so `send` (and every
/// other lookup through it) fails.
pub proof fn lemma_send_after_close<T>(
    o0: Producer,
    s0: SlotTable<T>,
    o1: Producer,
    s1: SlotTable<T>,
    r1: Result<T, LookupError>,
)
    requires
        Producer::close_step(o0, s0, o1, s1, r1),
    ensures
        o1.resolve(s1) == Err::<T, LookupError>(LookupError::NotInitialized),
{
}

/// Another object holding a copy of a closed object's handle resolves to
/// no producer afterwards: it never reaches the released instance.
pub proof fn lemma_close_invalidates_copies<T>(
    o0: Producer,
    other: Producer,
    s0: SlotTable<T>,
    o1: Producer,
    s1: SlotTable<T>,
    r1: Result<T, LookupError>,
)
    requires
        Producer::close_step(o0, s0, o1, s1, r1),
        other.producer == o0.producer,
    ensures
        other.resolve(s1) is Err,
{
}

/// A handle whose producer was closed is never handed out again by a later
/// `init`, so stale copies of it cannot reach the new producer.
pub proof fn lemma_closed_handle_not_reissued<T>(
    o0: Producer,
    s0: SlotTable<T>,
    o1: Producer,
    s1: SlotTable<T>,
    r1: Result<T, LookupError>,
    later0: Producer,
    v: T,
    later1: Producer,
    s2: SlotTable<T>,
    r2: Result<(), InitError>,
)
    requires
        Producer::close_step(o0, s0, o1, s1, r1),
        r1 is Ok,
        Producer::init_step(later0, s1, v, later1, s2, r2),
        r2 is Ok,
    ensures
        later1.producer != o0.producer,
{
    assert(s0.issued(o0.producer));
    assert(s1.issued(o0.producer));
}

} // verus!
