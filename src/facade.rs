//! The caller-side producer object and its operations.
//!
//! The managed runtime keeps one `i64` field per object; this type is that
//! field. Every operation resolves it against the [`SlotTable`], so a handle
//! that is unset, or whose producer was released, yields a [`LookupError`]
//! rather than a dangling reference.
use crate::config::{client_config, config_debug_logging, config_entries, pairs_map, BOOTSTRAP_SERVERS};
use crate::delivery::ProducerDeliveryOpaque;
use crate::error::{InitError, LookupError, MetadataError};
use crate::handle::UNSET_HANDLE;
use crate::slots::SlotTable;
use vstd::prelude::*;

verus! {

/// Seconds `topics` lets the client wait for broker metadata.
pub const METADATA_TIMEOUT_SECS: u64 = 5;

/// The caller-side producer object: the handle it stores, or
/// [`UNSET_HANDLE`] before `init` and after `close`.
#[derive(Debug, Clone, Copy, PartialEq, Eq, Structural)]
pub struct DefaultRustKafkaProducer {
    pub producer: i64,
}

impl DefaultRustKafkaProducer {
    /// The producer `self` refers to in `slots`, or why there is none.
    pub open spec fn resolve<T>(self, slots: SlotTable<T>) -> Result<T, LookupError> {
        if self.producer == UNSET_HANDLE {
            Err(LookupError::NotInitialized)
        } else {
            match slots.lookup(self.producer) {
                Some(v) => Ok(v),
                None => Err(LookupError::Released),
            }
        }
    }

    /// `init` took the object and table from `(o0, s0)` to `(o1, s1)`,
    /// given `v` and returning `r`.
    pub open spec fn init_step<T>(
        o0: Self,
        s0: SlotTable<T>,
        v: T,
        o1: Self,
        s1: SlotTable<T>,
        r: Result<(), InitError>,
    ) -> bool {
        if o0.resolve(s0) is Ok {
            r == Err::<(), InitError>(InitError::AlreadyInitialized) && o1 == o0 && s1@ == s0@
        } else if !s0.has_room() {
            r == Err::<(), InitError>(InitError::TableFull) && o1 == o0 && s1@ == s0@
        } else {
            &&& r is Ok
            &&& !s0.issued(o1.producer)
            &&& o1.resolve(s1) == Ok::<T, LookupError>(v)
            &&& forall|k: i64| k != o1.producer ==> #[trigger] s1.lookup(k) == s0.lookup(k)
            &&& forall|k: i64| s0.issued(k) ==> #[trigger] s1.issued(k)
        }
    }

    /// `close` took the object and table from `(o0, s0)` to `(o1, s1)`,
    /// returning `r`.
    pub open spec fn close_step<T>(
        o0: Self,
        s0: SlotTable<T>,
        o1: Self,
        s1: SlotTable<T>,
        r: Result<T, LookupError>,
    ) -> bool {
        &&& o1.producer == UNSET_HANDLE
        &&& r == o0.resolve(s0)
        &&& s1.lookup(o0.producer) is None
        &&& forall|k: i64| k != o0.producer ==> #[trigger] s1.lookup(k) == s0.lookup(k)
        &&& forall|k: i64| #[trigger] s1.issued(k) == s0.issued(k)
    }

    /// An object that refers to no producer.
    pub fn new() -> (r: Self)
        ensures
            r.producer == UNSET_HANDLE,
    {
        DefaultRustKafkaProducer { producer: UNSET_HANDLE }
    }

    /// The client configuration `init` will build a producer from: refused
    /// when `self` already holds a live producer, or when `config` names no
    /// broker list.
    pub fn client_config<T>(&self, slots: &SlotTable<T>, config: &Vec<(String, String)>) -> (r: Result<
        rdkafka::ClientConfig,
        InitError,
    >)
        requires
            slots.well_formed(),
        ensures
            r is Ok <==> (self.resolve(*slots) is Err && pairs_map(config@).contains_key(
                BOOTSTRAP_SERVERS@,
            )),
            match r {
                Ok(c) => config_entries(c) == pairs_map(config@) && config_debug_logging(c),
                Err(e) => e == (if self.resolve(*slots) is Ok {
                    InitError::AlreadyInitialized
                } else {
                    InitError::MissingBootstrapServers
                }),
            },
    {
        if self.producer != UNSET_HANDLE && slots.get(self.producer).is_some() {
            return Err(InitError::AlreadyInitialized);
        }
        client_config(config)
    }

    /// Attaches `instance` to `self`; refused, dropping `instance`, when
    /// `self` already holds a live producer or the table is full.
    pub fn init<T>(&mut self, slots: &mut SlotTable<T>, instance: T) -> (r: Result<(), InitError>)
        requires
            old(slots).well_formed(),
        ensures
            final(slots).well_formed(),
            Self::init_step(*old(self), *old(slots), instance, *final(self), *final(slots), r),
    {
        if self.producer != UNSET_HANDLE && slots.get(self.producer).is_some() {
            return Err(InitError::AlreadyInitialized);
        }
        match slots.insert(instance) {
            Ok(h) => {
                self.producer = h;
                Ok(())
            },
            Err(_) => Err(InitError::TableFull),
        }
    }

    /// The live producer `self` refers to.
    pub fn producer<'a, T>(&self, slots: &'a SlotTable<T>) -> (r: Result<&'a T, LookupError>)
        requires
            slots.well_formed(),
        ensures
            match r {
                Ok(v) => self.resolve(*slots) == Ok::<T, LookupError>(*v),
                Err(e) => self.resolve(*slots) == Err::<T, LookupError>(e),
            },
    {
        if self.producer == UNSET_HANDLE {
            return Err(LookupError::NotInitialized);
        }
        match slots.get(self.producer) {
            Some(v) => Ok(v),
            None => Err(LookupError::Released),
        }
    }

    /// Starts a send: the live producer to enqueue the record with, and the
    /// delivery context to enqueue beside it.
    pub fn send<'a, T>(&self, slots: &'a SlotTable<T>) -> (r: Result<
        (&'a T, ProducerDeliveryOpaque),
        LookupError,
    >)
        requires
            slots.well_formed(),
        ensures
            match r {
                Ok((v, _)) => self.resolve(*slots) == Ok::<T, LookupError>(*v),
                Err(e) => self.resolve(*slots) == Err::<T, LookupError>(e),
            },
    {
        let p = self.producer(slots)?;
        Ok((p, ProducerDeliveryOpaque::new()))
    }

    /// Finishes a metadata query: on success the topic names; on failure the
    /// connection is presumed dead and the producer is released as by
    /// `close`.
    pub fn topics<T>(&mut self, slots: &mut SlotTable<T>, fetched: Result<Vec<String>, String>) -> (r:
        Result<Vec<String>, MetadataError>)
        requires
            old(slots).well_formed(),
        ensures
            final(slots).well_formed(),
            match fetched {
                Ok(names) => r == Ok::<Vec<String>, MetadataError>(names) && *final(self) == *old(self)
                    && final(slots)@ == old(slots)@,
                Err(e) => r == Err::<Vec<String>, MetadataError>(MetadataError::Fetch(e))
                    && Self::close_step(
                    *old(self),
                    *old(slots),
                    *final(self),
                    *final(slots),
                    old(self).resolve(*old(slots)),
                ),
            },
    {
        match fetched {
            Ok(names) => Ok(names),
            Err(e) => {
                let _released = self.close(slots);
                Err(MetadataError::Fetch(e))
            },
        }
    }

    /// Releases the producer `self` refers to and unsets the handle. A second
    /// call, or a call on a handle whose producer is gone, is a
    /// [`LookupError`] and changes nothing in the table.
    pub fn close<T>(&mut self, slots: &mut SlotTable<T>) -> (r: Result<T, LookupError>)
        requires
            old(slots).well_formed(),
        ensures
            final(slots).well_formed(),
            Self::close_step(*old(self), *old(slots), *final(self), *final(slots), r),
    {
        let h = self.producer;
        self.producer = UNSET_HANDLE;
        if h == UNSET_HANDLE {
            return Err(LookupError::NotInitialized);
        }
        match slots.remove(h) {
            Some(v) => Ok(v),
            None => Err(LookupError::Released),
        }
    }
}

} // verus!
