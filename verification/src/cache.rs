//! The shared cache: one named slot that holds the payload fetched last,
//! together with a version that counts the writes.
//!
//! The refresher is the only writer and overwrites the slot whatever its
//! version; a writer that names the version it expects is turned away once
//! the slot has moved on. Readers never change the slot.

use vstd::prelude::*;

verus! {

/// The name of the slot in the host's shared storage.
pub const CACHE_KEY: &'static str = "cache";

/// How a write to the slot ended.
#[derive(Clone, Copy, Debug, PartialEq, Eq, Structural)]
pub enum StoreOutcome {
    /// The slot holds the new value.
    Stored,
    /// The slot is no longer at the version that the writer expected.
    Conflict,
    /// The store could not take the value.
    Failed,
}

/// A payload, if there is one, as a sequence of bytes.
pub open spec fn payload_view(value: Option<Vec<u8>>) -> Option<Seq<u8>> {
    match value {
        Some(payload) => Some(payload@),
        None => None,
    }
}

/// A write to the slot: the new value, or nothing to empty the slot, and the
/// version that the writer expects the slot to be at, if it expects one.
#[derive(Clone, Debug)]
pub struct CacheWrite {
    pub value: Option<Vec<u8>>,
    pub expected_version: Option<u32>,
}

/// A `CacheWrite` as a sequence of bytes.
pub struct WriteView {
    pub value: Option<Seq<u8>>,
    pub expected_version: Option<u32>,
}

impl View for CacheWrite {
    type V = WriteView;

    open spec fn view(&self) -> WriteView {
        WriteView { value: payload_view(self.value), expected_version: self.expected_version }
    }
}

/// The slot as a value: what it holds and how often it was written.
pub struct SlotView {
    pub value: Option<Seq<u8>>,
    pub version: nat,
}

impl SlotView {
    /// How a write to this slot ends. The version is kept in 32 bits, so a
    /// slot that has used them up takes no further write.
    pub open spec fn outcome(self, write: WriteView) -> StoreOutcome {
        if write.expected_version matches Some(v) && v != self.version {
            StoreOutcome::Conflict
        } else if self.version >= u32::MAX {
            StoreOutcome::Failed
        } else {
            StoreOutcome::Stored
        }
    }

    /// The slot after a write: the new value under the next version where
    /// the write is taken, and the slot as it was otherwise.
    pub open spec fn after(self, write: WriteView) -> SlotView {
        if self.outcome(write) == StoreOutcome::Stored {
            SlotView { value: write.value, version: self.version + 1 }
        } else {
            self
        }
    }
}

/// The shared cache slot.
#[derive(Debug)]
pub struct SharedCache {
    value: Option<Vec<u8>>,
    version: u32,
}

impl View for SharedCache {
    type V = SlotView;

    closed spec fn view(&self) -> SlotView {
        SlotView { value: payload_view(self.value), version: self.version as nat }
    }
}

impl SharedCache {
    /// An empty slot that was never written.
    pub fn new() -> (res: SharedCache)
        ensures
            res@ == (SlotView { value: None, version: 0 }),
    {
        SharedCache { value: None, version: 0 }
    }

    /// A slot that holds `value` after `version` writes.
    pub fn holding(value: Option<Vec<u8>>, version: u32) -> (res: SharedCache)
        ensures
            res@ == (SlotView { value: payload_view(value), version: version as nat }),
    {
        SharedCache { value, version }
    }

    /// Reads the slot: what it holds, if anything, and its version.
    pub fn get(&self) -> (res: (Option<&Vec<u8>>, u32))
        ensures
            match res.0 {
                Some(payload) => self@.value == Some(payload@),
                None => self@.value is None,
            },
            res.1 == self@.version,
    {
        (self.value.as_ref(), self.version)
    }

    /// Whether the slot holds a payload.
    pub fn is_populated(&self) -> (res: bool)
        ensures
            res == self@.value is Some,
    {
        self.value.is_some()
    }

    /// Writes the slot. The write is taken unless it expects another version
    /// than the slot is at, or the versions are used up.
    pub fn put(&mut self, write: CacheWrite) -> (res: StoreOutcome)
        ensures
            res == old(self)@.outcome(write@),
            final(self)@ == old(self)@.after(write@),
    {
        let conflict = match write.expected_version {
            Some(v) => v != self.version,
            None => false,
        };
        if conflict {
            StoreOutcome::Conflict
        } else if self.version == u32::MAX {
            StoreOutcome::Failed
        } else {
            self.value = write.value;
            self.version = self.version + 1;
            StoreOutcome::Stored
        }
    }
}

} // verus!
