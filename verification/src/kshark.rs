//! Consumer-facing entry type and the visibility constants that govern it.
//!
//! The trace-visualization consumer works on an array of compact entries,
//! one per raw record, each carrying only what a time-series view needs
//! plus the offset that leads back to the raw record for on-demand decode.

use vstd::prelude::*;

verus! {

/// Identifier returned for an entry whose task attribution is hidden.
pub const KS_EMPTY_BIN: i32 = -1;

/// Visibility-mask bit that must be set for an entry's task attribution
/// to be exposed.
pub const KS_PLUGIN_UNTOUCHED_MASK: u16 = 1 << 7;

/// Identifier of the kind of data interface a stream exposes.
#[derive(Clone, Copy, Debug, PartialEq, Eq, Structural)]
pub enum DataInterfaceId {
    /// An interface with unknown type.
    InvalidInterface,
    /// Generic interface suitable for entry-array data.
    GenericDataInterface,
}

impl DataInterfaceId {
    /// The numeric value of this interface identifier in the consumer's
    /// binary interface.
    pub fn value(&self) -> (r: u32)
        ensures
            r == (if *self is InvalidInterface {
                0u32
            } else {
                1u32
            }),
    {
        match *self {
            DataInterfaceId::InvalidInterface => 0,
            DataInterfaceId::GenericDataInterface => 1,
        }
    }
}

/// The compact, consumer-facing projection of one trace record.  It holds
/// all information needed to visualize the time series of records; full
/// detail is available on demand through the `offset` back-reference into
/// the raw record collection.
#[allow(non_camel_case_types)]
#[derive(Clone, Copy, Debug, PartialEq, Eq, Structural)]
pub struct kshark_entry {
    /// A bit mask controlling the visibility of the entry.  The value
    /// `0xFF` means the entry is visible everywhere.
    pub visible: u16,
    /// Data stream identifier.
    pub stream_id: i16,
    /// Identifier of the trace event type, saturated to this field's width.
    pub event_id: i16,
    /// The host CPU core of the record, saturated to this field's width.
    pub cpu: i16,
    /// The task identifier the record was attributed to.
    pub pid: i32,
    /// The index of the raw record this entry projects; the only path back
    /// to full detail.
    pub offset: i64,
    /// The time of the record in nanoseconds, relative to the first
    /// record of the trace.
    pub ts: i64,
}

/// The field values of a fresh entry: fully visible, everything else zero.
pub open spec fn spec_default_entry() -> kshark_entry {
    kshark_entry {
        visible: 0xFF,
        stream_id: 0,
        event_id: 0,
        cpu: 0,
        pid: 0,
        offset: 0,
        ts: 0,
    }
}

impl Default for kshark_entry {
    /// A fresh entry is visible everywhere and carries zeroes elsewhere.
    fn default() -> (r: Self)
        ensures
            r == spec_default_entry(),
    {
        kshark_entry {
            visible: 0xFF,
            stream_id: 0,
            event_id: 0,
            cpu: 0,
            pid: 0,
            offset: 0,
            ts: 0,
        }
    }
}

} // verus!
