//! Decode engine for XenTrace binary captures, for a trace-visualization
//! consumer.
//!
//! The library turns the ordered record collection of an already-parsed
//! trace (the `xentrace_parser` crate does the file parsing) into an array
//! of compact, randomly addressable entries, and decodes single records on
//! demand into display strings.  Every piece of decode logic is verified:
//! cycle-counter-to-nanosecond conversion, event-code classification and
//! naming, task-identity assignment, and the projection pass itself.

pub mod info;
pub mod kshark;
pub mod name;
pub mod record;
pub mod stream;
pub mod task;
pub mod text;
pub mod timestamp;
pub mod trace_ext;
pub mod xen;
