//! A typed bridge between the output-plugin contract of a video editor and a
//! plugin written against ordinary Rust values.
//!
//! The host describes a rendering job with a record of integers and callbacks,
//! and expects a table of encoded strings in return.  Everything the bridge
//! decides about those values lives in [`output`]: the typed view of a job,
//! the frame stream with its throttled checkpoints, the layout of the exported
//! table, and the configuration buffer.  Each function there carries a
//! contract that Verus proves.

pub mod output;
