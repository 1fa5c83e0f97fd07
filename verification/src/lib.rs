//! Runtime support for a TLV (type-length-value) attribute codec: alignment
//! arithmetic, record header writing with deferred-length backpatching, a
//! single-step header reader for walking records, a decode cursor that tracks
//! position and computes localized error offsets, a structured error type with
//! exact textual rendering, and adapters that turn a stream of fallible
//! per-attribute results into a plain value stream.

pub mod adapters;
pub mod align;
pub mod cursor;
pub mod error;
pub mod hexfmt;
pub mod reader;
pub mod wire;
pub mod writer;
