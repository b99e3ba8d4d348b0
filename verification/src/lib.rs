//! A test-support log collector: it keeps a copy of structured diagnostic
//! output in a shared in-memory buffer and renders that copy on demand as a
//! sanitized, prefixed string suitable for snapshot assertions.
//!
//! The crate is organised in three modules:
//! - [`buffer`]: the shared, lock-protected capture buffer,
//! - [`render`]: the drain, sanitize and format pipeline,
//! - [`collector`]: the collector that owns a buffer, a prefix and the
//!   installed-sink handle.

pub mod buffer;
pub mod collector;
pub mod render;

pub use buffer::CaptureBuffer;
pub use collector::TracingCollector;
pub use render::RenderError;
