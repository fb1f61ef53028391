//! Streaming DEFLATE decompression engines.
//!
//! Two engines drive one zlib decoder through a bounded scratch buffer:
//! [`Decompressor`] hands out output as soon as the decoder produces it, and
//! [`ZlibDecompressor`] holds input back until a sync-flush marker closes a
//! frame. The decoder itself comes from the `zlib-rs` crate; what is verified
//! here is the machinery around it.

pub mod context;
pub mod error;
pub mod policy;
pub mod pump;
pub mod reply;
pub mod decompressor;
pub mod zlib;
pub mod laws;

pub use context::{Context, ErrorCode, FlushMode, Overflow, StepOutcome, StepStatus, Trail, Turn};
pub use decompressor::{Decompressor, OUTPUT_CHUNK_SIZE};
pub use error::EngineError;
pub use reply::{FrameReply, StreamReply};
pub use zlib::ZlibDecompressor;
