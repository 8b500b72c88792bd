//! Client-side library for batched, streaming text generation against a
//! replicated inference engine: the names the engine understands, the
//! nested-sequence transport, decoding options and their validation, the
//! open-time settings, the admission policy and the step-event stream.

pub mod names;
pub mod buffer;
pub mod options;
pub mod error;
pub mod request;
pub mod engine;
pub mod stream;
