//! Text embedding core: token encodings are shaped into model inputs, run
//! through an inference session, and the resulting hidden states are
//! described for pooling. A registry holds the one shared pipeline, and the
//! boundary module turns outcomes into the integer protocol of foreign
//! callers.

pub mod boundary;
pub mod encoding;
pub mod error;
pub mod inference;
pub mod matrix;
pub mod pipeline;
pub mod pooling;
pub mod registry;
pub mod shape;
