//! A minimal container-execution engine: it resolves an image reference to a
//! sequence of filesystem layers, builds an ephemeral sandbox root, stages the
//! target command inside it, and decides every step of the isolated run.
//!
//! All decision logic lives here and is verified; the surrounding process
//! (network transport, filesystem writes, the privileged isolation calls)
//! performs the actions this library hands out and reports the outcomes back.

pub mod errors;
pub mod image;
pub mod paths;
pub mod registry;
pub mod engine;
