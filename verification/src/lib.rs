//! A thumbnailing pipeline built around a native image-processing library.
//!
//! The native library owns decoding, resampling and encoding. What this crate
//! owns — and verifies — is everything around those calls: the process-wide
//! init/teardown lifecycle, the handle validity window, the conversion of
//! paths into the native string form, the frame-sequence bookkeeping of the
//! resize loop, and the translation of native failure signals into structured
//! errors. An unverified driver performs the actual native calls and feeds
//! their outcomes back into the verified state machine.

pub mod errors;
pub mod frames;
pub mod lifecycle;
pub mod path;
