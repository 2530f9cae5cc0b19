//! Structured failure results for the pipeline.
//!
//! The native layer signals failure through a boolean status convention and
//! keeps a per-handle error record (message plus severity) that must be
//! copied out while the handle is still alive. This module maps both that
//! convention and the path-representability check onto a proper two-state
//! result type, so that no native sentinel value escapes the boundary.

use vstd::prelude::*;

verus! {

/// The diagnostic text reported when a path cannot be represented as a
/// native string.
pub open spec fn path_encoding_message() -> Seq<char> {
    "Null byte?"@
}

/// The most recent native failure, copied out of the native layer while the
/// owning handle was still alive: a human-readable message and a severity
/// code. Once constructed it is an owned value, independent of the handle.
pub struct ErrorDescriptor {
    pub message: String,
    pub severity: u32,
}

impl ErrorDescriptor {
    pub fn new(message: String, severity: u32) -> (d: ErrorDescriptor)
        ensures
            d.message@ == message@,
            d.severity == severity,
    {
        ErrorDescriptor { message, severity }
    }
}

/// A failure of one pipeline stage.
pub enum Error {
    /// The input or output path holds an embedded null byte, so it cannot be
    /// converted to the native string form. Detected before any native call;
    /// the native layer is never invoked for such a path.
    PathEncoding,
    /// A native read or write call signalled failure; carries the error
    /// record fetched from the handle before the handle was destroyed.
    NativeOperation { descriptor: ErrorDescriptor },
}

impl Error {
    /// True when this is the path-representability failure.
    pub open spec fn is_path_encoding(self) -> bool {
        self is PathEncoding
    }

    /// True when this is a native failure carrying the given message and
    /// severity.
    pub open spec fn is_native_with(self, message: Seq<char>, severity: u32) -> bool {
        self matches Error::NativeOperation { descriptor }
            && descriptor.message@ == message
            && descriptor.severity == severity
    }

    /// The text of this error as seen by whoever reads it.
    pub open spec fn spec_diagnostic(self) -> Seq<char> {
        match self {
            Error::PathEncoding => path_encoding_message(),
            Error::NativeOperation { descriptor } => descriptor.message@,
        }
    }

    /// The diagnostic text: for a native failure, exactly the message the
    /// native layer reported; for a path failure, the fixed encoding text.
    pub fn diagnostic(&self) -> (r: String)
        ensures
            r@ == self.spec_diagnostic(),
    {
        match self {
            Error::PathEncoding => {
                let s: &str = "Null byte?";
                s.to_owned()
            },
            Error::NativeOperation { descriptor } => descriptor.message.clone(),
        }
    }
}

} // verus!
