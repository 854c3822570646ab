//! Typed failures of the manifest resolution core. Every failure is a
//! local, synchronous value returned to the immediate caller; nothing is
//! retried and nothing is silently downgraded.

use vstd::prelude::*;

verus! {

/// The structured text encodings the loader accepts.
#[derive(Debug, Clone, Copy, PartialEq, Eq, Structural)]
pub enum TextFormat {
    Toml,
    Yaml,
    Json,
}

/// Failure of a manifest decode.
#[derive(Debug, Clone)]
pub enum DecodeError {
    /// A structural violation in one of the text formats: the text does not
    /// parse, a required field is missing or has the wrong type, or the
    /// version string is malformed.
    Malformed { format: TextFormat, detail: String },
    /// The embedded program failed to compile; the diagnostics are carried
    /// verbatim so that they are surfaced to the user, never dropped.
    CompileFailed { diagnostics: String },
    /// A runtime fault, a type-conversion failure at the scripting
    /// boundary, or an explicit failure message produced by the program.
    ScriptFailed { message: String },
}

} // verus!
