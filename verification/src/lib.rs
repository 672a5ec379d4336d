//! Source file emission: reconciling a file's freshly formatted text with its
//! original text and handing both to an output sink.
//!
//! The library retrieves the original text of a file either from an injected
//! read-only cache or from an injected filesystem capability, decides which of
//! the two must be consulted based on the active newline style, and forwards
//! the (original, formatted) pair to an emitter.
use vstd::prelude::*;

pub mod config;
pub mod emitter;
pub mod file_system;
pub mod source_cache;
pub mod source_file;

verus! {

/// The line-ending convention requested for emission.
///
/// `Auto` preserves whatever the original file used; the other values force a
/// particular convention and therefore require the original bytes as they are
/// on disk, not a normalized cached copy.
#[derive(Clone, Copy, PartialEq, Eq, Structural, Debug)]
pub enum NewlineStyle {
    /// Preserve the line endings the original file used.
    Auto,
    /// Force `\n` line endings.
    Unix,
    /// Force `\r\n` line endings.
    Windows,
    /// Use the host platform's convention.
    Native,
}

} // verus!
