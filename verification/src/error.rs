//! Errors of the asset pipeline. Configuration errors abort a build before
//! any file is processed; per-file transform errors abort the run (the
//! pipeline is fail-fast by design).

use vstd::prelude::*;

verus! {

/// Why a build step failed.
#[derive(Clone, Copy, Debug, PartialEq, Eq, Structural)]
pub enum BuildError {
    /// A rule's glob pattern does not have valid glob syntax.
    InvalidGlob,
    /// A stylesheet could not be parsed or minified.
    CssMinify,
    /// A raster image could not be decoded or re-encoded.
    ImageTranscode,
    /// A file handed to the stylesheet loader was not valid UTF-8.
    InvalidUtf8,
}

impl BuildError {
    /// A short human-readable description of the error.
    pub fn message(&self) -> (r: &'static str)
        ensures
            *self is InvalidGlob ==> r@ == "invalid glob pattern"@,
            *self is CssMinify ==> r@ == "failed to parse or minify stylesheet"@,
            *self is ImageTranscode ==> r@ == "failed to decode or re-encode image"@,
            *self is InvalidUtf8 ==> r@ == "stylesheet is not valid UTF-8"@,
    {
        match self {
            BuildError::InvalidGlob => "invalid glob pattern",
            BuildError::CssMinify => "failed to parse or minify stylesheet",
            BuildError::ImageTranscode => "failed to decode or re-encode image",
            BuildError::InvalidUtf8 => "stylesheet is not valid UTF-8",
        }
    }
}

} // verus!
