//! The shared vocabulary of the pipeline: requested output format, recognized
//! style-file kinds, and the per-stage error taxonomy.

use vstd::prelude::*;

verus! {

/// Output format requested for a run: only the minified rendering, or only
/// the pretty one. When no format is requested, both renderings are produced.
#[derive(Debug, Clone, Copy, PartialEq, Eq, Structural)]
pub enum Format {
    Minified,
    Pretty,
}

/// The style-file kinds recognized by the collector, classified from a
/// file's extension.
#[derive(Debug, Clone, Copy, PartialEq, Eq, Structural)]
pub enum StyleExtension {
    Css,
    Scss,
    Sass,
}

/// The browser-support baseline handed to the CSS engine's structural
/// minification: a minimum version per browser family, each encoded the way
/// the engine encodes versions (one byte per `major.minor.patch` component).
#[derive(Debug, Clone, Copy, PartialEq, Eq)]
pub struct BrowserTargets {
    pub android: Option<u32>,
    pub chrome: Option<u32>,
    pub edge: Option<u32>,
    pub firefox: Option<u32>,
    pub ie: Option<u32>,
    pub ios_saf: Option<u32>,
    pub opera: Option<u32>,
    pub safari: Option<u32>,
    pub samsung: Option<u32>,
}

/// One error per pipeline stage, each carrying the underlying message:
/// collection found nothing, the SASS compiler rejected the manifest, the
/// CSS engine rejected the combined stylesheet, or an output could not be
/// persisted.
#[derive(Debug)]
pub enum StackerError {
    Collect(String),
    Sass(String),
    Stylesheet(String),
    Save(String),
}

impl StackerError {
    /// The human-readable description of the error, naming the stage that
    /// failed and the underlying message.
    pub fn message(&self) -> (r: String)
        ensures
            r@ == match self {
                StackerError::Collect(m) => "Failed to collect style files : "@ + m@,
                StackerError::Sass(m) => "Failed to process SASS : "@ + m@,
                StackerError::Stylesheet(m) => "Failed to process CSS : "@ + m@,
                StackerError::Save(m) => "Failed to save styles : "@ + m@,
            },
    {
        match self {
            StackerError::Collect(m) => {
                String::from_str("Failed to collect style files : ").concat(m.as_str())
            },
            StackerError::Sass(m) => {
                String::from_str("Failed to process SASS : ").concat(m.as_str())
            },
            StackerError::Stylesheet(m) => {
                String::from_str("Failed to process CSS : ").concat(m.as_str())
            },
            StackerError::Save(m) => {
                String::from_str("Failed to save styles : ").concat(m.as_str())
            },
        }
    }
}

} // verus!
