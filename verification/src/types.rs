//! The three transfer types that cross the shell's command boundary.

use vstd::prelude::*;

verus! {

/// A reference to an audio file, as handed back to the front end.
///
/// `duration_ms` holds the duration in whole milliseconds. No audio metadata
/// is ever read, so it always carries the sentinel `0` ("not known"); the
/// host-facing layer renders it as floating-point seconds.
#[derive(Debug, Clone)]
pub struct AudioFile {
    pub path: String,
    pub duration_ms: u64,
    pub name: String,
}

/// The argument bundle of the clip-export command.
///
/// No field is validated against an allow-list: any text is accepted.
#[derive(Debug, Clone)]
pub struct ExportOptions {
    pub clip_id: String,
    pub format: String,
    pub template_id: String,
    pub output_dir: String,
    pub quality: String,
}

/// The outcome of the clip-export command.
#[derive(Debug, Clone)]
pub struct ExportResult {
    pub success: bool,
    pub output_path: Option<String>,
    pub error: Option<String>,
}

impl ExportResult {
    /// Exactly the side named by `success` is populated: a path on success,
    /// an error message on failure.
    pub open spec fn wf(self) -> bool {
        &&& self.success ==> self.output_path is Some && self.error is None
        &&& !self.success ==> self.error is Some && self.output_path is None
    }
}

} // verus!
