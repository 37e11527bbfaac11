//! The command handlers behind the shell's request/response boundary.
//!
//! Every handler is stateless and takes and returns plain values; failure is
//! reported as a plain text message. The only host capability the handlers
//! reach themselves is the URL opener; dialogs, filesystem access and the
//! app-data directory lookup belong to the host-facing layer around the
//! library.

use vstd::prelude::*;

use crate::path_name::audio_name;
use crate::path_name::derive_name;
use crate::types::AudioFile;
use crate::types::ExportOptions;
use crate::types::ExportResult;

verus! {

/// The path the export command fabricates:
/// `{output_dir}/clip_{clip_id}_{format}.mp4`. The `.mp4` suffix is fixed
/// whatever `format` says; `format` only names the clip. That quirk is kept
/// as the command's callers expect it.
pub open spec fn export_path(output_dir: Seq<char>, clip_id: Seq<char>, format: Seq<char>) -> Seq<
    char,
> {
    output_dir + "/clip_"@ + clip_id + "_"@ + format + ".mp4"@
}

/// The message substituted when the host reports a failure with empty text.
pub open spec fn unopened_message() -> Seq<char> {
    "the host could not open the value"@
}

/// File selection is delegated to the front end (drag-and-drop): the command
/// always reports "no selection" and never fails.
pub fn select_audio_file() -> (r: Result<Option<AudioFile>, String>)
    ensures
        r == Ok::<Option<AudioFile>, String>(None),
{
    Ok(None)
}

/// Describes the audio file at `path` without touching the disk: the path is
/// echoed back, the display name is derived from its final segment, and the
/// duration is the sentinel `0` because no audio metadata is ever read.
pub fn get_audio_info(path: String) -> (r: Result<AudioFile, String>)
    ensures
        r matches Ok(f) && f.path@ == path@ && f.duration_ms == 0 && f.name@ == audio_name(
            path@,
        ),
{
    let name = derive_name(path.as_str());
    Ok(AudioFile { path, duration_ms: 0, name })
}

/// The placeholder export: no rendering happens and no file is written; the
/// command fabricates the output path from the request and always succeeds,
/// whatever the request holds.
pub fn export_clip(options: ExportOptions) -> (r: Result<ExportResult, String>)
    ensures
        r matches Ok(res) && res.wf() && res.success && res.error is None && (
        res.output_path matches Some(p) && p@ == export_path(
            options.output_dir@,
            options.clip_id@,
            options.format@,
        )),
{
    let mut out = options.output_dir;
    out.append("/clip_");
    out.append(options.clip_id.as_str());
    out.append("_");
    out.append(options.format.as_str());
    out.append(".mp4");
    Ok(ExportResult { success: true, output_path: Some(out), error: None })
}

/// Relies on `open::that`: asks the host's default handler to open the value.
/// The host alone decides the outcome, so nothing is promised of it; a
/// failure carries the host's own error text.
#[verifier::external_body]
fn host_open(url: &str) -> (r: Result<(), String>) {
    match open::that(url) {
        Ok(()) => Ok(()),
        Err(e) => Err(e.to_string()),
    }
}

/// What the URL command returns for each host outcome: success passes
/// through, a failure keeps the host's text, and a failure whose text is
/// empty is given a fixed message, so a failure always carries a non-empty
/// one.
pub fn open_outcome(host: Result<(), String>) -> (r: Result<(), String>)
    ensures
        r is Ok <==> host is Ok,
        host matches Err(m) ==> r matches Err(f) && (if m@.len() > 0 {
            f == m
        } else {
            f@ == unopened_message()
        }),
        r matches Err(f) ==> f@.len() > 0,
{
    match host {
        Ok(()) => Ok(()),
        Err(m) => {
            if m.as_str().is_empty() {
                proof {
                    reveal_strlit("the host could not open the value");
                }
                Err(String::from_str("the host could not open the value"))
            } else {
                Err(m)
            }
        },
    }
}

/// Asks the host operating system to open `url` with its default handler.
/// No shape of `url` is checked beforehand: the host alone decides success,
/// and a failure always carries a non-empty text message.
pub fn open_url(url: &str) -> (r: Result<(), String>)
    ensures
        r matches Err(m) ==> m@.len() > 0,
{
    let host = host_open(url);
    open_outcome(host)
}

} // verus!
