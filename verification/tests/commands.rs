use clipshell::commands::export_clip;
use clipshell::commands::get_audio_info;
use clipshell::commands::open_outcome;
use clipshell::commands::open_url;
use clipshell::commands::select_audio_file;
use clipshell::types::ExportOptions;

fn name_of(path: &str) -> String {
    get_audio_info(path.to_string()).unwrap().name
}

#[test]
fn audio_info_typical_path() {
    let r = get_audio_info("/tmp/song.wav".to_string()).unwrap();
    assert_eq!(r.path, "/tmp/song.wav");
    assert_eq!(r.duration_ms, 0);
    assert_eq!(r.name, "song");
}

#[test]
fn audio_info_duration_is_sentinel() {
    assert_eq!(get_audio_info("a.mp3".to_string()).unwrap().duration_ms, 0);
    assert_eq!(get_audio_info("".to_string()).unwrap().duration_ms, 0);
    assert_eq!(get_audio_info("/x/y/z.flac".to_string()).unwrap().duration_ms, 0);
}

#[test]
fn audio_name_strips_only_last_extension() {
    assert_eq!(name_of("/a/b/archive.tar.gz"), "archive.tar");
}

#[test]
fn audio_name_keeps_leading_dot() {
    assert_eq!(name_of(".bashrc"), ".bashrc");
    assert_eq!(name_of("/home/user/.profile"), ".profile");
}

#[test]
fn audio_name_ignores_trailing_separators() {
    assert_eq!(name_of("/x/y/"), "y");
    assert_eq!(name_of("a/b//"), "b");
}

#[test]
fn audio_name_unknown_when_no_segment() {
    assert_eq!(name_of(""), "Unknown");
    assert_eq!(name_of("/"), "Unknown");
    assert_eq!(name_of("//"), "Unknown");
    assert_eq!(name_of("."), "Unknown");
    assert_eq!(name_of(".."), "Unknown");
    assert_eq!(name_of("a/.."), "Unknown");
}

#[test]
fn audio_name_skips_current_dir_segments() {
    assert_eq!(name_of("a/."), "a");
    assert_eq!(name_of("./notes.txt"), "notes");
}

#[test]
fn audio_name_edge_dots() {
    assert_eq!(name_of("name."), "name");
    assert_eq!(name_of("..."), "..");
    assert_eq!(name_of("x..y"), "x.");
}

#[test]
fn audio_name_without_extension() {
    assert_eq!(name_of("/var/tmp/take"), "take");
}

#[test]
fn export_builds_path_and_succeeds() {
    let r = export_clip(ExportOptions {
        clip_id: "42".to_string(),
        format: "webm".to_string(),
        template_id: "t1".to_string(),
        output_dir: "/out".to_string(),
        quality: "high".to_string(),
    })
    .unwrap();
    assert!(r.success);
    assert_eq!(r.output_path.as_deref(), Some("/out/clip_42_webm.mp4"));
    assert_eq!(r.error, None);
}

#[test]
fn export_tolerates_empty_fields() {
    let r = export_clip(ExportOptions {
        clip_id: String::new(),
        format: String::new(),
        template_id: String::new(),
        output_dir: String::new(),
        quality: String::new(),
    })
    .unwrap();
    assert!(r.success);
    assert_eq!(r.output_path.as_deref(), Some("/clip__.mp4"));
    assert_eq!(r.error, None);
}

#[test]
fn select_reports_no_selection() {
    let r = select_audio_file().unwrap();
    assert!(r.is_none());
}

#[test]
fn open_outcome_passes_success_through() {
    assert_eq!(open_outcome(Ok(())), Ok(()));
}

#[test]
fn open_outcome_keeps_host_text() {
    let r = open_outcome(Err("no handler registered".to_string()));
    assert_eq!(r, Err("no handler registered".to_string()));
}

#[test]
fn open_outcome_replaces_empty_text() {
    let r = open_outcome(Err(String::new()));
    let msg = r.unwrap_err();
    assert!(!msg.is_empty());
    assert_eq!(msg, "the host could not open the value");
}

#[test]
fn open_url_failure_carries_message() {
    let r = open_url("");
    let msg = r.unwrap_err();
    assert!(!msg.is_empty());
}
