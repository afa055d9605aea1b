use voxel::editor::{
    default_export_name, notice_for_error, Editor, ExportClickDecision, ExportJob, Notice,
};
use voxel::errors::EditorError;
use voxel::playback::TargetState;

const SECOND: u64 = 1_000_000_000;

fn loaded_editor(handle: u64, duration_ns: u64) -> Editor {
    let mut e = Editor::new();
    let evicted = e.load_succeeded(String::from("/videos/clip.mp4"), handle, duration_ns);
    assert_eq!(evicted, None);
    e
}

#[test]
fn export_without_clip_is_rejected_without_dialog() {
    let e = Editor::new();
    let d = e.export_clicked();
    assert_eq!(d, ExportClickDecision::Reject(Notice::NoVideoLoaded));
    assert_eq!(Notice::NoVideoLoaded.text(), "No video loaded");
}

#[test]
fn transport_with_no_clip_is_a_noop() {
    let e = Editor::new();
    assert!(e.play_clicked().is_none());
    assert!(e.pause_clicked().is_none());
    assert!(e.stop_clicked().is_none());
    assert!(e.seek_requested(5 * SECOND).is_none());
}

#[test]
fn transport_addresses_the_installed_pipeline() {
    let e = loaded_editor(3, 120 * SECOND);
    let play = e.play_clicked().unwrap();
    assert_eq!(play.pipeline, 3);
    assert_eq!(play.target, TargetState::Playing);
    let pause = e.pause_clicked().unwrap();
    assert_eq!(pause.target, TargetState::Paused);
    let stop = e.stop_clicked().unwrap();
    assert_eq!(stop.target, TargetState::Ready);
    let seek = e.seek_requested(15 * SECOND).unwrap();
    assert_eq!(seek.pipeline, 3);
    assert_eq!(seek.position_ns, 15 * SECOND);
    assert!(seek.flush);
    assert!(seek.snap_to_keyframe);
}

#[test]
fn load_defaults_bounds_to_full_clip() {
    let e = loaded_editor(1, 120 * SECOND);
    assert!(e.loaded());
    assert_eq!(e.clip_duration_ns(), Some(120 * SECOND));
    assert_eq!(e.trim_bounds_ns(), Some((0, 120 * SECOND)));
    assert_eq!(Notice::VideoLoaded.text(), "Video loaded successfully");
}

#[test]
fn repeated_load_hands_back_previous_pipeline() {
    let mut e = Editor::new();
    let first = e.load_succeeded(String::from("/videos/a.mp4"), 11, 60 * SECOND);
    assert_eq!(first, None);
    let second = e.load_succeeded(String::from("/videos/b.mp4"), 12, 90 * SECOND);
    assert_eq!(second, Some(11));
    assert_eq!(e.clip_duration_ns(), Some(90 * SECOND));
}

#[test]
fn failed_load_discards_fresh_pipeline_and_keeps_state() {
    let e = loaded_editor(5, 60 * SECOND);
    let (teardown, notice) = e.load_failed(Some(9));
    assert_eq!(teardown, Some(9));
    assert_eq!(notice, Notice::LoadFailed);
    assert_eq!(e.clip_duration_ns(), Some(60 * SECOND));
}

#[test]
fn inverted_bounds_are_rejected_before_export() {
    let mut e = loaded_editor(2, 120 * SECOND);
    e.set_trim_start(40 * SECOND);
    e.set_trim_end(10 * SECOND);
    let d = e.export_clicked();
    assert_eq!(d, ExportClickDecision::Reject(Notice::InvalidTimeRange));
    let r = e.export_target_chosen("/videos/out.mp4");
    assert_eq!(r, Err(Notice::InvalidTimeRange));
    assert!(!e.export_running());
    assert_eq!(
        Notice::InvalidTimeRange.text(),
        "Invalid time range: start must be before end"
    );
}

#[test]
fn equal_bounds_are_rejected_before_export() {
    let mut e = loaded_editor(2, 120 * SECOND);
    e.set_trim_start(30 * SECOND);
    e.set_trim_end(30 * SECOND);
    assert_eq!(
        e.export_clicked(),
        ExportClickDecision::Reject(Notice::InvalidTimeRange)
    );
}

#[test]
fn export_scenario_trims_120s_clip_to_30s() {
    let mut e = loaded_editor(4, 120 * SECOND);
    e.set_trim_start(10 * SECOND);
    e.set_trim_end(40 * SECOND);
    assert_eq!(e.export_clicked(), ExportClickDecision::ShowSaveDialog);
    let job: ExportJob = e.export_target_chosen("out.mp4").unwrap();
    assert_eq!(
        job.description,
        "filesrc location=/videos/clip.mp4 ! decodebin name=dec ! queue ! videoconvert ! \
         videotrim start=10000000000 stop=40000000000 ! queue ! x264enc ! mp4mux ! \
         filesink location=out.mp4"
    );
    assert!(e.export_running());
    let n = e.export_finished(Ok(()));
    assert_eq!(n, Notice::VideoExported);
    assert_eq!(n.text(), "Video exported successfully");
    assert!(!e.export_running());
    assert_eq!(e.trim_bounds_ns(), Some((10 * SECOND, 40 * SECOND)));
}

#[test]
fn second_export_click_while_running_is_rejected() {
    let mut e = loaded_editor(4, 120 * SECOND);
    e.set_trim_start(10 * SECOND);
    e.set_trim_end(40 * SECOND);
    e.export_target_chosen("out.mp4").unwrap();
    assert_eq!(
        e.export_clicked(),
        ExportClickDecision::Reject(Notice::ExportAlreadyRunning)
    );
}

#[test]
fn failed_export_maps_to_failure_notice() {
    let mut e = loaded_editor(4, 120 * SECOND);
    e.set_trim_start(10 * SECOND);
    e.set_trim_end(40 * SECOND);
    e.export_target_chosen("out.mp4").unwrap();
    let n = e.export_finished(Err(EditorError::ExportFailure {
        element: String::from("x264enc"),
        detail: String::from("not negotiated"),
    }));
    assert_eq!(n, Notice::ExportFailed);
    assert_eq!(n.text(), "Export failed");
    assert!(!e.export_running());
}

#[test]
fn errors_render_as_notices() {
    let construction = EditorError::PipelineConstruction {
        detail: String::from("no such element"),
    };
    assert_eq!(notice_for_error(&construction), Notice::LoadFailed);
    assert_eq!(notice_for_error(&EditorError::DurationUnavailable), Notice::LoadFailed);
    assert_eq!(
        notice_for_error(&EditorError::InvalidTimeRange),
        Notice::InvalidTimeRange
    );
    let export = EditorError::ExportFailure {
        element: String::from("mp4mux"),
        detail: String::from("could not write"),
    };
    assert_eq!(notice_for_error(&export), Notice::ExportFailed);
}

#[test]
fn save_dialog_suggests_mp4_name() {
    assert_eq!(default_export_name(), "edited_video.mp4");
}
