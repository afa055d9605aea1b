//! The editor coordinator.
//!
//! The coordinator owns the editing session: which clip is loaded, its
//! duration, the two trim bounds, the playback backend adapter, and whether
//! an export is running. The GUI shell translates each widget event into one
//! method call here, performs whatever command or job the call returns, and
//! reports the outcome back with the matching `*_finished` call. Every
//! failure surfaces as a transient [`Notice`]; none escapes the UI layer.
//!
//! States of the session: no media, media loaded, and exporting. A load
//! installs the clip with trim bounds defaulted to the full clip; the sliders
//! then move either bound freely, and the bounds are validated only when the
//! export is requested.

use vstd::prelude::*;
use crate::errors::EditorError;
use crate::launch;
use crate::playback::{PlaybackBackend, SeekCommand, StateCommand, TargetState};

verus! {

/// A transient status notice shown over the main window.
#[derive(Debug, Clone, Copy, PartialEq, Eq, Structural)]
pub enum Notice {
    /// A clip was loaded and its duration resolved.
    VideoLoaded,
    /// A load attempt failed; the previous session state is kept.
    LoadFailed,
    /// Export was requested with no clip loaded.
    NoVideoLoaded,
    /// Export was requested with `start >= end`.
    InvalidTimeRange,
    /// Export was requested while an export is still running.
    ExportAlreadyRunning,
    /// An export ran to completion.
    VideoExported,
    /// An export stopped with an error from the external framework.
    ExportFailed,
}

impl Notice {
    /// The user-visible text of the notice.
    pub fn text(&self) -> (t: &'static str)
        ensures
            self is VideoLoaded ==> t@ == "Video loaded successfully"@,
            self is LoadFailed ==> t@ == "Error loading video"@,
            self is NoVideoLoaded ==> t@ == "No video loaded"@,
            self is InvalidTimeRange ==> t@ == "Invalid time range: start must be before end"@,
            self is ExportAlreadyRunning ==> t@ == "An export is already running"@,
            self is VideoExported ==> t@ == "Video exported successfully"@,
            self is ExportFailed ==> t@ == "Export failed"@,
    {
        match self {
            Notice::VideoLoaded => "Video loaded successfully",
            Notice::LoadFailed => "Error loading video",
            Notice::NoVideoLoaded => "No video loaded",
            Notice::InvalidTimeRange => "Invalid time range: start must be before end",
            Notice::ExportAlreadyRunning => "An export is already running",
            Notice::VideoExported => "Video exported successfully",
            Notice::ExportFailed => "Export failed",
        }
    }
}

/// What the export click resolves to.
#[derive(Debug, Clone, Copy, PartialEq, Eq, Structural)]
pub enum ExportClickDecision {
    /// Open the save dialog, suggesting [`default_export_name`] as the file
    /// name; its chosen path goes to [`Editor::export_target_chosen`].
    ShowSaveDialog,
    /// The click is rejected with this notice; no dialog opens and nothing
    /// reaches the external framework.
    Reject(Notice),
}

/// One export for the shell to run: the trim/encode graph description to
/// hand to the external framework and drive to completion or error.
#[derive(Debug, Clone, PartialEq, Eq)]
pub struct ExportJob {
    /// The graph description, as built by [`launch::export_description`].
    pub description: String,
}

/// The loaded clip: its source path, resolved duration, and trim bounds.
struct LoadedClip {
    path: String,
    duration_ns: u64,
    start_ns: u64,
    end_ns: u64,
}

/// The coordinator of one editing session.
pub struct Editor {
    clip: Option<LoadedClip>,
    exporting: bool,
    backend: PlaybackBackend,
}

impl Editor {
    /// Whether a clip is loaded.
    pub closed spec fn has_media(&self) -> bool {
        self.clip is Some
    }

    /// The loaded clip's source path.
    pub closed spec fn file(&self) -> Seq<char>
        recommends
            self.has_media(),
    {
        self.clip->Some_0.path@
    }

    /// The loaded clip's duration, in nanoseconds.
    pub closed spec fn duration_ns(&self) -> u64
        recommends
            self.has_media(),
    {
        self.clip->Some_0.duration_ns
    }

    /// The trim start bound, in nanoseconds.
    pub closed spec fn start_ns(&self) -> u64
        recommends
            self.has_media(),
    {
        self.clip->Some_0.start_ns
    }

    /// The trim end bound, in nanoseconds.
    pub closed spec fn end_ns(&self) -> u64
        recommends
            self.has_media(),
    {
        self.clip->Some_0.end_ns
    }

    /// Whether an export is running.
    pub closed spec fn is_exporting(&self) -> bool {
        self.exporting
    }

    /// The playback backend adapter.
    pub closed spec fn playback(&self) -> PlaybackBackend {
        self.backend
    }

    /// The handle of the installed playback pipeline, if any.
    pub open spec fn pipeline(&self) -> Option<u64> {
        self.playback().handle()
    }

    /// Well-formedness: a playback pipeline is installed exactly when a clip
    /// is loaded, and an export can only run on a loaded clip.
    pub closed spec fn wf(&self) -> bool {
        &&& self.clip is Some <==> self.backend.handle() is Some
        &&& self.exporting ==> self.clip is Some
    }

    /// The clip and its installed pipeline are the same in `other`.
    pub open spec fn same_clip(&self, other: &Editor) -> bool {
        &&& other.has_media() == self.has_media()
        &&& other.file() == self.file()
        &&& other.duration_ns() == self.duration_ns()
        &&& other.pipeline() == self.pipeline()
    }

    /// The trim bounds are the same in `other`.
    pub open spec fn same_bounds(&self, other: &Editor) -> bool {
        &&& other.start_ns() == self.start_ns()
        &&& other.end_ns() == self.end_ns()
    }

    /// What the export click resolves to in this state: rejected without a
    /// clip, while an export runs, or with `start >= end`; otherwise the
    /// save dialog opens.
    pub open spec fn export_click_decision(&self) -> ExportClickDecision {
        if !self.has_media() {
            ExportClickDecision::Reject(Notice::NoVideoLoaded)
        } else if self.is_exporting() {
            ExportClickDecision::Reject(Notice::ExportAlreadyRunning)
        } else if self.start_ns() >= self.end_ns() {
            ExportClickDecision::Reject(Notice::InvalidTimeRange)
        } else {
            ExportClickDecision::ShowSaveDialog
        }
    }

    /// A fresh session: no clip, no pipeline, no export running.
    pub fn new() -> (e: Editor)
        ensures
            e.wf(),
            !e.has_media(),
            !e.is_exporting(),
            e.pipeline() is None,
    {
        Editor { clip: None, exporting: false, backend: PlaybackBackend::new() }
    }

    /// Installs a successfully loaded clip: records its path and resolved
    /// duration, defaults the trim bounds to the full clip, installs the
    /// fresh pipeline and hands back the previously installed one, which the
    /// shell must tear down before attaching the new one.
    pub fn load_succeeded(&mut self, path: String, pipeline: u64, duration_ns: u64) -> (evicted:
        Option<u64>)
        requires
            old(self).wf(),
        ensures
            final(self).wf(),
            load_transition(*old(self), path@, pipeline, duration_ns, *final(self), evicted),
    {
        let evicted = self.backend.install(pipeline);
        self.clip = Some(LoadedClip { path, duration_ns, start_ns: 0, end_ns: duration_ns });
        evicted
    }

    /// Registers a failed load attempt: the session keeps its previous state,
    /// and the partially constructed pipeline of the attempt, if one was
    /// built, is handed back for teardown rather than installed.
    pub fn load_failed(&self, fresh_pipeline: Option<u64>) -> (r: (Option<u64>, Notice))
        ensures
            r.0 == fresh_pipeline,
            r.1 is LoadFailed,
    {
        (fresh_pipeline, Notice::LoadFailed)
    }

    /// The command for the play button: none when no clip is loaded.
    pub fn play_clicked(&self) -> (cmd: Option<StateCommand>)
        ensures
            cmd == self.playback().state_command_spec(TargetState::Playing),
    {
        self.backend.play()
    }

    /// The command for the pause button: none when no clip is loaded.
    pub fn pause_clicked(&self) -> (cmd: Option<StateCommand>)
        ensures
            cmd == self.playback().state_command_spec(TargetState::Paused),
    {
        self.backend.pause()
    }

    /// The command for the stop button: none when no clip is loaded.
    pub fn stop_clicked(&self) -> (cmd: Option<StateCommand>)
        ensures
            cmd == self.playback().state_command_spec(TargetState::Ready),
    {
        self.backend.stop()
    }

    /// The command for a seek to an absolute position, in nanoseconds: none
    /// when no clip is loaded.
    pub fn seek_requested(&self, position_ns: u64) -> (cmd: Option<SeekCommand>)
        ensures
            cmd == self.playback().seek_command_spec(position_ns),
    {
        self.backend.seek(position_ns)
    }

    /// Moves the trim start bound. With no clip loaded there is nothing to
    /// trim and the call changes nothing. The bound is not validated here:
    /// validation happens when the export is requested.
    pub fn set_trim_start(&mut self, value_ns: u64)
        requires
            old(self).wf(),
        ensures
            final(self).wf(),
            old(self).has_media() ==> {
                &&& old(self).same_clip(final(self))
                &&& final(self).start_ns() == value_ns
                &&& final(self).end_ns() == old(self).end_ns()
                &&& final(self).is_exporting() == old(self).is_exporting()
            },
            !old(self).has_media() ==> *final(self) == *old(self),
    {
        if let Some(clip) = &mut self.clip {
            clip.start_ns = value_ns;
        }
    }

    /// Moves the trim end bound; otherwise as [`Editor::set_trim_start`].
    pub fn set_trim_end(&mut self, value_ns: u64)
        requires
            old(self).wf(),
        ensures
            final(self).wf(),
            old(self).has_media() ==> {
                &&& old(self).same_clip(final(self))
                &&& final(self).start_ns() == old(self).start_ns()
                &&& final(self).end_ns() == value_ns
                &&& final(self).is_exporting() == old(self).is_exporting()
            },
            !old(self).has_media() ==> *final(self) == *old(self),
    {
        if let Some(clip) = &mut self.clip {
            clip.end_ns = value_ns;
        }
    }

    /// Resolves the export click: either the save dialog opens, or the click
    /// is rejected with a notice — with no clip loaded, while an export
    /// runs, or when the trim bounds have `start >= end`. A rejection
    /// happens here, before any dialog and before anything reaches the
    /// external framework.
    pub fn export_clicked(&self) -> (d: ExportClickDecision)
        ensures
            d == self.export_click_decision(),
    {
        match &self.clip {
            None => ExportClickDecision::Reject(Notice::NoVideoLoaded),
            Some(clip) => {
                if self.exporting {
                    ExportClickDecision::Reject(Notice::ExportAlreadyRunning)
                } else if clip.start_ns >= clip.end_ns {
                    ExportClickDecision::Reject(Notice::InvalidTimeRange)
                } else {
                    ExportClickDecision::ShowSaveDialog
                }
            },
        }
    }

    /// Accepts the save dialog's output path and begins the export: the
    /// session enters the exporting state and the returned job carries the
    /// exact graph description for the loaded clip, the chosen output and the
    /// current trim bounds. The same conditions that reject the export click
    /// reject the path here too, leaving the session unchanged.
    pub fn export_target_chosen(&mut self, output: &str) -> (r: Result<ExportJob, Notice>)
        requires
            old(self).wf(),
        ensures
            final(self).wf(),
            old(self).export_click_decision() == ExportClickDecision::ShowSaveDialog ==> {
                &&& r is Ok
                &&& r->Ok_0.description@ == launch::export_description_spec(
                    old(self).file(),
                    output@,
                    old(self).start_ns(),
                    old(self).end_ns(),
                )
                &&& old(self).start_ns() < old(self).end_ns()
                &&& final(self).is_exporting()
                &&& old(self).same_clip(final(self))
                &&& old(self).same_bounds(final(self))
            },
            old(self).export_click_decision() matches ExportClickDecision::Reject(n) ==> {
                &&& r == Err::<ExportJob, Notice>(n)
                &&& *final(self) == *old(self)
            },
    {
        match &self.clip {
            None => Err(Notice::NoVideoLoaded),
            Some(clip) => {
                if self.exporting {
                    Err(Notice::ExportAlreadyRunning)
                } else if clip.start_ns >= clip.end_ns {
                    Err(Notice::InvalidTimeRange)
                } else {
                    let description = launch::export_description(
                        clip.path.as_str(),
                        output,
                        clip.start_ns,
                        clip.end_ns,
                    );
                    self.exporting = true;
                    Ok(ExportJob { description })
                }
            },
        }
    }

    /// Registers the outcome the shell reports once the export's graph ran to
    /// completion or error: the session leaves the exporting state, keeps the
    /// clip and bounds, and the outcome maps to the success or failure
    /// notice.
    pub fn export_finished(&mut self, outcome: Result<(), EditorError>) -> (n: Notice)
        requires
            old(self).wf(),
            old(self).is_exporting(),
        ensures
            final(self).wf(),
            !final(self).is_exporting(),
            old(self).same_clip(final(self)),
            old(self).same_bounds(final(self)),
            outcome is Ok ==> n is VideoExported,
            outcome is Err ==> n is ExportFailed,
    {
        self.exporting = false;
        match outcome {
            Ok(()) => Notice::VideoExported,
            Err(_) => Notice::ExportFailed,
        }
    }

    /// Whether a clip is loaded.
    pub fn loaded(&self) -> (b: bool)
        ensures
            b == self.has_media(),
    {
        self.clip.is_some()
    }

    /// Whether an export is running.
    pub fn export_running(&self) -> (b: bool)
        ensures
            b == self.is_exporting(),
    {
        self.exporting
    }

    /// The loaded clip's duration, in nanoseconds.
    pub fn clip_duration_ns(&self) -> (r: Option<u64>)
        ensures
            self.has_media() ==> r == Some(self.duration_ns()),
            !self.has_media() ==> r is None,
    {
        match &self.clip {
            Some(clip) => Some(clip.duration_ns),
            None => None,
        }
    }

    /// The trim bounds `(start, end)`, in nanoseconds.
    pub fn trim_bounds_ns(&self) -> (r: Option<(u64, u64)>)
        ensures
            self.has_media() ==> r == Some((self.start_ns(), self.end_ns())),
            !self.has_media() ==> r is None,
    {
        match &self.clip {
            Some(clip) => Some((clip.start_ns, clip.end_ns)),
            None => None,
        }
    }
}

/// The transient notice a caught error renders as. Every failure of a
/// backend call is caught at the coordinator boundary and shown this way;
/// none propagates further and none ends the process.
pub fn notice_for_error(e: &EditorError) -> (n: Notice)
    ensures
        e is PipelineConstruction ==> n is LoadFailed,
        e is DurationUnavailable ==> n is LoadFailed,
        e is InvalidTimeRange ==> n is InvalidTimeRange,
        e is ExportFailure ==> n is ExportFailed,
{
    match e {
        EditorError::PipelineConstruction { .. } => Notice::LoadFailed,
        EditorError::DurationUnavailable => Notice::LoadFailed,
        EditorError::InvalidTimeRange => Notice::InvalidTimeRange,
        EditorError::ExportFailure { .. } => Notice::ExportFailed,
    }
}

/// The suggested file name the save dialog opens with.
pub fn default_export_name() -> (n: &'static str)
    ensures
        n@ == "edited_video.mp4"@,
{
    "edited_video.mp4"
}

/// The state relation of one successful load, as established by
/// [`Editor::load_succeeded`]: the clip is installed with bounds defaulted to
/// the full clip, the fresh pipeline is installed, and the previously
/// installed pipeline — exactly it — is handed back for teardown.
pub open spec fn load_transition(
    pre: Editor,
    path: Seq<char>,
    pipeline: u64,
    duration_ns: u64,
    post: Editor,
    evicted: Option<u64>,
) -> bool {
    &&& post.has_media()
    &&& post.file() == path
    &&& post.duration_ns() == duration_ns
    &&& post.start_ns() == 0
    &&& post.end_ns() == duration_ns
    &&& post.pipeline() == Some(pipeline)
    &&& evicted == pre.pipeline()
    &&& post.is_exporting() == pre.is_exporting()
}

/// Law: repeated loads never leak a pipeline. Across any two consecutive
/// successful loads, the handle installed by the first is exactly the handle
/// the second hands back for teardown: a pipeline only ever leaves the
/// session by being handed back to the shell.
pub proof fn lemma_repeated_load_hands_back_previous(
    e0: Editor,
    path1: Seq<char>,
    h1: u64,
    d1: u64,
    e1: Editor,
    ev1: Option<u64>,
    path2: Seq<char>,
    h2: u64,
    d2: u64,
    e2: Editor,
    ev2: Option<u64>,
)
    requires
        load_transition(e0, path1, h1, d1, e1, ev1),
        load_transition(e1, path2, h2, d2, e2, ev2),
    ensures
        ev2 == Some(h1),
{
}

/// Law: with no clip loaded, the transport controls and seek are safe
/// no-ops: each takes the editor by shared reference, so the session cannot
/// change, and none issues a backend command.
pub proof fn lemma_transport_is_noop_without_media(e: Editor, position_ns: u64)
    requires
        e.wf(),
        !e.has_media(),
    ensures
        e.playback().state_command_spec(TargetState::Playing) is None,
        e.playback().state_command_spec(TargetState::Paused) is None,
        e.playback().state_command_spec(TargetState::Ready) is None,
        e.playback().seek_command_spec(position_ns) is None,
{
}

/// Law: invalid trim bounds are rejected at the UI boundary. Whenever
/// `start >= end`, the export click resolves to the invalid-time-range
/// rejection: no save dialog opens, no job is built, and nothing reaches the
/// external framework.
pub proof fn lemma_invalid_range_rejected_before_export(e: Editor)
    requires
        e.wf(),
        e.has_media(),
        !e.is_exporting(),
        e.start_ns() >= e.end_ns(),
    ensures
        e.export_click_decision() == ExportClickDecision::Reject(Notice::InvalidTimeRange),
{
}

/// Law: the save dialog only ever opens over a loaded clip, outside a
/// running export, with a positive trim span. Together with
/// [`Editor::export_target_chosen`], whose job carries exactly these bounds
/// in its graph description, the span the framework is asked to keep is
/// always `end - start > 0`.
pub proof fn lemma_dialog_only_with_valid_span(e: Editor)
    requires
        e.wf(),
        e.export_click_decision() == ExportClickDecision::ShowSaveDialog,
    ensures
        e.has_media(),
        !e.is_exporting(),
        e.start_ns() < e.end_ns(),
{
}

/// Law: the export click with no clip loaded resolves to the no-video
/// rejection, whatever else the session holds: no save dialog opens.
pub proof fn lemma_export_needs_media(e: Editor)
    requires
        e.wf(),
        !e.has_media(),
    ensures
        e.export_click_decision() == ExportClickDecision::Reject(Notice::NoVideoLoaded),
{
}

} // verus!
