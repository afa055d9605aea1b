//! The playback backend adapter.
//!
//! The GUI shell owns the real pipeline objects of the external media
//! framework; this adapter owns the decisions about them. It records the
//! handle of the single installed playback pipeline and phrases each
//! operation as a command for the shell to perform: a state change for
//! play/pause/stop, or a flushing keyframe seek. With no pipeline installed
//! every operation is a safe no-op that issues no command.

use vstd::prelude::*;

verus! {

/// The state a command drives the external pipeline into.
#[derive(Debug, Clone, Copy, PartialEq, Eq, Structural)]
pub enum TargetState {
    /// Decoding and rendering run.
    Playing,
    /// Playback halts on the current frame.
    Paused,
    /// Playback stops and the pipeline falls back to its ready state.
    Ready,
}

/// A state-change command for the shell to perform on the external pipeline.
#[derive(Debug, Clone, Copy, PartialEq, Eq, Structural)]
pub struct StateCommand {
    /// The installed pipeline the command addresses.
    pub pipeline: u64,
    /// The state to drive it into.
    pub target: TargetState,
}

/// A seek command for the shell to perform on the external pipeline.
#[derive(Debug, Clone, Copy, PartialEq, Eq, Structural)]
pub struct SeekCommand {
    /// The installed pipeline the command addresses.
    pub pipeline: u64,
    /// The absolute position to seek to, in nanoseconds.
    pub position_ns: u64,
    /// Pending data is flushed so the new position shows at once.
    pub flush: bool,
    /// The landing position snaps to the nearest keyframe.
    pub snap_to_keyframe: bool,
}

/// The adapter's record of the installed playback pipeline. Handles are
/// opaque identifiers minted by the shell for the pipeline objects it owns.
pub struct PlaybackBackend {
    installed: Option<u64>,
}

impl PlaybackBackend {
    /// The handle of the installed pipeline, if one is installed.
    pub closed spec fn handle(&self) -> Option<u64> {
        self.installed
    }

    /// The command that drives the installed pipeline into `target`: none
    /// when no pipeline is installed.
    pub open spec fn state_command_spec(&self, target: TargetState) -> Option<StateCommand> {
        match self.handle() {
            Option::None => Option::None,
            Option::Some(h) => Option::Some(StateCommand { pipeline: h, target }),
        }
    }

    /// The flushing, keyframe-snapping seek to `position_ns`: none when no
    /// pipeline is installed.
    pub open spec fn seek_command_spec(&self, position_ns: u64) -> Option<SeekCommand> {
        match self.handle() {
            Option::None => Option::None,
            Option::Some(h) => Option::Some(
                SeekCommand { pipeline: h, position_ns, flush: true, snap_to_keyframe: true },
            ),
        }
    }

    /// A fresh adapter with no pipeline installed.
    pub fn new() -> (b: PlaybackBackend)
        ensures
            b.handle() is None,
    {
        PlaybackBackend { installed: None }
    }

    /// Installs a freshly constructed pipeline and hands back the previously
    /// installed one, which the shell must tear down before attaching the new
    /// one: a handle is never silently dropped.
    pub fn install(&mut self, pipeline: u64) -> (evicted: Option<u64>)
        ensures
            final(self).handle() == Some(pipeline),
            evicted == old(self).handle(),
    {
        let evicted = self.installed;
        self.installed = Some(pipeline);
        evicted
    }

    /// The command to start playback.
    pub fn play(&self) -> (cmd: Option<StateCommand>)
        ensures
            cmd == self.state_command_spec(TargetState::Playing),
    {
        self.state_command(TargetState::Playing)
    }

    /// The command to pause playback on the current frame.
    pub fn pause(&self) -> (cmd: Option<StateCommand>)
        ensures
            cmd == self.state_command_spec(TargetState::Paused),
    {
        self.state_command(TargetState::Paused)
    }

    /// The command to stop playback.
    pub fn stop(&self) -> (cmd: Option<StateCommand>)
        ensures
            cmd == self.state_command_spec(TargetState::Ready),
    {
        self.state_command(TargetState::Ready)
    }

    /// The command to seek to an absolute position, in nanoseconds.
    pub fn seek(&self, position_ns: u64) -> (cmd: Option<SeekCommand>)
        ensures
            cmd == self.seek_command_spec(position_ns),
    {
        match self.installed {
            None => None,
            Some(h) => Some(
                SeekCommand { pipeline: h, position_ns, flush: true, snap_to_keyframe: true },
            ),
        }
    }

    fn state_command(&self, target: TargetState) -> (cmd: Option<StateCommand>)
        ensures
            cmd == self.state_command_spec(target),
    {
        match self.installed {
            None => None,
            Some(h) => Some(StateCommand { pipeline: h, target }),
        }
    }
}

} // verus!
