//! The session lifecycle wrapper.
//!
//! The controller owns the frame slot and the cancellation flag. Starting a
//! session resets both and hands the decode loop to an independent worker
//! the caller provides; stopping sets the flag the loop checks at its next
//! check point, without blocking. The loop's failures are observed only
//! through the slot reaching its finished state: from the consumer's point
//! of view a session that never produced a frame looks like an empty stream.

use crate::decode::{decode_step, step_spec, DecodeAction, DecodeEvent, DecodeState};
use crate::frame::{Frame, PlaybackParams};
use crate::slot::{FrameBuffer, SlotView};
use vstd::prelude::*;

verus! {

/// The error the controller reports synchronously to its caller.
#[derive(Clone, Copy, PartialEq, Eq, Structural, Debug)]
pub enum PlayerError {
    /// `start_playback` was called while a session is active.
    AlreadyRunning,
}

/// Lifecycle of a playback session, mutated only by the controller.
#[derive(Clone, Copy, PartialEq, Eq, Structural, Debug)]
pub enum SessionState {
    NotStarted,
    Running,
    Stopped,
}

/// Lifecycle wrapper around one playback session: owns the frame slot,
/// starts and stops the decode loop, and hands the freshest frame out.
pub struct VideoPlayer {
    frame_buffer: FrameBuffer,
    state: SessionState,
    shutdown: bool,
    params: PlaybackParams,
}

impl VideoPlayer {
    /// Where the session stands.
    pub closed spec fn session(self) -> SessionState {
        self.state
    }

    /// Whether cancellation has been requested of the decode loop.
    pub closed spec fn shutdown_requested(self) -> bool {
        self.shutdown
    }

    /// The state of the owned frame slot.
    pub closed spec fn slot(self) -> SlotView {
        self.frame_buffer@
    }

    /// The parameters of the current session.
    pub closed spec fn session_params(self) -> PlaybackParams {
        self.params
    }

    pub fn new() -> (r: VideoPlayer)
        ensures
            r.session() is NotStarted,
            !r.shutdown_requested(),
            r.slot() == SlotView::init(),
    {
        VideoPlayer {
            frame_buffer: FrameBuffer::new(),
            state: SessionState::NotStarted,
            shutdown: false,
            params: PlaybackParams::default(),
        }
    }

    /// Begins a session. Fails when one is already active; otherwise resets
    /// the frame slot, clears the cancellation flag and records the
    /// parameters. The caller then launches the decode loop for `url` on an
    /// independent worker; this returns once that can happen, not once a
    /// first frame exists.
    pub fn start_playback(&mut self, url: &str, params: PlaybackParams) -> (r: Result<
        (),
        PlayerError,
    >)
        ensures
            old(self).session() is Running ==> {
                &&& r == Err::<(), PlayerError>(PlayerError::AlreadyRunning)
                &&& *final(self) == *old(self)
            },
            !(old(self).session() is Running) ==> {
                &&& r == Ok::<(), PlayerError>(())
                &&& final(self).session() is Running
                &&& !final(self).shutdown_requested()
                &&& final(self).slot() == SlotView::init()
                &&& final(self).session_params() == params
            },
    {
        let _ = url;
        match self.state {
            SessionState::Running => Err(PlayerError::AlreadyRunning),
            _ => {
                self.frame_buffer = FrameBuffer::new();
                self.shutdown = false;
                self.params = params;
                self.state = SessionState::Running;
                Ok(())
            },
        }
    }

    /// Requests cancellation: sets the flag the decode loop checks at its
    /// next check point and marks the session stopped, without waiting for
    /// the loop to notice. A session that is not running is left untouched.
    pub fn stop_playback(&mut self)
        ensures
            old(self).session() is Running ==> {
                &&& final(self).session() is Stopped
                &&& final(self).shutdown_requested()
                &&& final(self).slot() == old(self).slot()
                &&& final(self).session_params() == old(self).session_params()
            },
            !(old(self).session() is Running) ==> *final(self) == *old(self),
    {
        match self.state {
            SessionState::Running => {
                self.shutdown = true;
                self.state = SessionState::Stopped;
            },
            _ => {},
        }
    }

    /// Hands out the freshest frame, marking it observed: delegates to the
    /// slot's consuming read.
    pub fn get_latest_frame(&mut self) -> (r: Option<Frame>)
        ensures
            final(self).slot() == old(self).slot().observe_t(),
            final(self).session() == old(self).session(),
            final(self).shutdown_requested() == old(self).shutdown_requested(),
            final(self).session_params() == old(self).session_params(),
            match r {
                Some(f) => old(self).slot().current == Some(f@),
                None => old(self).slot().current is None,
            },
    {
        self.frame_buffer.consume()
    }

    /// Whether the owned slot has reached its terminal state — the only way
    /// a consumer observes the end of a session, clean or failed.
    pub fn playback_finished(&self) -> (r: bool)
        ensures
            r == self.slot().finished,
    {
        self.frame_buffer.is_finished()
    }

    /// How many frames the owned slot has accepted this session.
    pub fn frames_pushed(&self) -> (r: u64)
        ensures
            r == self.slot().version,
    {
        self.frame_buffer.push_count()
    }

    /// Runs one decode-loop decision against the slot this controller owns;
    /// the worker drives the loop through this. See
    /// [`crate::decode::decode_step`].
    pub fn step_decode(&mut self, st: &mut DecodeState, ev: DecodeEvent) -> (act: DecodeAction)
        requires
            old(st).accepts(ev),
            old(st).units_read < u64::MAX,
            !old(self).slot().finished,
            old(self).slot().version < u64::MAX,
        ensures
            step_spec(*old(st), old(self).slot(), ev, *final(st), final(self).slot(), act),
            final(self).session() == old(self).session(),
            final(self).shutdown_requested() == old(self).shutdown_requested(),
            final(self).session_params() == old(self).session_params(),
    {
        decode_step(st, &mut self.frame_buffer, ev)
    }

    /// A fatal startup failure (source open or decoder initialization):
    /// finishes the slot so that no waiting consumer hangs forever. The
    /// session state itself is untouched — failures are observed only
    /// through the slot.
    pub fn abort_startup(&mut self)
        ensures
            final(self).slot() == old(self).slot().finish_t(),
            final(self).session() == old(self).session(),
            final(self).shutdown_requested() == old(self).shutdown_requested(),
            final(self).session_params() == old(self).session_params(),
    {
        self.frame_buffer.finish();
    }
}

} // verus!
