use vstd::prelude::*;
use crate::gpu::GpuConfig;

verus! {

/// Where playback stands with respect to the audio buffered ahead of it.
#[derive(Debug, Clone, Copy, PartialEq, Eq, Structural)]
pub enum PreBufferState {
    /// Filling the buffer; not ready to play.
    Filling,
    /// Enough audio buffered to start.
    Ready,
    /// Playing while the buffer holds.
    Playing,
    /// Paused because the buffer ran low.
    Paused,
}

/// How the buffered audio compares with the pre-buffer target.
#[derive(Debug, Clone, Copy, PartialEq, Eq, Structural)]
pub struct BufferLevel {
    /// At least the target is buffered.
    pub reaches_target: bool,
    /// Less than half the target is buffered.
    pub below_half_target: bool,
}

/// The state after looking at the buffer: filling and ready follow whether
/// the target is reached; playing pauses below half the target; paused
/// becomes ready again once the target is reached.
pub open spec fn next_state(state: PreBufferState, level: BufferLevel) -> PreBufferState {
    match state {
        PreBufferState::Filling => if level.reaches_target { PreBufferState::Ready } else { PreBufferState::Filling },
        PreBufferState::Ready => if level.reaches_target { PreBufferState::Ready } else { PreBufferState::Filling },
        PreBufferState::Playing => if level.below_half_target { PreBufferState::Paused } else { PreBufferState::Playing },
        PreBufferState::Paused => if level.reaches_target { PreBufferState::Ready } else { PreBufferState::Paused },
    }
}

/// Decides when playback starts and pauses, from how much audio is
/// buffered ahead of it.
pub struct PreBufferManager {
    config: GpuConfig,
    state: PreBufferState,
}

impl PreBufferManager {
    /// The state playback is in.
    pub closed spec fn current(&self) -> PreBufferState {
        self.state
    }

    /// The configuration the manager was made with.
    pub closed spec fn settings(&self) -> GpuConfig {
        self.config
    }

    /// A manager that starts by filling the buffer.
    pub fn new(config: GpuConfig) -> (m: Self)
        ensures
            m.current() == PreBufferState::Filling,
            m.settings() == config,
    {
        PreBufferManager { config, state: PreBufferState::Filling }
    }

    /// Playback starts when filling and the target is reached.
    pub fn should_start_playback(&self, level: BufferLevel) -> (b: bool)
        ensures
            b == (level.reaches_target && self.current() == PreBufferState::Filling),
    {
        level.reaches_target && self.state == PreBufferState::Filling
    }

    /// Playback pauses when playing and less than half the target is left.
    pub fn should_pause_playback(&self, level: BufferLevel) -> (b: bool)
        ensures
            b == (level.below_half_target && self.current() == PreBufferState::Playing),
    {
        level.below_half_target && self.state == PreBufferState::Playing
    }

    /// Moves to the state the buffer level calls for (see `next_state`) and
    /// returns it.
    pub fn update_state(&mut self, level: BufferLevel) -> (s: PreBufferState)
        ensures
            s == next_state(old(self).current(), level),
            final(self).current() == s,
            final(self).settings() == old(self).settings(),
    {
        self.state = match self.state {
            PreBufferState::Filling => if level.reaches_target { PreBufferState::Ready } else { PreBufferState::Filling },
            PreBufferState::Ready => if level.reaches_target { PreBufferState::Ready } else { PreBufferState::Filling },
            PreBufferState::Playing => if level.below_half_target { PreBufferState::Paused } else { PreBufferState::Playing },
            PreBufferState::Paused => if level.reaches_target { PreBufferState::Ready } else { PreBufferState::Paused },
        };
        self.state
    }

    /// The state playback is in.
    pub fn state(&self) -> (s: PreBufferState)
        ensures
            s == self.current(),
    {
        self.state
    }

    /// Puts playback in the given state.
    pub fn set_state(&mut self, state: PreBufferState)
        ensures
            final(self).current() == state,
            final(self).settings() == old(self).settings(),
    {
        self.state = state;
    }

    /// The configuration the manager was made with.
    pub fn config(&self) -> (c: GpuConfig)
        ensures
            c == self.settings(),
    {
        self.config
    }
}

/// Looking at the buffer never starts playback by itself: only `Playing`
/// leads to `Playing`, and a paused stream resumes through `Ready`.
pub proof fn law_update_never_plays(state: PreBufferState, level: BufferLevel)
    ensures
        next_state(state, level) == PreBufferState::Playing ==> state == PreBufferState::Playing,
        state == PreBufferState::Paused ==> next_state(state, level) != PreBufferState::Playing,
        level.reaches_target && state != PreBufferState::Playing ==> next_state(state, level) == PreBufferState::Ready,
{
}

} // verus!
