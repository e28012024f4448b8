//! Event dispatch and the frame-pacing state machine.
//!
//! The surrounding event pump hands every platform event to the library as a
//! plain [`PlatformEvent`].  [`dispatch`] classifies it into the small closed
//! set of [`Command`]s the core reacts to, and [`FrameScheduler::handle_command`]
//! runs one step of the state machine: it decides whether to render, wait or
//! exit, advances the animation parameter, and recomputes the next wake
//! deadline.  Time is carried as plain nanoseconds; sampling the clock is the
//! caller's, unverified, side.

use vstd::prelude::*;

use crate::animation::AnimationState;
use crate::animation::T_STEP_MAX;
use crate::animation::wrap_step;
use crate::fixed::iabs;

verus! {

/// A platform event, reduced to the fields this core reads.
#[derive(Clone, Copy, PartialEq, Eq, Structural, Debug)]
pub enum PlatformEvent {
    /// The window was asked to close.
    CloseRequested,
    /// The window gained (`true`) or lost (`false`) focus.
    FocusChanged(bool),
    /// The scheduled wake time fired.
    ResumeTimeReached,
    /// The event loop just started.
    Init,
    /// Any other event kind.
    Other,
}

/// What the core does with one event.
#[derive(Clone, Copy, PartialEq, Eq, Structural, Debug)]
pub enum Command {
    /// Stop the loop.
    Close,
    /// Bump the animation parameter; no render.
    FocusGained,
    /// Run one render tick.
    RenderTick,
    /// Nothing to do.
    Ignore,
}

/// The command an event classifies to: close and startup/timer events drive
/// the machine, gained focus bumps the animation, all else is ignored.
pub open spec fn dispatch_spec(e: PlatformEvent) -> Command {
    match e {
        PlatformEvent::CloseRequested => Command::Close,
        PlatformEvent::FocusChanged(gained) => if gained {
            Command::FocusGained
        } else {
            Command::Ignore
        },
        PlatformEvent::ResumeTimeReached => Command::RenderTick,
        PlatformEvent::Init => Command::RenderTick,
        PlatformEvent::Other => Command::Ignore,
    }
}

/// Classify a platform event into the closed set of commands.
pub fn dispatch(e: PlatformEvent) -> (c: Command)
    ensures
        c == dispatch_spec(e),
{
    match e {
        PlatformEvent::CloseRequested => Command::Close,
        PlatformEvent::FocusChanged(gained) => if gained {
            Command::FocusGained
        } else {
            Command::Ignore
        },
        PlatformEvent::ResumeTimeReached => Command::RenderTick,
        PlatformEvent::Init => Command::RenderTick,
        PlatformEvent::Other => Command::Ignore,
    }
}

/// The control-flow state of the loop: created `Running`, moved once and
/// irreversibly to `Terminating` by a close command.
#[derive(Clone, Copy, PartialEq, Eq, Structural, Debug)]
pub enum SchedulerState {
    Running,
    Terminating,
}

/// What the owning loop should do after one event was handled.
#[derive(Clone, Copy, PartialEq, Eq, Structural, Debug)]
pub enum Action {
    /// Render one frame, then block until the new wake deadline.
    Render,
    /// Block until the new wake deadline.
    Wait,
    /// Leave the loop; no further wake is scheduled.
    Exit,
}

/// The fixed per-frame interval and the current wake deadline, in
/// nanoseconds of the caller's monotonic clock.
#[derive(Clone, Copy, PartialEq, Eq, Structural, Debug)]
pub struct FrameTiming {
    /// Nanoseconds between scheduled wakes; always positive.
    pub interval_nanos: u64,
    /// The deadline of the next scheduled wake.
    pub next_wake_nanos: u64,
}

impl FrameTiming {
    /// The interval is positive, so every recomputed deadline lies in the
    /// strict future of the instant it was computed from.
    pub open spec fn wf(self) -> bool {
        self.interval_nanos >= 1
    }
}

/// The state-owning loop driver: control-flow state, wake deadline, and the
/// animation parameter with its per-tick step and focus bump.
#[derive(Clone, Copy, PartialEq, Eq, Structural, Debug)]
pub struct FrameScheduler {
    /// Running or, once and forever after a close command, terminating.
    pub state: SchedulerState,
    /// The wake interval and current deadline.
    pub timing: FrameTiming,
    /// The animation parameter evolved by ticks and focus events.
    pub anim: AnimationState,
    /// Added to the parameter on every render tick (fixed-point).
    pub step: i64,
    /// Added to the parameter when focus is gained (fixed-point).
    pub bump: i64,
}

impl FrameScheduler {
    /// All owned state is well-formed and the configured increments are small
    /// enough that stepping arithmetic cannot overflow.
    pub open spec fn wf(self) -> bool {
        &&& self.timing.wf()
        &&& self.anim.wf()
        &&& 0 <= self.step <= T_STEP_MAX
        &&& iabs(self.bump as int) <= T_STEP_MAX
    }

    /// A scheduler that is `Running`, with its first wake already set.
    pub fn new(interval_nanos: u64, first_wake_nanos: u64, anim: AnimationState, step: i64, bump: i64) -> (s: Self)
        requires
            interval_nanos >= 1,
            anim.wf(),
            0 <= step <= T_STEP_MAX,
            iabs(bump as int) <= T_STEP_MAX,
        ensures
            s.state == SchedulerState::Running,
            s.timing == (FrameTiming { interval_nanos, next_wake_nanos: first_wake_nanos }),
            s.anim == anim,
            s.step == step,
            s.bump == bump,
            s.wf(),
    {
        FrameScheduler {
            state: SchedulerState::Running,
            timing: FrameTiming { interval_nanos, next_wake_nanos: first_wake_nanos },
            anim,
            step,
            bump,
        }
    }

    /// Whether the owning loop should stop instead of handling more events.
    pub fn is_terminating(&self) -> (r: bool)
        ensures
            r == (self.state == SchedulerState::Terminating),
    {
        match self.state {
            SchedulerState::Terminating => true,
            SchedulerState::Running => false,
        }
    }

    /// Handle one classified event at time `now_nanos`.
    ///
    /// A close command moves the machine to `Terminating`, once and
    /// irreversibly, and nothing is scheduled or mutated after that.  Every
    /// other command, tick or not, recomputes the wake deadline to
    /// `now + interval`, which is strictly after `now`.  A render tick
    /// advances the animation parameter under its wrap rule; gained focus
    /// bumps it without wrapping.
    pub fn handle_command(&mut self, cmd: Command, now_nanos: u64) -> (a: Action)
        requires
            old(self).wf(),
            now_nanos + old(self).timing.interval_nanos <= u64::MAX,
            iabs(old(self).anim.t + old(self).bump) <= T_STEP_MAX,
            iabs(old(self).anim.t + old(self).step) <= T_STEP_MAX,
        ensures
            final(self).wf(),
            final(self).timing.interval_nanos == old(self).timing.interval_nanos,
            final(self).anim.lower == old(self).anim.lower,
            final(self).anim.upper == old(self).anim.upper,
            final(self).step == old(self).step,
            final(self).bump == old(self).bump,
            // Terminating is terminal: nothing changes and no wake follows.
            old(self).state == SchedulerState::Terminating ==> *final(self) == *old(self) && a == Action::Exit,
            // A close command terminates, mutating nothing else.
            old(self).state == SchedulerState::Running && cmd == Command::Close ==> {
                &&& final(self).state == SchedulerState::Terminating
                &&& final(self).anim == old(self).anim
                &&& final(self).timing == old(self).timing
                &&& a == Action::Exit
            },
            // Every non-terminating command reschedules strictly past `now`.
            old(self).state == SchedulerState::Running && cmd != Command::Close ==> {
                &&& final(self).state == SchedulerState::Running
                &&& final(self).timing.next_wake_nanos == now_nanos + old(self).timing.interval_nanos
                &&& final(self).timing.next_wake_nanos > now_nanos
            },
            // A render tick advances the animation under the wrap rule.
            old(self).state == SchedulerState::Running && cmd == Command::RenderTick ==> {
                &&& final(self).anim.t == wrap_step(
                    old(self).anim.t as int,
                    old(self).step as int,
                    old(self).anim.lower as int,
                    old(self).anim.upper as int,
                )
                &&& a == Action::Render
            },
            // Gained focus bumps the animation without wrapping.
            old(self).state == SchedulerState::Running && cmd == Command::FocusGained ==> {
                &&& final(self).anim.t == old(self).anim.t + old(self).bump
                &&& a == Action::Wait
            },
            // Ignored events only reschedule.
            old(self).state == SchedulerState::Running && cmd == Command::Ignore ==> {
                &&& final(self).anim == old(self).anim
                &&& a == Action::Wait
            },
    {
        match self.state {
            SchedulerState::Terminating => Action::Exit,
            SchedulerState::Running => {
                match cmd {
                    Command::Close => {
                        self.state = SchedulerState::Terminating;
                        Action::Exit
                    },
                    Command::RenderTick => {
                        self.timing.next_wake_nanos = now_nanos + self.timing.interval_nanos;
                        let step = self.step;
                        self.anim.advance(step);
                        Action::Render
                    },
                    Command::FocusGained => {
                        self.timing.next_wake_nanos = now_nanos + self.timing.interval_nanos;
                        let bump = self.bump;
                        self.anim.bump(bump);
                        Action::Wait
                    },
                    Command::Ignore => {
                        self.timing.next_wake_nanos = now_nanos + self.timing.interval_nanos;
                        Action::Wait
                    },
                }
            },
        }
    }

    /// Handle one raw platform event: classify it, then run the machine.
    pub fn handle_event(&mut self, e: PlatformEvent, now_nanos: u64) -> (a: Action)
        requires
            old(self).wf(),
            now_nanos + old(self).timing.interval_nanos <= u64::MAX,
            iabs(old(self).anim.t + old(self).bump) <= T_STEP_MAX,
            iabs(old(self).anim.t + old(self).step) <= T_STEP_MAX,
        ensures
            final(self).wf(),
            old(self).state == SchedulerState::Terminating ==> *final(self) == *old(self) && a == Action::Exit,
            old(self).state == SchedulerState::Running && dispatch_spec(e) == Command::Close ==> {
                &&& final(self).state == SchedulerState::Terminating
                &&& a == Action::Exit
            },
            old(self).state == SchedulerState::Running && dispatch_spec(e) != Command::Close ==> {
                &&& final(self).state == SchedulerState::Running
                &&& final(self).timing.next_wake_nanos == now_nanos + old(self).timing.interval_nanos
                &&& final(self).timing.next_wake_nanos > now_nanos
                &&& (a == Action::Render <==> dispatch_spec(e) == Command::RenderTick)
            },
    {
        let cmd = dispatch(e);
        self.handle_command(cmd, now_nanos)
    }
}

} // verus!
