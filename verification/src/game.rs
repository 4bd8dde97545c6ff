//! The fixed-timestep simulation loop, as a state machine.
//!
//! The clock never waits, draws or reads input itself. Whoever drives it
//! reports what happened as a `LoopEvent` and is told what to do next as a
//! `LoopAction`: run one physics step, render a frame, sleep, or stop.
//! Wall-clock time enters only as the microseconds measured between frames.

use vstd::prelude::*;

verus! {

/// Microseconds in a second: how often the frame rate is sampled.
pub const MICROS_PER_SECOND: u64 = 1_000_000;

/// The usual physics time step: a hundredth of a second.
pub const DEFAULT_FIXED_DT: i64 = 10_000;

/// The usual number of frames rendered per second.
pub const DEFAULT_TARGET_FPS: u32 = 60;

/// No accumulated time reaches this: a backlog below one step plus one
/// measurement of at most `u64::MAX` microseconds.
pub const BACKLOG_LIMIT: u128 = 0x2_0000_0000_0000_0000;

/// Why the loop ends.
#[derive(Debug, Clone, Copy, PartialEq, Eq, Structural)]
pub enum TerminationSignal {
    /// The user asked to leave.
    Quit,
    /// A frame could not be presented.
    PresentationFailed,
}

/// Why a clock could not be made.
#[derive(Debug, Clone, Copy, PartialEq, Eq, Structural)]
pub enum ClockError {
    /// The physics time step was zero or negative.
    NonPositiveTimestep,
    /// The target frame rate was zero.
    ZeroFrameRate,
}

/// What the clock is waiting to hear about.
#[derive(Debug, Clone, Copy, PartialEq, Eq, Structural)]
pub enum Phase {
    /// The start of the next frame.
    AwaitingFrame,
    /// The outcome of the physics step it asked for.
    Stepping,
    /// The outcome of the frame it asked to have rendered.
    Rendering,
    /// Nothing: the loop has ended.
    Stopped,
}

/// What happened outside the clock.
#[derive(Debug, Clone, Copy)]
pub enum LoopEvent {
    /// A frame begins, `elapsed` microseconds after the previous one began.
    FrameStarted { elapsed: u64 },
    /// The physics step that was asked for has run.
    StepFinished { outcome: Result<(), TerminationSignal> },
    /// The frame that was asked for has been drawn, `spent` microseconds after
    /// the frame began.
    FrameRendered { outcome: Result<(), TerminationSignal>, spent: u64 },
}

/// What the driver of the loop is to do next.
#[derive(Debug, Clone, Copy, PartialEq, Eq, Structural)]
pub enum LoopAction {
    /// Run one physics step of `fixed_dt` at `simulated_time`.
    Step { simulated_time: i64, fixed_dt: i64 },
    /// Render one frame, showing `fps` as the frame rate.
    Render { fps: u32 },
    /// Sleep for `micros`, then start the next frame.
    Sleep { micros: u64 },
    /// Leave the loop.
    Stop { signal: TerminationSignal },
}

/// The clock's state over the mathematical integers. Times are in
/// microseconds.
pub struct ClockModel {
    /// Simulated time consumed by each physics step.
    pub fixed_dt: int,
    /// Time that one frame is meant to take.
    pub frame_interval: int,
    /// Measured time not yet consumed by physics steps.
    pub accumulator: int,
    /// Simulated time consumed so far.
    pub simulated_time: int,
    /// Frames rendered since the frame rate was last sampled.
    pub frames: int,
    /// The frame rate as last sampled.
    pub fps: int,
    /// Measured time since the frame rate was last sampled.
    pub since_sample: int,
    pub phase: Phase,
}

impl ClockModel {
    /// The states a clock can be in. Outside a run of physics steps the
    /// accumulator holds less than one step.
    pub open spec fn wf(self) -> bool {
        &&& 0 < self.fixed_dt <= i64::MAX
        &&& 0 <= self.frame_interval <= MICROS_PER_SECOND
        &&& 0 <= self.accumulator < BACKLOG_LIMIT
        &&& 0 <= self.simulated_time <= i64::MAX
        &&& 0 <= self.frames <= u32::MAX
        &&& 0 <= self.fps <= u32::MAX
        &&& 0 <= self.since_sample < BACKLOG_LIMIT
        &&& self.phase is Stepping ==> self.accumulator >= self.fixed_dt
        &&& self.phase is Rendering ==> self.accumulator < self.fixed_dt
        &&& self.phase is AwaitingFrame ==> self.accumulator < self.fixed_dt && self.since_sample
            < MICROS_PER_SECOND
    }

    /// A clock that has measured and simulated nothing yet.
    pub open spec fn fresh(fixed_dt: int, target_fps: int) -> ClockModel {
        ClockModel {
            fixed_dt,
            frame_interval: MICROS_PER_SECOND as int / target_fps,
            accumulator: 0,
            simulated_time: 0,
            frames: 0,
            fps: 0,
            since_sample: 0,
            phase: Phase::AwaitingFrame,
        }
    }

    /// Whether `event` is what the clock is waiting to hear about.
    pub open spec fn accepts(self, event: LoopEvent) -> bool {
        match event {
            LoopEvent::FrameStarted { .. } => self.phase is AwaitingFrame,
            LoopEvent::StepFinished { .. } => self.phase is Stepping,
            LoopEvent::FrameRendered { .. } => self.phase is Rendering,
        }
    }

    /// The choice made whenever time has been added or consumed: another
    /// physics step while a whole step is owed, the frame otherwise.
    pub open spec fn dispatched(self) -> (ClockModel, LoopAction) {
        if self.accumulator >= self.fixed_dt {
            (
                ClockModel { phase: Phase::Stepping, ..self },
                LoopAction::Step {
                    simulated_time: self.simulated_time as i64,
                    fixed_dt: self.fixed_dt as i64,
                },
            )
        } else {
            (ClockModel { phase: Phase::Rendering, ..self }, LoopAction::Render {
                fps: self.fps as u32,
            })
        }
    }

    /// The clock once the loop has ended on `signal`.
    pub open spec fn halted(self, signal: TerminationSignal) -> (ClockModel, LoopAction) {
        (ClockModel { phase: Phase::Stopped, ..self }, LoopAction::Stop { signal })
    }

    /// A frame begins: the measured time is owed to the simulation.
    pub open spec fn frame_started(self, elapsed: int) -> (ClockModel, LoopAction) {
        ClockModel {
            accumulator: self.accumulator + elapsed,
            since_sample: self.since_sample + elapsed,
            ..self
        }.dispatched()
    }

    /// A physics step has run: one step of time moves from the accumulator to
    /// the simulated time, which stays at `i64::MAX` once it gets there.
    pub open spec fn step_finished(self, outcome: Result<(), TerminationSignal>) -> (
        ClockModel,
        LoopAction,
    ) {
        match outcome {
            Err(signal) => self.halted(signal),
            Ok(_) => ClockModel {
                accumulator: self.accumulator - self.fixed_dt,
                simulated_time: if self.simulated_time + self.fixed_dt > i64::MAX {
                    i64::MAX as int
                } else {
                    self.simulated_time + self.fixed_dt
                },
                ..self
            }.dispatched(),
        }
    }

    /// The frames counted once one more has been rendered, at most `u32::MAX`.
    pub open spec fn frames_counted(self) -> int {
        if self.frames < u32::MAX {
            self.frames + 1
        } else {
            self.frames
        }
    }

    /// How long to sleep when `spent` of the frame's time is used up.
    pub open spec fn sleep_time(self, spent: int) -> int {
        if spent < self.frame_interval {
            self.frame_interval - spent
        } else {
            0
        }
    }

    /// A frame has been rendered: it is counted, the frame rate is sampled if
    /// a second has gone by since the last sample, and the rest of the
    /// frame's time is slept.
    pub open spec fn frame_rendered(self, outcome: Result<(), TerminationSignal>, spent: int) -> (
        ClockModel,
        LoopAction,
    ) {
        match outcome {
            Err(signal) => self.halted(signal),
            Ok(_) => {
                let sleep = LoopAction::Sleep { micros: self.sleep_time(spent) as u64 };
                if self.since_sample >= MICROS_PER_SECOND {
                    (
                        ClockModel {
                            fps: self.frames_counted(),
                            frames: 0,
                            since_sample: 0,
                            phase: Phase::AwaitingFrame,
                            ..self
                        },
                        sleep,
                    )
                } else {
                    (
                        ClockModel {
                            frames: self.frames_counted(),
                            phase: Phase::AwaitingFrame,
                            ..self
                        },
                        sleep,
                    )
                }
            },
        }
    }

    /// The state and the action that `event` leads to; `None` when the clock
    /// was not waiting for it.
    pub open spec fn transition(self, event: LoopEvent) -> Option<(ClockModel, LoopAction)> {
        if !self.accepts(event) {
            None
        } else {
            Some(
                match event {
                    LoopEvent::FrameStarted { elapsed } => self.frame_started(elapsed as int),
                    LoopEvent::StepFinished { outcome } => self.step_finished(outcome),
                    LoopEvent::FrameRendered { outcome, spent } => self.frame_rendered(
                        outcome,
                        spent as int,
                    ),
                },
            )
        }
    }

    /// The state after `event`: unchanged when the clock was not waiting for
    /// it.
    pub open spec fn next(self, event: LoopEvent) -> ClockModel {
        match self.transition(event) {
            Some((state, _)) => state,
            None => self,
        }
    }

    /// The state after `steps` more physics steps have run without a
    /// termination signal.
    pub open spec fn after_steps(self, steps: nat) -> ClockModel
        decreases steps,
    {
        if steps == 0 {
            self
        } else {
            self.after_steps((steps - 1) as nat).next(LoopEvent::StepFinished { outcome: Ok(()) })
        }
    }
}

impl ClockModel {
    /// Every event leads from a valid state to a valid state with the same
    /// time step and frame interval.
    pub proof fn lemma_next_is_valid(self, event: LoopEvent)
        requires
            self.wf(),
        ensures
            self.next(event).wf(),
            self.next(event).fixed_dt == self.fixed_dt,
            self.next(event).frame_interval == self.frame_interval,
    {
    }

    /// The action says what the clock then waits for: a step is asked for at
    /// the simulated time reached, a frame with the frame rate last sampled.
    pub proof fn lemma_action_matches_phase(self, event: LoopEvent)
        requires
            self.wf(),
            self.accepts(event),
        ensures
            ({
                let (state, action) = self.transition(event)->Some_0;
                match action {
                    LoopAction::Step { simulated_time, fixed_dt } => {
                        &&& state.phase is Stepping
                        &&& simulated_time == state.simulated_time
                        &&& fixed_dt == state.fixed_dt
                    },
                    LoopAction::Render { fps } => state.phase is Rendering && fps == state.fps,
                    LoopAction::Sleep { micros } => state.phase is AwaitingFrame,
                    LoopAction::Stop { signal } => state.phase is Stopped,
                }
            }),
    {
    }

    /// Whenever a frame is to be rendered, less than one physics step is left
    /// in the accumulator, however long the measured frame times were.
    pub proof fn lemma_render_finds_accumulator_drained(self, event: LoopEvent)
        requires
            self.wf(),
            self.transition(event) is Some,
            self.transition(event)->Some_0.1 is Render,
        ensures
            0 <= self.next(event).accumulator < self.next(event).fixed_dt,
    {
    }

    /// A frame that starts `elapsed` after the previous one runs as many
    /// physics steps as the time owed holds, one after another and each at the
    /// simulated time the previous one left, before it is rendered: after
    /// `steps` of them the accumulator holds the time owed less `steps` time
    /// steps, another step is pending while a whole one is still owed, and the
    /// frame is pending with the remainder in the accumulator once none is.
    pub proof fn lemma_frame_catches_up(self, elapsed: u64, steps: nat)
        requires
            self.wf(),
            self.phase is AwaitingFrame,
            steps <= (self.accumulator + elapsed) / self.fixed_dt,
        ensures
            ({
                let owed = self.accumulator + elapsed;
                let state = self.next(LoopEvent::FrameStarted { elapsed }).after_steps(steps);
                &&& state.wf()
                &&& state.accumulator == owed - steps * self.fixed_dt
                &&& state.simulated_time == if self.simulated_time + steps * self.fixed_dt
                    > i64::MAX {
                    i64::MAX as int
                } else {
                    self.simulated_time + steps * self.fixed_dt
                }
                &&& steps < owed / self.fixed_dt ==> state.phase is Stepping
                &&& steps == owed / self.fixed_dt ==> state.phase is Rendering && state.accumulator
                    == owed % self.fixed_dt
                &&& state.fps == self.fps
                &&& state.frames == self.frames
                &&& state.fixed_dt == self.fixed_dt
            }),
        decreases steps,
    {
        let dt = self.fixed_dt;
        let owed = self.accumulator + elapsed;
        let whole = owed / dt;
        let begun = self.next(LoopEvent::FrameStarted { elapsed });
        assert(owed == whole * dt + owed % dt && 0 <= owed % dt < dt) by (nonlinear_arith)
            requires
                dt > 0,
                whole == owed / dt,
        ;
        assert(steps < whole ==> (steps + 1) * dt <= whole * dt) by (nonlinear_arith)
            requires
                dt > 0,
        ;
        assert(steps == whole ==> steps * dt == whole * dt);
        assert((steps + 1) * dt == steps * dt + dt) by (nonlinear_arith);
        assert(steps * dt >= 0) by (nonlinear_arith)
            requires
                dt > 0,
        ;
        if steps == 0 {
            assert(begun.after_steps(0) == begun);
            assert(0 * dt == 0);
        } else {
            self.lemma_frame_catches_up(elapsed, (steps - 1) as nat);
            let before = begun.after_steps((steps - 1) as nat);
            assert(begun.after_steps(steps) == before.next(
                LoopEvent::StepFinished { outcome: Ok(()) },
            ));
            assert(steps * dt == (steps - 1) * dt + dt) by (nonlinear_arith);
            assert((steps - 1) * dt >= 0) by (nonlinear_arith)
                requires
                    dt > 0,
                    steps >= 1,
            ;
            assert(before.phase is Stepping);
        }
    }

    /// A termination signal from a physics step ends the loop there and then:
    /// the clock says to stop with that signal, and asks for nothing after it,
    /// so the frame in progress is never rendered.
    pub proof fn lemma_signal_ends_the_loop(self, signal: TerminationSignal, later: LoopEvent)
        requires
            self.wf(),
            self.phase is Stepping,
        ensures
            ({
                let ended = self.transition(LoopEvent::StepFinished { outcome: Err(signal) });
                &&& ended is Some
                &&& ended->Some_0.1 == (LoopAction::Stop { signal })
                &&& ended->Some_0.0.phase is Stopped
                &&& ended->Some_0.0.transition(later) is None
            }),
    {
    }
}

/// The simulation clock: accumulated and simulated time, and the frame-rate
/// count.
#[derive(Debug)]
pub struct SimulationClock {
    fixed_dt: i64,
    frame_interval: u64,
    accumulator: u128,
    simulated_time: i64,
    frames: u32,
    fps: u32,
    since_sample: u128,
    phase: Phase,
}

impl View for SimulationClock {
    type V = ClockModel;

    closed spec fn view(&self) -> ClockModel {
        ClockModel {
            fixed_dt: self.fixed_dt as int,
            frame_interval: self.frame_interval as int,
            accumulator: self.accumulator as int,
            simulated_time: self.simulated_time as int,
            frames: self.frames as int,
            fps: self.fps as int,
            since_sample: self.since_sample as int,
            phase: self.phase,
        }
    }
}

impl SimulationClock {
    #[verifier::type_invariant]
    spec fn inv(self) -> bool {
        self@.wf()
    }

    /// A clock that steps the simulation by `fixed_dt` microseconds and paces
    /// frames for `target_fps` frames per second. The time step is judged
    /// before the frame rate.
    pub fn new(fixed_dt: i64, target_fps: u32) -> (made: Result<SimulationClock, ClockError>)
        ensures
            fixed_dt <= 0 ==> made == Err::<SimulationClock, ClockError>(
                ClockError::NonPositiveTimestep,
            ),
            fixed_dt > 0 && target_fps == 0 ==> made == Err::<SimulationClock, ClockError>(
                ClockError::ZeroFrameRate,
            ),
            fixed_dt > 0 && target_fps > 0 ==> made is Ok && made->Ok_0@ == ClockModel::fresh(
                fixed_dt as int,
                target_fps as int,
            ),
            made is Ok ==> made->Ok_0@.wf(),
    {
        if fixed_dt <= 0 {
            return Err(ClockError::NonPositiveTimestep);
        }
        if target_fps == 0 {
            return Err(ClockError::ZeroFrameRate);
        }
        Ok(
            SimulationClock {
                fixed_dt,
                frame_interval: MICROS_PER_SECOND / (target_fps as u64),
                accumulator: 0,
                simulated_time: 0,
                frames: 0,
                fps: 0,
                since_sample: 0,
                phase: Phase::AwaitingFrame,
            },
        )
    }

    /// Takes in what happened and says what to do next. An event that the
    /// clock was not waiting for changes nothing and gets no action.
    pub fn handle(&mut self, event: LoopEvent) -> (action: Option<LoopAction>)
        ensures
            final(self)@ == old(self)@.next(event),
            action == match old(self)@.transition(event) {
                Some((_, action)) => Some(action),
                None => None,
            },
            final(self)@.wf(),
    {
        proof {
            use_type_invariant(&*self);
        }
        match event {
            LoopEvent::FrameStarted { elapsed } => {
                if self.phase != Phase::AwaitingFrame {
                    return None;
                }
                let accumulator = self.accumulator + elapsed as u128;
                let since_sample = self.since_sample + elapsed as u128;
                let phase = if accumulator >= self.fixed_dt as u128 {
                    Phase::Stepping
                } else {
                    Phase::Rendering
                };
                *self = SimulationClock { accumulator, since_sample, phase, ..*self };
                Some(self.pending())
            },
            LoopEvent::StepFinished { outcome } => {
                if self.phase != Phase::Stepping {
                    return None;
                }
                match outcome {
                    Err(signal) => {
                        *self = SimulationClock { phase: Phase::Stopped, ..*self };
                        Some(LoopAction::Stop { signal })
                    },
                    Ok(_) => {
                        let accumulator = self.accumulator - self.fixed_dt as u128;
                        let simulated_time = if self.simulated_time > i64::MAX - self.fixed_dt {
                            i64::MAX
                        } else {
                            self.simulated_time + self.fixed_dt
                        };
                        let phase = if accumulator >= self.fixed_dt as u128 {
                            Phase::Stepping
                        } else {
                            Phase::Rendering
                        };
                        *self = SimulationClock { accumulator, simulated_time, phase, ..*self };
                        Some(self.pending())
                    },
                }
            },
            LoopEvent::FrameRendered { outcome, spent } => {
                if self.phase != Phase::Rendering {
                    return None;
                }
                match outcome {
                    Err(signal) => {
                        *self = SimulationClock { phase: Phase::Stopped, ..*self };
                        Some(LoopAction::Stop { signal })
                    },
                    Ok(_) => {
                        let counted = self.frames.saturating_add(1);
                        let micros = self.frame_interval.saturating_sub(spent);
                        if self.since_sample >= MICROS_PER_SECOND as u128 {
                            *self = SimulationClock {
                                fps: counted,
                                frames: 0,
                                since_sample: 0,
                                phase: Phase::AwaitingFrame,
                                ..*self
                            };
                        } else {
                            *self = SimulationClock {
                                frames: counted,
                                phase: Phase::AwaitingFrame,
                                ..*self
                            };
                        }
                        Some(LoopAction::Sleep { micros })
                    },
                }
            },
        }
    }

    /// The action that a clock in the middle of a frame is waiting on.
    fn pending(&self) -> (action: LoopAction)
        requires
            self@.phase is Stepping || self@.phase is Rendering,
        ensures
            action == self@.dispatched().1,
    {
        proof {
            use_type_invariant(self);
        }
        if self.phase == Phase::Stepping {
            LoopAction::Step { simulated_time: self.simulated_time, fixed_dt: self.fixed_dt }
        } else {
            LoopAction::Render { fps: self.fps }
        }
    }

    /// Simulated time consumed so far, in microseconds.
    pub fn simulated_time(&self) -> (time: i64)
        ensures
            time == self@.simulated_time,
    {
        self.simulated_time
    }

    /// Measured time not yet consumed by physics steps, in microseconds.
    pub fn accumulator(&self) -> (backlog: u128)
        ensures
            backlog == self@.accumulator,
            !(self@.phase is Stepping || self@.phase is Stopped) ==> backlog < self@.fixed_dt,
    {
        proof {
            use_type_invariant(self);
        }
        self.accumulator
    }

    /// The physics time step, in microseconds.
    pub fn fixed_dt(&self) -> (dt: i64)
        ensures
            dt == self@.fixed_dt,
            dt > 0,
    {
        proof {
            use_type_invariant(self);
        }
        self.fixed_dt
    }

    /// The frame rate as last sampled.
    pub fn fps(&self) -> (fps: u32)
        ensures
            fps == self@.fps,
    {
        self.fps
    }

    /// What the clock is waiting to hear about.
    pub fn phase(&self) -> (phase: Phase)
        ensures
            phase == self@.phase,
    {
        self.phase
    }
}

} // verus!
