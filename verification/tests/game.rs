use fixed_step::character::{Character, Position};
use fixed_step::game::{
    ClockError, LoopAction, LoopEvent, Phase, SimulationClock, TerminationSignal,
    DEFAULT_FIXED_DT, DEFAULT_TARGET_FPS, MICROS_PER_SECOND,
};
use fixed_step::input::{update, InputEvent, Key};

fn clock() -> SimulationClock {
    SimulationClock::new(DEFAULT_FIXED_DT, DEFAULT_TARGET_FPS).unwrap()
}

fn step_ok() -> LoopEvent {
    LoopEvent::StepFinished { outcome: Ok(()) }
}

fn rendered(spent: u64) -> LoopEvent {
    LoopEvent::FrameRendered { outcome: Ok(()), spent }
}

/// Runs one whole frame and returns how many physics steps it took.
fn run_frame(clock: &mut SimulationClock, elapsed: u64) -> u64 {
    let mut steps = 0;
    let mut action = clock.handle(LoopEvent::FrameStarted { elapsed }).unwrap();
    while let LoopAction::Step { .. } = action {
        steps += 1;
        action = clock.handle(step_ok()).unwrap();
    }
    assert!(matches!(action, LoopAction::Render { .. }));
    assert!(clock.accumulator() < clock.fixed_dt() as u128);
    let sleep = clock.handle(rendered(0)).unwrap();
    assert!(matches!(sleep, LoopAction::Sleep { .. }));
    steps
}

#[test]
fn default_step_and_rate() {
    assert_eq!(DEFAULT_FIXED_DT, 10_000);
    assert_eq!(DEFAULT_TARGET_FPS, 60);
    assert_eq!(MICROS_PER_SECOND, 1_000_000);
}

#[test]
fn new_clock_has_measured_and_simulated_nothing() {
    let c = clock();
    assert_eq!(c.accumulator(), 0);
    assert_eq!(c.simulated_time(), 0);
    assert_eq!(c.fps(), 0);
    assert_eq!(c.fixed_dt(), 10_000);
    assert_eq!(c.phase(), Phase::AwaitingFrame);
}

#[test]
fn non_positive_time_step_is_rejected() {
    assert_eq!(SimulationClock::new(0, 60).err(), Some(ClockError::NonPositiveTimestep));
    assert_eq!(SimulationClock::new(-10_000, 60).err(), Some(ClockError::NonPositiveTimestep));
}

#[test]
fn zero_frame_rate_is_rejected() {
    assert_eq!(SimulationClock::new(10_000, 0).err(), Some(ClockError::ZeroFrameRate));
}

#[test]
fn time_step_is_judged_before_frame_rate() {
    assert_eq!(SimulationClock::new(0, 0).err(), Some(ClockError::NonPositiveTimestep));
}

#[test]
fn short_frame_renders_without_a_step() {
    let mut c = clock();
    let action = c.handle(LoopEvent::FrameStarted { elapsed: 9_999 });
    assert_eq!(action, Some(LoopAction::Render { fps: 0 }));
    assert_eq!(c.accumulator(), 9_999);
    assert_eq!(c.simulated_time(), 0);
    assert_eq!(c.phase(), Phase::Rendering);
}

#[test]
fn exactly_one_step_of_time_runs_one_step() {
    let mut c = clock();
    let action = c.handle(LoopEvent::FrameStarted { elapsed: 10_000 });
    assert_eq!(action, Some(LoopAction::Step { simulated_time: 0, fixed_dt: 10_000 }));
    assert_eq!(c.phase(), Phase::Stepping);
    assert_eq!(c.handle(step_ok()), Some(LoopAction::Render { fps: 0 }));
    assert_eq!(c.accumulator(), 0);
    assert_eq!(c.simulated_time(), 10_000);
}

#[test]
fn frame_runs_steps_in_order_then_renders() {
    let mut c = clock();
    let first = c.handle(LoopEvent::FrameStarted { elapsed: 25_000 });
    assert_eq!(first, Some(LoopAction::Step { simulated_time: 0, fixed_dt: 10_000 }));
    let second = c.handle(step_ok());
    assert_eq!(second, Some(LoopAction::Step { simulated_time: 10_000, fixed_dt: 10_000 }));
    let third = c.handle(step_ok());
    assert_eq!(third, Some(LoopAction::Render { fps: 0 }));
    assert_eq!(c.accumulator(), 5_000);
    assert_eq!(c.simulated_time(), 20_000);
}

#[test]
fn leftover_time_carries_into_the_next_frame() {
    let mut c = clock();
    assert_eq!(run_frame(&mut c, 6_000), 0);
    assert_eq!(run_frame(&mut c, 6_000), 1);
    assert_eq!(c.accumulator(), 2_000);
    assert_eq!(run_frame(&mut c, 6_000), 0);
    assert_eq!(run_frame(&mut c, 6_000), 1);
    assert_eq!(c.accumulator(), 4_000);
    assert_eq!(c.simulated_time(), 20_000);
}

#[test]
fn stall_is_caught_up_step_by_step() {
    let mut c = clock();
    assert_eq!(run_frame(&mut c, 1_234_567), 123);
    assert_eq!(c.accumulator(), 4_567);
    assert_eq!(c.simulated_time(), 1_230_000);
}

#[test]
fn accumulator_is_below_one_step_whenever_a_frame_is_rendered() {
    let mut c = clock();
    let frames = [0u64, 1, 9_999, 10_000, 10_001, 16_667, 33_333, 250_000, 3, 99_999, 5_000_000];
    let mut measured: u128 = 0;
    let mut steps: u128 = 0;
    for elapsed in frames {
        steps += run_frame(&mut c, elapsed) as u128;
        measured += elapsed as u128;
        assert!(c.accumulator() < 10_000);
        assert_eq!(steps * 10_000 + c.accumulator(), measured);
        assert_eq!(c.simulated_time() as u128, steps * 10_000);
    }
}

#[test]
fn longest_measurable_frame_is_taken_whole() {
    let mut c = SimulationClock::new(i64::MAX, 60).unwrap();
    assert_eq!(run_frame(&mut c, u64::MAX), 2);
    assert_eq!(c.accumulator(), 1);
    assert_eq!(c.simulated_time(), i64::MAX);
    assert_eq!(run_frame(&mut c, u64::MAX), 2);
    assert_eq!(c.accumulator(), 2);
    assert_eq!(c.simulated_time(), i64::MAX);
}

#[test]
fn quit_during_a_step_stops_without_rendering() {
    let mut c = clock();
    let action = c.handle(LoopEvent::FrameStarted { elapsed: 30_000 });
    assert_eq!(action, Some(LoopAction::Step { simulated_time: 0, fixed_dt: 10_000 }));
    let quit = c.handle(LoopEvent::StepFinished { outcome: Err(TerminationSignal::Quit) });
    assert_eq!(quit, Some(LoopAction::Stop { signal: TerminationSignal::Quit }));
    assert_eq!(c.phase(), Phase::Stopped);
    assert_eq!(c.simulated_time(), 0);
    assert_eq!(c.handle(step_ok()), None);
    assert_eq!(c.handle(rendered(0)), None);
    assert_eq!(c.handle(LoopEvent::FrameStarted { elapsed: 1 }), None);
    assert_eq!(c.phase(), Phase::Stopped);
}

#[test]
fn failed_presentation_stops_the_loop() {
    let mut c = clock();
    assert_eq!(c.handle(LoopEvent::FrameStarted { elapsed: 0 }), Some(LoopAction::Render { fps: 0 }));
    let failed = LoopEvent::FrameRendered {
        outcome: Err(TerminationSignal::PresentationFailed),
        spent: 100,
    };
    let stop = c.handle(failed);
    assert_eq!(stop, Some(LoopAction::Stop { signal: TerminationSignal::PresentationFailed }));
    assert_eq!(c.phase(), Phase::Stopped);
    assert_eq!(c.handle(LoopEvent::FrameStarted { elapsed: 0 }), None);
}

#[test]
fn event_out_of_turn_changes_nothing() {
    let mut c = clock();
    assert_eq!(c.handle(step_ok()), None);
    assert_eq!(c.handle(rendered(5)), None);
    assert_eq!(c.phase(), Phase::AwaitingFrame);
    assert_eq!(c.accumulator(), 0);
    c.handle(LoopEvent::FrameStarted { elapsed: 12_000 });
    assert_eq!(c.handle(LoopEvent::FrameStarted { elapsed: 12_000 }), None);
    assert_eq!(c.handle(rendered(5)), None);
    assert_eq!(c.accumulator(), 12_000);
    assert_eq!(c.phase(), Phase::Stepping);
}

#[test]
fn sleep_is_the_rest_of_the_frame_interval() {
    let mut c = clock();
    c.handle(LoopEvent::FrameStarted { elapsed: 0 });
    assert_eq!(c.handle(rendered(6_666)), Some(LoopAction::Sleep { micros: 10_000 }));
    c.handle(LoopEvent::FrameStarted { elapsed: 0 });
    assert_eq!(c.handle(rendered(0)), Some(LoopAction::Sleep { micros: 16_666 }));
    c.handle(LoopEvent::FrameStarted { elapsed: 0 });
    assert_eq!(c.handle(rendered(16_666)), Some(LoopAction::Sleep { micros: 0 }));
    c.handle(LoopEvent::FrameStarted { elapsed: 0 });
    assert_eq!(c.handle(rendered(u64::MAX)), Some(LoopAction::Sleep { micros: 0 }));
}

#[test]
fn frame_interval_follows_the_target_rate() {
    let mut c = SimulationClock::new(10_000, 1).unwrap();
    c.handle(LoopEvent::FrameStarted { elapsed: 0 });
    assert_eq!(c.handle(rendered(0)), Some(LoopAction::Sleep { micros: 1_000_000 }));
    let mut c = SimulationClock::new(10_000, u32::MAX).unwrap();
    c.handle(LoopEvent::FrameStarted { elapsed: 0 });
    assert_eq!(c.handle(rendered(0)), Some(LoopAction::Sleep { micros: 0 }));
}

#[test]
fn frame_rate_is_sampled_once_a_second() {
    let mut c = clock();
    // four frames a quarter of a second apart: the fourth starts a second
    // after the clock was made
    for _ in 0..3 {
        run_frame(&mut c, 250_000);
        assert_eq!(c.fps(), 0);
    }
    run_frame(&mut c, 250_000);
    assert_eq!(c.fps(), 4);
    // the count starts over
    run_frame(&mut c, 500_000);
    assert_eq!(c.fps(), 4);
    run_frame(&mut c, 499_999);
    assert_eq!(c.fps(), 4);
    run_frame(&mut c, 1);
    assert_eq!(c.fps(), 3);
}

#[test]
fn render_shows_the_rate_last_sampled() {
    let mut c = clock();
    run_frame(&mut c, 1_000_000);
    assert_eq!(c.fps(), 1);
    let mut action = c.handle(LoopEvent::FrameStarted { elapsed: 5_000 }).unwrap();
    while let LoopAction::Step { .. } = action {
        action = c.handle(step_ok()).unwrap();
    }
    assert_eq!(action, LoopAction::Render { fps: 1 });
}

#[test]
fn east_held_for_half_a_simulated_second() {
    let mut c = clock();
    let mut player = Character::builder(Position::new(0, 0)).build().unwrap();
    let held = [InputEvent::KeyDown(Key::Right)];
    let mut steps = 0;
    let mut renders = 0;
    let mut event = LoopEvent::FrameStarted { elapsed: 0 };
    while steps < 50 {
        match c.handle(event).unwrap() {
            LoopAction::Step { simulated_time, fixed_dt } => {
                assert_eq!(simulated_time, steps * 10_000);
                let outcome = update(&mut player, &held, fixed_dt);
                steps += 1;
                if steps >= 8 {
                    assert_eq!(player.get_velocity().get_x(), 1_500_000);
                } else {
                    assert_eq!(player.get_velocity().get_x(), 200_000 * steps);
                }
                event = LoopEvent::StepFinished { outcome };
            }
            LoopAction::Render { .. } => {
                renders += 1;
                event = rendered(1_000);
            }
            LoopAction::Sleep { micros } => {
                assert_eq!(micros, 15_666);
                event = LoopEvent::FrameStarted { elapsed: 16_667 };
            }
            LoopAction::Stop { .. } => unreachable!(),
        }
    }
    assert_eq!(c.handle(event), Some(LoopAction::Render { fps: 0 }));
    assert_eq!(c.simulated_time(), 500_000);
    assert_eq!(player.get_position().get_x(), 701_000_000);
    assert_eq!(player.get_position().get_y(), 0);
    assert_eq!(renders, 30);
}

#[test]
fn escape_during_a_step_ends_the_run_before_the_frame() {
    let mut c = clock();
    let mut player = Character::builder(Position::new(0, 0)).build().unwrap();
    let mut renders = 0;
    let mut steps = 0;
    let mut event = LoopEvent::FrameStarted { elapsed: 40_000 };
    let signal = loop {
        match c.handle(event).unwrap() {
            LoopAction::Step { fixed_dt, .. } => {
                steps += 1;
                let pending = if steps == 2 {
                    vec![InputEvent::KeyDown(Key::Escape)]
                } else {
                    vec![InputEvent::KeyDown(Key::Down)]
                };
                event = LoopEvent::StepFinished { outcome: update(&mut player, &pending, fixed_dt) };
            }
            LoopAction::Render { .. } => {
                renders += 1;
                event = rendered(0);
            }
            LoopAction::Sleep { .. } => {
                event = LoopEvent::FrameStarted { elapsed: 40_000 };
            }
            LoopAction::Stop { signal } => break signal,
        }
    };
    assert_eq!(signal, TerminationSignal::Quit);
    assert_eq!(steps, 2);
    assert_eq!(renders, 0);
    assert_eq!(player.get_velocity().get_y(), 200_000);
}
