use stabilizer::algorithm::{control_cycle, Coords, MotorForces, Orientation, StabilizerConfig};
use stabilizer::control_loop::{LoopAction, LoopEvent, StabilizationLoop};

fn sample(x: i64) -> LoopEvent {
    LoopEvent::Sample {
        estimate: Orientation { x, y: 0, z: 0 },
        rate: Coords { x: 0, y: 0, z: 0 },
    }
}

fn run(events: &[LoopEvent]) -> Vec<MotorForces> {
    let mut l = StabilizationLoop::new(StabilizerConfig::standby());
    let mut out = Vec::new();
    for e in events {
        match l.handle(*e) {
            LoopAction::Publish(f) => out.push(f),
            LoopAction::Wait => {}
            LoopAction::Stop => break,
        }
    }
    out
}

#[test]
fn new_loop_is_running() {
    let l = StabilizationLoop::new(StabilizerConfig::standby());
    assert!(l.running);
    assert_eq!(l.config, StabilizerConfig::standby());
}

#[test]
fn samples_publish_in_order() {
    let c = StabilizerConfig::standby();
    let events = [sample(10), sample(20), sample(30)];
    let out = run(&events);
    assert_eq!(out.len(), 3);
    for (i, x) in [10i64, 20, 30].iter().enumerate() {
        let expected = control_cycle(&c, &Orientation { x: *x, y: 0, z: 0 }, &Coords { x: 0, y: 0, z: 0 });
        assert_eq!(out[i], expected);
    }
    assert_ne!(out[0], out[1]);
    assert_ne!(out[1], out[2]);
}

#[test]
fn two_runs_are_identical() {
    let events = [sample(5), LoopEvent::Rejected, sample(-7), sample(123), sample(0)];
    assert_eq!(run(&events), run(&events));
}

#[test]
fn rejected_sample_publishes_nothing() {
    let mut l = StabilizationLoop::new(StabilizerConfig::standby());
    let before = l;
    assert_eq!(l.handle(LoopEvent::Rejected), LoopAction::Wait);
    assert_eq!(l, before);
}

#[test]
fn closed_channel_stops_for_good() {
    let mut l = StabilizationLoop::new(StabilizerConfig::standby());
    assert_eq!(l.handle(LoopEvent::Closed), LoopAction::Stop);
    assert!(!l.running);
    assert_eq!(l.handle(sample(1)), LoopAction::Stop);
    assert_eq!(run(&[sample(1), LoopEvent::Closed, sample(2)]).len(), 1);
}

#[test]
fn level_sample_gives_base_thrust() {
    let mut l = StabilizationLoop::new(StabilizerConfig::standby());
    for _ in 0..3 {
        assert_eq!(
            l.handle(sample(0)),
            LoopAction::Publish(MotorForces { m1: 70_000_000, m2: 70_000_000, m3: 70_000_000, m4: 70_000_000 })
        );
    }
}
