use head_gesture::{Classifier, Command, Config, Debouncer, Pose, PoseSample, Signal};

const STEP: u64 = 10_000;

fn sample(instant: u64, yaw: i64, pitch: i64) -> PoseSample {
    PoseSample {
        pose: Pose { x: 0, y: 0, z: 0, yaw, pitch, roll: 0 },
        instant,
    }
}

/// Feeds `count` samples every `STEP`, starting one step after `*t`, moving
/// yaw and pitch by the given amounts per step. Returns the signals.
fn run(
    c: &mut Classifier,
    t: &mut u64,
    yaw: &mut i64,
    pitch: &mut i64,
    count: usize,
    yaw_step: i64,
    pitch_step: i64,
) -> Vec<Option<Signal>> {
    let mut out = Vec::new();
    for _ in 0..count {
        *t += STEP;
        *yaw += yaw_step;
        *pitch += pitch_step;
        out.push(c.feed(sample(*t, *yaw, *pitch)));
    }
    out
}

fn idle_lead_in(c: &mut Classifier, t: &mut u64, yaw: &mut i64, pitch: &mut i64) {
    let out = run(c, t, yaw, pitch, 51, 0, 0);
    assert!(out.iter().all(|s| s.is_none()));
}

#[test]
fn warm_up_emits_nothing() {
    let mut c = Classifier::new(Config::standard());
    let (mut t, mut yaw, mut pitch) = (0u64, 0i64, 0i64);
    // A fast turn from the very first sample: nothing while under 16 records.
    let out = run(&mut c, &mut t, &mut yaw, &mut pitch, 15, 2_000_000, 0);
    assert_eq!(c.len(), 15);
    assert!(out.iter().all(|s| s.is_none()));
}

#[test]
fn first_crossing_after_warm_up_signals() {
    let mut c = Classifier::new(Config::standard());
    let (mut t, mut yaw, mut pitch) = (0u64, 0i64, 0i64);
    let out = run(&mut c, &mut t, &mut yaw, &mut pitch, 15, 0, 0);
    assert!(out.iter().all(|s| s.is_none()));
    let next = run(&mut c, &mut t, &mut yaw, &mut pitch, 1, 2_000_000, 0);
    assert_eq!(c.len(), 16);
    assert_eq!(next[0], Some(Signal::LeftColumn));
}

#[test]
fn warm_up_after_reset() {
    let mut c = Classifier::new(Config::standard());
    let (mut t, mut yaw, mut pitch) = (0u64, 0i64, 0i64);
    idle_lead_in(&mut c, &mut t, &mut yaw, &mut pitch);
    c.reset();
    assert_eq!(c.len(), 0);
    let out = run(&mut c, &mut t, &mut yaw, &mut pitch, 15, 2_000_000, 0);
    assert!(out.iter().all(|s| s.is_none()));
}

#[test]
fn gap_clears_history() {
    let mut c = Classifier::new(Config::standard());
    let (mut t, mut yaw, mut pitch) = (0u64, 0i64, 0i64);
    idle_lead_in(&mut c, &mut t, &mut yaw, &mut pitch);
    assert_eq!(c.len(), 51);
    t += 1_500_000;
    let r = c.push(sample(t, 0, 0)).unwrap();
    assert_eq!(r.delta, 1_500_000);
    assert_eq!(c.len(), 1);
    let out = run(&mut c, &mut t, &mut yaw, &mut pitch, 1, 0, 0);
    assert_eq!(c.len(), 2);
    assert_eq!(out[0], None);
    assert_eq!(c.record(1).unwrap().delta, 1_500_000);
}

#[test]
fn gap_of_exactly_one_second_keeps_history() {
    let mut c = Classifier::new(Config::standard());
    let (mut t, mut yaw, mut pitch) = (0u64, 0i64, 0i64);
    run(&mut c, &mut t, &mut yaw, &mut pitch, 5, 0, 0);
    t += 1_000_000;
    c.push(sample(t, 0, 0));
    assert_eq!(c.len(), 6);
}

#[test]
fn duplicate_instant_is_skipped() {
    let mut c = Classifier::new(Config::standard());
    let (mut t, mut yaw, mut pitch) = (0u64, 0i64, 0i64);
    run(&mut c, &mut t, &mut yaw, &mut pitch, 5, 0, 0);
    assert_eq!(c.push(sample(t, 9_000_000, 0)), None);
    assert_eq!(c.len(), 5);
    assert_eq!(c.feed(sample(t, 9_000_000, 0)), None);
    assert_eq!(c.len(), 5);
}

#[test]
fn older_sample_starts_a_new_session() {
    let mut c = Classifier::new(Config::standard());
    let (mut t, mut yaw, mut pitch) = (0u64, 0i64, 0i64);
    run(&mut c, &mut t, &mut yaw, &mut pitch, 5, 100, 0);
    let r = c.push(sample(t - 5_000, 0, 0)).unwrap();
    assert_eq!(c.len(), 1);
    assert_eq!(r.delta, 0);
    assert_eq!(r.velocity.yaw, 0);
}

#[test]
fn capacity_drops_oldest() {
    let config = Config { capacity: 20, ..Config::standard() };
    let mut c = Classifier::new(config);
    let (mut t, mut yaw, mut pitch) = (0u64, 0i64, 0i64);
    run(&mut c, &mut t, &mut yaw, &mut pitch, 30, 0, 0);
    assert_eq!(c.len(), 20);
    assert_eq!(c.record(0).unwrap().instant, 300_000);
    assert_eq!(c.record(19).unwrap().instant, 110_000);
    assert_eq!(c.record(20), None);
}

#[test]
fn velocity_uses_third_newest_record() {
    let mut c = Classifier::new(Config::standard());
    // First record: no velocity.
    let r0 = c.push(sample(1_000, 0, 0)).unwrap();
    assert_eq!(r0.velocity.yaw, 0);
    assert_eq!(r0.delta, 0);
    // Fewer than three records held: against the newest one.
    let r1 = c.push(sample(11_000, 100_000, -50_000)).unwrap();
    assert_eq!(r1.velocity.yaw, 10_000_000);
    assert_eq!(r1.velocity.pitch, -5_000_000);
    assert_eq!(r1.delta, 10_000);
    c.push(sample(21_000, 150_000, 0));
    // Three held: against the third newest, the one at 1 ms.
    let r3 = c.push(sample(41_000, 400_000, 0)).unwrap();
    assert_eq!(r3.delta, 20_000);
    assert_eq!(r3.velocity.yaw, 10_000_000);
    // Now against the one at 11 ms: 300_000 over 40 ms.
    let r4 = c.push(sample(51_000, 500_000, 0)).unwrap();
    assert_eq!(r4.velocity.yaw, 400_000 * 1_000_000 / 40_000);
}

#[test]
fn velocity_rounds_toward_zero() {
    let mut c = Classifier::new(Config::standard());
    c.push(sample(0, 0, 0));
    let r = c.push(sample(3, -1, 1)).unwrap();
    assert_eq!(r.velocity.yaw, -333_333);
    assert_eq!(r.velocity.pitch, 333_333);
}

#[test]
fn acceleration_of_newest_record() {
    let mut c = Classifier::new(Config::standard());
    assert_eq!(c.acceleration(), None);
    c.push(sample(0, 0, 0));
    assert_eq!(c.acceleration(), None);
    c.push(sample(10_000, 10_000, 0));
    c.push(sample(20_000, 30_000, 0));
    // Velocities 1 deg/s then 2 deg/s, 10 ms apart: 100 deg/s^2.
    assert_eq!(c.record(0).unwrap().velocity.yaw, 2_000_000);
    let a = c.acceleration().unwrap();
    assert_eq!(a.yaw, 100_000_000);
    assert_eq!(a.pitch, 0);
}

#[test]
fn increasing_yaw_gives_one_left_column() {
    let mut c = Classifier::new(Config::standard());
    let mut d = Debouncer::new(200_000, 0);
    let (mut t, mut yaw, mut pitch) = (0u64, 0i64, 0i64);
    idle_lead_in(&mut c, &mut t, &mut yaw, &mut pitch);
    let mut issued = Vec::new();
    let mut lefts = 0;
    let mut rights = 0;
    for _ in 0..60 {
        t += STEP;
        yaw += 500_000;
        let s = c.feed(sample(t, yaw, pitch));
        if s == Some(Signal::RightColumn) {
            rights += 1;
        }
        if let Some(sig) = s {
            if sig == Signal::LeftColumn {
                lefts += 1;
            }
            if d.allows(t) {
                issued.push(sig.command().unwrap());
            }
        }
    }
    assert_eq!(lefts, 1);
    assert_eq!(rights, 0);
    assert_eq!(issued, vec![Command::FocusColumnLeft]);
}

#[test]
fn opposite_lead_in_suppresses_spike() {
    let mut c = Classifier::new(Config::standard());
    let (mut t, mut yaw, mut pitch) = (0u64, 0i64, 0i64);
    run(&mut c, &mut t, &mut yaw, &mut pitch, 20, 0, 0);
    let lead = run(&mut c, &mut t, &mut yaw, &mut pitch, 40, -500_000, 0);
    assert!(lead.iter().all(|s| *s != Some(Signal::LeftColumn)));
    let spike = run(&mut c, &mut t, &mut yaw, &mut pitch, 10, 500_000, 0);
    assert!(spike.iter().all(|s| s.is_none()));
    // The spike's own velocity is over the threshold by its end.
    assert!(c.record(0).unwrap().velocity.yaw >= 36_000_000);
}

#[test]
fn yaw_just_below_threshold_is_silent() {
    let mut c = Classifier::new(Config::standard());
    let (mut t, mut yaw, mut pitch) = (0u64, 0i64, 0i64);
    idle_lead_in(&mut c, &mut t, &mut yaw, &mut pitch);
    // 359_990 micro-degrees every 10 ms: 35.999 deg/s.
    let out = run(&mut c, &mut t, &mut yaw, &mut pitch, 10, 359_990, 0);
    assert_eq!(c.record(0).unwrap().velocity.yaw, 35_999_000);
    assert!(out.iter().all(|s| s.is_none()));
}

#[test]
fn yaw_just_above_threshold_signals() {
    let mut c = Classifier::new(Config::standard());
    let (mut t, mut yaw, mut pitch) = (0u64, 0i64, 0i64);
    idle_lead_in(&mut c, &mut t, &mut yaw, &mut pitch);
    let out = run(&mut c, &mut t, &mut yaw, &mut pitch, 3, 360_010, 0);
    assert_eq!(c.record(0).unwrap().velocity.yaw, 36_001_000);
    assert_eq!(out, vec![None, None, Some(Signal::LeftColumn)]);
}

#[test]
fn steady_turn_is_signalled_once_per_crossing() {
    let mut c = Classifier::new(Config::standard());
    let (mut t, mut yaw, mut pitch) = (0u64, 0i64, 0i64);
    idle_lead_in(&mut c, &mut t, &mut yaw, &mut pitch);
    let first = run(&mut c, &mut t, &mut yaw, &mut pitch, 30, 500_000, 0);
    assert_eq!(first.iter().filter(|s| s.is_some()).count(), 1);
    // Slowing below the threshold and speeding up again crosses it anew.
    let slow = run(&mut c, &mut t, &mut yaw, &mut pitch, 5, 100_000, 0);
    assert!(slow.iter().all(|s| s.is_none()));
    let again = run(&mut c, &mut t, &mut yaw, &mut pitch, 10, 500_000, 0);
    assert_eq!(again.iter().filter(|s| s.is_some()).count(), 1);
    assert!(again.contains(&Some(Signal::LeftColumn)));
}

#[test]
fn negative_yaw_gives_right_column() {
    let mut c = Classifier::new(Config::standard());
    let (mut t, mut yaw, mut pitch) = (0u64, 0i64, 0i64);
    idle_lead_in(&mut c, &mut t, &mut yaw, &mut pitch);
    let out = run(&mut c, &mut t, &mut yaw, &mut pitch, 3, -500_000, 0);
    assert_eq!(out, vec![None, None, Some(Signal::RightColumn)]);
}

#[test]
fn pitch_thresholds_are_asymmetric() {
    let mut c = Classifier::new(Config::standard());
    let (mut t, mut yaw, mut pitch) = (0u64, 0i64, 0i64);
    idle_lead_in(&mut c, &mut t, &mut yaw, &mut pitch);
    // 40 deg/s downward pitch: past -32, so up.
    let out = run(&mut c, &mut t, &mut yaw, &mut pitch, 3, 0, -400_000);
    assert_eq!(out[2], Some(Signal::Up));

    let mut c = Classifier::new(Config::standard());
    let (mut t, mut yaw, mut pitch) = (0u64, 0i64, 0i64);
    idle_lead_in(&mut c, &mut t, &mut yaw, &mut pitch);
    // 40 deg/s the other way: under +50, nothing.
    let out = run(&mut c, &mut t, &mut yaw, &mut pitch, 3, 0, 400_000);
    assert!(out.iter().all(|s| s.is_none()));
    // 60 deg/s: one down, when the rate crosses +50.
    let out = run(&mut c, &mut t, &mut yaw, &mut pitch, 10, 0, 600_000);
    assert_eq!(out[1], Some(Signal::Down));
    assert_eq!(out.iter().filter(|s| s.is_some()).count(), 1);
}

#[test]
fn yaw_wins_over_pitch() {
    let mut c = Classifier::new(Config::standard());
    let (mut t, mut yaw, mut pitch) = (0u64, 0i64, 0i64);
    idle_lead_in(&mut c, &mut t, &mut yaw, &mut pitch);
    let out = run(&mut c, &mut t, &mut yaw, &mut pitch, 20, 500_000, 700_000);
    let v = c.record(0).unwrap().velocity;
    assert!(v.yaw >= 36_000_000 && v.pitch > 50_000_000);
    assert_eq!(out.iter().filter(|s| **s == Some(Signal::LeftColumn)).count(), 1);
    assert!(out.iter().all(|s| *s == None || *s == Some(Signal::LeftColumn)));
}

#[test]
fn yaw_over_threshold_with_failed_lead_in_gives_no_pitch() {
    let mut c = Classifier::new(Config::standard());
    let (mut t, mut yaw, mut pitch) = (0u64, 0i64, 0i64);
    run(&mut c, &mut t, &mut yaw, &mut pitch, 20, 0, 0);
    run(&mut c, &mut t, &mut yaw, &mut pitch, 20, -500_000, 0);
    let out = run(&mut c, &mut t, &mut yaw, &mut pitch, 10, 500_000, 700_000);
    assert!(out.iter().all(|s| s.is_none()));
}

#[test]
fn config_validity() {
    assert!(Config::standard().is_valid());
    assert!(!Config { yaw_threshold: 0, ..Config::standard() }.is_valid());
    assert!(!Config { pitch_down_threshold: 1, ..Config::standard() }.is_valid());
    assert!(!Config { capacity: 0, ..Config::standard() }.is_valid());
    assert!(!Config { capacity: 15, ..Config::standard() }.is_valid());
    assert!(Config { capacity: 16, ..Config::standard() }.is_valid());
    assert_eq!(Classifier::new(Config::standard()).settings(), Config::standard());
}

#[test]
fn arrows_follow_sign() {
    let p = Pose { x: 0, y: 0, z: 0, yaw: -1, pitch: 1, roll: 0 };
    assert_eq!(p.yaw_arrow(), '\u{2190}');
    assert_eq!(p.pitch_arrow(), '\u{2191}');
    let q = Pose::zero();
    assert_eq!(q.yaw_arrow(), '\u{2192}');
    assert_eq!(q.pitch_arrow(), '\u{2193}');
}
