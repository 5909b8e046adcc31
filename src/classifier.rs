use std::collections::VecDeque;
use vstd::prelude::*;

use crate::packet::{decode_packet, packet_outcome, PacketError};
use crate::pose::{axes_rate, zero_axes, Axes, Pose, PoseSample, Rates};

verus! {

/// Fewest records that the history must hold before any gesture is decided.
pub const WARM_UP: usize = 16;

/// Largest gap between two samples, in microseconds, that still counts as
/// one tracking session.
pub const MAX_GAP: u64 = 1_000_000;

/// The classified outcome of one sample.
#[derive(Clone, Copy, Debug, PartialEq, Eq, Structural)]
pub enum Signal {
    LeftColumn,
    RightColumn,
    Up,
    Down,
    LeftMonitor,
    RightMonitor,
    Nop,
}

/// The two axes along which gestures are made.
#[derive(Clone, Copy, Debug, PartialEq, Eq, Structural)]
pub enum Axis {
    Yaw,
    Pitch,
}

/// Tunable parameters of the classifier. Rates are in micro-degrees per
/// second, durations in microseconds.
#[derive(Clone, Copy, Debug, PartialEq, Eq, Structural)]
pub struct Config {
    /// A yaw rate at or beyond this magnitude is a yaw gesture.
    pub yaw_threshold: i64,
    /// A pitch rate above this (positive) value is a pitch gesture.
    pub pitch_up_threshold: i64,
    /// A pitch rate below this (negative) value is a pitch gesture.
    pub pitch_down_threshold: i64,
    /// How far back the lead-in of a gesture is examined.
    pub idle_window: u64,
    /// Most records that the history keeps; at least `WARM_UP`, or no
    /// gesture could ever be decided.
    pub capacity: usize,
}

impl Config {
    pub open spec fn valid(&self) -> bool {
        &&& self.yaw_threshold > 0
        &&& self.pitch_up_threshold > 0
        &&& self.pitch_down_threshold < 0
        &&& self.capacity >= WARM_UP
    }

    /// The usual tuning: 36 deg/s of yaw, +50 / -32 deg/s of pitch, a
    /// half-second lead-in and room for 4000 records.
    pub fn standard() -> (r: Config)
        ensures
            r.valid(),
            r.yaw_threshold == 36_000_000,
            r.pitch_up_threshold == 50_000_000,
            r.pitch_down_threshold == -32_000_000,
            r.idle_window == 500_000,
            r.capacity == 4000,
    {
        Config {
            yaw_threshold: 36_000_000,
            pitch_up_threshold: 50_000_000,
            pitch_down_threshold: -32_000_000,
            idle_window: 500_000,
            capacity: 4000,
        }
    }

    pub fn is_valid(&self) -> (r: bool)
        ensures
            r == self.valid(),
    {
        self.yaw_threshold > 0 && self.pitch_up_threshold > 0 && self.pitch_down_threshold < 0
            && self.capacity >= WARM_UP
    }
}

/// One accepted sample with what was estimated from it.
#[derive(Clone, Copy, Debug, PartialEq, Eq, Structural)]
pub struct Record {
    pub pose: Pose,
    /// Rate of change against an earlier record.
    pub velocity: Rates,
    /// When the sample arrived, in microseconds.
    pub instant: u64,
    /// Time since the previous record, in microseconds; zero for the first
    /// record of a session.
    pub delta: u64,
}

pub open spec fn yaw_triggers(c: Config, v: Axes) -> bool {
    v.yaw >= c.yaw_threshold || v.yaw <= -c.yaw_threshold
}

pub open spec fn pitch_triggers(c: Config, v: Axes) -> bool {
    v.pitch > c.pitch_up_threshold || v.pitch < c.pitch_down_threshold
}

/// A velocity that would trigger no gesture on either axis.
pub open spec fn is_idle(c: Config, v: Axes) -> bool {
    !yaw_triggers(c, v) && !pitch_triggers(c, v)
}

pub open spec fn sign(v: int) -> int {
    if v > 0 {
        1
    } else if v < 0 {
        -1
    } else {
        0
    }
}

pub open spec fn component(v: Axes, a: Axis) -> int {
    match a {
        Axis::Yaw => v.yaw,
        Axis::Pitch => v.pitch,
    }
}

/// Record `i` arrived less than the idle window before the newest one.
pub open spec fn in_idle_window(c: Config, h: Seq<Record>, i: int) -> bool {
    h[0].instant - h[i].instant < c.idle_window
}

/// Every older record within the idle window was idle, or moved along axis
/// `a` in the direction of the newest record.
pub open spec fn consistent_lead_in(c: Config, h: Seq<Record>, a: Axis) -> bool {
    forall|i: int|
        1 <= i < h.len() && #[trigger] in_idle_window(c, h, i) ==> is_idle(c, h[i].velocity@)
            || sign(component(h[i].velocity@, a)) == sign(component(h[0].velocity@, a))
}

pub open spec fn axis_triggers(c: Config, v: Axes, a: Axis) -> bool {
    match a {
        Axis::Yaw => yaw_triggers(c, v),
        Axis::Pitch => pitch_triggers(c, v),
    }
}

/// The newest record crosses the threshold on axis `a`: the record before
/// it did not trigger on that axis.
pub open spec fn crosses(c: Config, h: Seq<Record>, a: Axis) -> bool {
    h.len() >= 2 && !axis_triggers(c, h[1].velocity@, a)
}

/// The gesture, if any, that the newest record of `h` starts. A gesture is
/// signalled once, on the record whose rate first crosses the threshold,
/// after a consistent lead-in. Yaw takes precedence: once the yaw rate is
/// over its threshold, pitch is not looked at.
pub open spec fn decision(c: Config, h: Seq<Record>) -> Option<Signal> {
    if h.len() < WARM_UP || h[0].delta > MAX_GAP {
        None
    } else {
        let v = h[0].velocity@;
        if yaw_triggers(c, v) {
            if crosses(c, h, Axis::Yaw) && consistent_lead_in(c, h, Axis::Yaw) {
                Some(
                    if v.yaw > 0 {
                        Signal::LeftColumn
                    } else {
                        Signal::RightColumn
                    },
                )
            } else {
                None
            }
        } else if pitch_triggers(c, v) {
            if crosses(c, h, Axis::Pitch) && consistent_lead_in(c, h, Axis::Pitch) {
                Some(
                    if v.pitch > 0 {
                        Signal::Down
                    } else {
                        Signal::Up
                    },
                )
            } else {
                None
            }
        } else {
            None
        }
    }
}

/// Newest first, strictly decreasing instants, each delta the gap to the
/// next older record, every velocity inside the rate bound, within capacity.
pub open spec fn history_wf(c: Config, h: Seq<Record>) -> bool {
    &&& h.len() <= c.capacity
    &&& forall|i: int, j: int|
        0 <= i < j < h.len() ==> #[trigger] h[j].instant < #[trigger] h[i].instant
    &&& forall|i: int|
        0 <= i < h.len() - 1 ==> (#[trigger] h[i]).delta == h[i].instant - h[i + 1].instant
    &&& forall|i: int| 0 <= i < h.len() ==> (#[trigger] h[i]).velocity.bounded()
}

/// The sample arrives at the very instant of the newest record: it carries
/// no new information and is skipped.
pub open spec fn is_duplicate(h: Seq<Record>, s: PoseSample) -> bool {
    h.len() > 0 && s.instant == h[0].instant
}

/// The sample cannot extend the history: there is none, or it is older
/// than the newest record.
pub open spec fn is_fresh_start(h: Seq<Record>, s: PoseSample) -> bool {
    h.len() == 0 || s.instant < h[0].instant
}

/// The sample begins a new tracking session.
pub open spec fn starts_session(h: Seq<Record>, s: PoseSample) -> bool {
    is_fresh_start(h, s) || s.instant - h[0].instant > MAX_GAP
}

pub open spec fn delta_for(h: Seq<Record>, s: PoseSample) -> int {
    if is_fresh_start(h, s) {
        0
    } else {
        s.instant - h[0].instant
    }
}

/// Velocity of a new sample: against the third newest record, or the newest
/// one while fewer than three are held.
pub open spec fn velocity_for(h: Seq<Record>, s: PoseSample) -> Axes {
    if is_fresh_start(h, s) {
        zero_axes()
    } else if h.len() >= 3 {
        axes_rate(s.pose@, h[2].pose@, s.instant - h[2].instant)
    } else {
        axes_rate(s.pose@, h[0].pose@, s.instant - h[0].instant)
    }
}

pub open spec fn record_for(h: Seq<Record>, s: PoseSample, r: Record) -> bool {
    &&& r.pose == s.pose
    &&& r.instant == s.instant
    &&& r.delta == delta_for(h, s)
    &&& r.velocity@ == velocity_for(h, s)
}

/// The history once `r`, made from `s`, is inserted at the front.
pub open spec fn history_after(c: Config, h: Seq<Record>, s: PoseSample, r: Record) -> Seq<
    Record,
> {
    if starts_session(h, s) {
        seq![r]
    } else if h.len() + 1 > c.capacity {
        (seq![r] + h).take(c.capacity as int)
    } else {
        seq![r] + h
    }
}

/// What taking sample `s` in does: history `before` becomes `after` and
/// `r` is signalled.
pub open spec fn fed(
    c: Config,
    before: Seq<Record>,
    s: PoseSample,
    after: Seq<Record>,
    r: Option<Signal>,
) -> bool {
    if is_duplicate(before, s) {
        after == before && r is None
    } else {
        &&& exists|rec: Record| record_for(before, s, rec) && after == history_after(c, before, s, rec)
        &&& r == decision(c, after)
    }
}

/// The pose whose model is `a`.
pub open spec fn pose_of(a: Axes) -> Pose {
    Pose {
        x: a.x as i64,
        y: a.y as i64,
        z: a.z as i64,
        yaw: a.yaw as i64,
        pitch: a.pitch as i64,
        roll: a.roll as i64,
    }
}

fn yaw_triggers_exec(c: &Config, v: &Rates) -> (r: bool)
    ensures
        r == yaw_triggers(*c, v@),
{
    v.yaw >= c.yaw_threshold as i128 || v.yaw <= -(c.yaw_threshold as i128)
}

fn pitch_triggers_exec(c: &Config, v: &Rates) -> (r: bool)
    ensures
        r == pitch_triggers(*c, v@),
{
    v.pitch > c.pitch_up_threshold as i128 || v.pitch < c.pitch_down_threshold as i128
}

fn sign_of(v: i128) -> (r: i8)
    ensures
        r == sign(v as int),
{
    if v > 0 {
        1
    } else if v < 0 {
        -1
    } else {
        0
    }
}

fn component_of(v: &Rates, a: Axis) -> (r: i128)
    ensures
        r == component(v@, a),
{
    match a {
        Axis::Yaw => v.yaw,
        Axis::Pitch => v.pitch,
    }
}

/// The gesture classifier: a bounded, newest-first history of records, and
/// the decision taken on each new one.
pub struct Classifier {
    config: Config,
    history: VecDeque<Record>,
}

impl View for Classifier {
    type V = Seq<Record>;

    closed spec fn view(&self) -> Seq<Record> {
        self.history@
    }
}

impl Classifier {
    pub closed spec fn config(&self) -> Config {
        self.config
    }

    pub open spec fn wf(&self) -> bool {
        &&& self.config().valid()
        &&& history_wf(self.config(), self@)
    }

    pub fn new(config: Config) -> (r: Classifier)
        requires
            config.valid(),
        ensures
            r.wf(),
            r.config() == config,
            r@ == Seq::<Record>::empty(),
    {
        Classifier { config, history: VecDeque::with_capacity(config.capacity) }
    }

    pub fn settings(&self) -> (r: Config)
        ensures
            r == self.config(),
    {
        self.config
    }

    /// Forgets every record.
    pub fn reset(&mut self)
        requires
            old(self).wf(),
        ensures
            final(self).wf(),
            final(self).config() == old(self).config(),
            final(self)@ == Seq::<Record>::empty(),
    {
        self.history.clear();
    }

    pub fn len(&self) -> (r: usize)
        ensures
            r == self@.len(),
    {
        self.history.len()
    }

    /// The record `i` places back from the newest one.
    pub fn record(&self, i: usize) -> (r: Option<Record>)
        ensures
            r == (if i < self@.len() {
                Some(self@[i as int])
            } else {
                None
            }),
    {
        if i < self.history.len() {
            Some(self.history[i])
        } else {
            None
        }
    }

    /// Inserts a sample at the front of the history. A sample at the instant
    /// of the newest record is skipped (`None`). One that starts a session
    /// (the history is empty, the sample is older than the newest record, or
    /// it comes more than `MAX_GAP` after it) leaves its own record alone in
    /// the history. Otherwise the oldest records beyond the capacity drop.
    pub fn push(&mut self, s: PoseSample) -> (r: Option<Record>)
        requires
            old(self).wf(),
        ensures
            final(self).wf(),
            final(self).config() == old(self).config(),
            r is None <==> is_duplicate(old(self)@, s),
            r is None ==> final(self)@ == old(self)@,
            r matches Some(rec) ==> record_for(old(self)@, s, rec) && final(self)@
                == history_after(old(self).config(), old(self)@, s, rec),
    {
        let n = self.history.len();
        if n == 0 || s.instant < self.history[0].instant {
            let rec = Record { pose: s.pose, velocity: Rates::zero(), instant: s.instant, delta: 0 };
            self.history.clear();
            self.history.push_front(rec);
            proof {
                assert(self.history@ =~= seq![rec]);
            }
            return Some(rec);
        }
        let prev = self.history[0];
        if s.instant == prev.instant {
            return None;
        }
        let delta = s.instant - prev.instant;
        let velocity = if n >= 3 {
            let older = self.history[2];
            s.pose.rate_since(&older.pose, s.instant - older.instant)
        } else {
            s.pose.rate_since(&prev.pose, delta)
        };
        let rec = Record { pose: s.pose, velocity, instant: s.instant, delta };
        let ghost h = self.history@;
        self.history.push_front(rec);
        if delta > MAX_GAP {
            self.history.truncate(1);
            proof {
                assert(self.history@ =~= seq![rec]);
            }
        } else {
            self.history.truncate(self.config.capacity);
            proof {
                let g = seq![rec] + h;
                assert(forall|i: int| 0 < i < g.len() ==> #[trigger] g[i] == h[i - 1]);
                if h.len() + 1 <= self.config.capacity {
                    assert(self.history@ =~= g);
                }
            }
        }
        Some(rec)
    }

    /// The records within the idle window behind the newest one are idle
    /// or move along `a` the way the newest does.
    fn lead_in_consistent(&self, a: Axis) -> (r: bool)
        requires
            self.wf(),
            self@.len() >= 1,
        ensures
            r == consistent_lead_in(self.config, self@, a),
    {
        let n = self.history.len();
        let cur = self.history[0];
        let cur_sign = sign_of(component_of(&cur.velocity, a));
        let mut i: usize = 1;
        while i < n
            invariant
                self.wf(),
                n == self@.len(),
                cur == self@[0],
                cur_sign == sign(component(cur.velocity@, a)),
                1 <= i <= n,
                forall|k: int|
                    1 <= k < i && #[trigger] in_idle_window(self.config, self@, k) ==> is_idle(
                        self.config,
                        self@[k].velocity@,
                    ) || sign(component(self@[k].velocity@, a)) == sign(
                        component(self@[0].velocity@, a),
                    ),
            decreases n - i,
        {
            let rec = self.history[i];
            if cur.instant - rec.instant >= self.config.idle_window {
                proof {
                    assert forall|k: int| i <= k < n implies !#[trigger] in_idle_window(
                        self.config,
                        self@,
                        k,
                    ) by {
                        if k > i {
                            assert(self@[k].instant < self@[i as int].instant);
                        }
                    }
                }
                return true;
            }
            let idle = !yaw_triggers_exec(&self.config, &rec.velocity) && !pitch_triggers_exec(
                &self.config,
                &rec.velocity,
            );
            if !idle && sign_of(component_of(&rec.velocity, a)) != cur_sign {
                proof {
                    assert(self@[0].instant > self@[i as int].instant);
                    assert(in_idle_window(self.config, self@, i as int));
                }
                return false;
            }
            i += 1;
        }
        true
    }

    /// The gesture that the newest record completes, if any.
    pub fn decide(&self) -> (r: Option<Signal>)
        requires
            self.wf(),
        ensures
            r == decision(self.config(), self@),
    {
        if self.history.len() < WARM_UP {
            return None;
        }
        let cur = self.history[0];
        if cur.delta > MAX_GAP {
            return None;
        }
        let v = cur.velocity;
        let prev = self.history[1].velocity;
        if yaw_triggers_exec(&self.config, &v) {
            if !yaw_triggers_exec(&self.config, &prev) && self.lead_in_consistent(Axis::Yaw) {
                Some(
                    if v.yaw > 0 {
                        Signal::LeftColumn
                    } else {
                        Signal::RightColumn
                    },
                )
            } else {
                None
            }
        } else if pitch_triggers_exec(&self.config, &v) {
            if !pitch_triggers_exec(&self.config, &prev) && self.lead_in_consistent(Axis::Pitch) {
                Some(
                    if v.pitch > 0 {
                        Signal::Down
                    } else {
                        Signal::Up
                    },
                )
            } else {
                None
            }
        } else {
            None
        }
    }

    /// Acceleration at the newest record: the change of velocity since the
    /// record before it, per second.
    pub fn acceleration(&self) -> (r: Option<Rates>)
        requires
            self.wf(),
        ensures
            r is Some <==> self@.len() >= 2,
            r matches Some(acc) ==> acc@ == axes_rate(
                self@[0].velocity@,
                self@[1].velocity@,
                self@[0].delta as int,
            ),
    {
        if self.history.len() < 2 {
            return None;
        }
        let cur = self.history[0];
        let prev = self.history[1];
        Some(cur.velocity.rate_since(&prev.velocity, cur.delta))
    }

    /// Takes one sample in: inserts it (see `push`) and decides on it.
    pub fn feed(&mut self, s: PoseSample) -> (r: Option<Signal>)
        requires
            old(self).wf(),
        ensures
            final(self).wf(),
            final(self).config() == old(self).config(),
            fed(old(self).config(), old(self)@, s, final(self)@, r),
            r is Some ==> final(self)@.len() >= WARM_UP,
    {
        match self.push(s) {
            None => None,
            Some(_) => self.decide(),
        }
    }

    /// Takes one sensor datagram in, received at `now`. A datagram that does
    /// not decode is refused and leaves the classifier as it was.
    pub fn feed_packet(&mut self, b: &[u8], now: u64) -> (r: Result<Option<Signal>, PacketError>)
        requires
            old(self).wf(),
        ensures
            final(self).wf(),
            final(self).config() == old(self).config(),
            match packet_outcome(b@) {
                Err(e) => r == Err::<Option<Signal>, PacketError>(e) && final(self)@ == old(self)@,
                Ok(a) => r matches Ok(sig) && fed(
                    old(self).config(),
                    old(self)@,
                    (PoseSample { pose: pose_of(a), instant: now }),
                    final(self)@,
                    sig,
                ),
            },
    {
        match decode_packet(b) {
            Err(e) => Err(e),
            Ok(pose) => {
                proof {
                    assert(pose == pose_of(pose@));
                }
                Ok(self.feed(PoseSample { pose, instant: now }))
            },
        }
    }
}

} // verus!
