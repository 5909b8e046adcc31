use vstd::prelude::*;

use crate::classifier::{
    consistent_lead_in, decision, history_after, history_wf, in_idle_window, is_idle,
    record_for, sign, starts_session, yaw_triggers, Axis, Config, Record, Signal, MAX_GAP,
    WARM_UP,
};
use crate::packet::{is_nan_bits, packet_outcome, word, PacketError, PACKET_LEN};
use crate::pose::{Axes, PoseSample};

verus! {

/// While the history holds fewer than `WARM_UP` records, no gesture is
/// decided.
pub proof fn lemma_warm_up_is_silent(c: Config, h: Seq<Record>)
    requires
        h.len() < WARM_UP,
    ensures
        decision(c, h) is None,
{
}

/// A sample that comes more than `MAX_GAP` after the newest record clears
/// the history: its own record is all that is left, and warm-up starts
/// again from one record.
pub proof fn lemma_gap_restarts_history(c: Config, h: Seq<Record>, s: PoseSample, r: Record)
    requires
        c.valid(),
        history_wf(c, h),
        h.len() > 0,
        s.instant > h[0].instant + MAX_GAP,
        record_for(h, s, r),
    ensures
        history_after(c, h, s, r) == seq![r],
        history_after(c, h, s, r).len() == 1,
        decision(c, history_after(c, h, s, r)) is None,
{
    assert(starts_session(h, s));
}

/// After a restart, the next sample that follows within `MAX_GAP` makes a
/// history of two records: warm-up counts again from the restarting one.
pub proof fn lemma_warm_up_restarts_from_one(c: Config, r: Record, s: PoseSample, r2: Record)
    requires
        c.valid(),
        r.instant < s.instant <= r.instant + MAX_GAP,
        record_for(seq![r], s, r2),
    ensures
        history_after(c, seq![r], s, r2) == seq![r2, r],
        decision(c, history_after(c, seq![r], s, r2)) is None,
{
    assert(seq![r2] + seq![r] =~= seq![r2, r]);
}

/// A turn that stays over the yaw threshold is signalled once: a record
/// whose predecessor already triggered on yaw gives no yaw signal, and no
/// pitch signal either.
pub proof fn lemma_steady_turn_signals_once(c: Config, h: Seq<Record>)
    requires
        h.len() >= 2,
        yaw_triggers(c, h[0].velocity@),
        yaw_triggers(c, h[1].velocity@),
    ensures
        decision(c, h) is None,
{
}

/// The direction of a signal is the sign of the newest velocity: left
/// column for a positive yaw rate, right column for a negative one, down
/// for a positive pitch rate, up for a negative one.
pub proof fn lemma_signal_follows_sign(c: Config, h: Seq<Record>)
    requires
        c.valid(),
    ensures
        decision(c, h) == Some(Signal::LeftColumn) ==> h[0].velocity.yaw > 0,
        decision(c, h) == Some(Signal::RightColumn) ==> h[0].velocity.yaw < 0,
        decision(c, h) == Some(Signal::Down) ==> h[0].velocity.pitch > 0,
        decision(c, h) == Some(Signal::Up) ==> h[0].velocity.pitch < 0,
{
}

/// A yaw rate over its threshold is not signalled when a record within the
/// idle window moved fast and the other way.
pub proof fn lemma_opposite_lead_in_is_silent(c: Config, h: Seq<Record>, i: int)
    requires
        c.valid(),
        1 <= i < h.len(),
        yaw_triggers(c, h[0].velocity@),
        in_idle_window(c, h, i),
        !is_idle(c, h[i].velocity@),
        sign(h[i].velocity.yaw as int) == -sign(h[0].velocity.yaw as int),
    ensures
        decision(c, h) is None,
{
    assert(!consistent_lead_in(c, h, Axis::Yaw));
}

/// Taking in a sample whose yaw rate is over its threshold signals nothing
/// while a record within the idle window before it moved fast the other way
/// (one still held after the sample is inserted).
pub proof fn lemma_opposite_lead_in_silences_sample(
    c: Config,
    h: Seq<Record>,
    s: PoseSample,
    rec: Record,
    j: int,
)
    requires
        c.valid(),
        history_wf(c, h),
        h.len() > 0,
        h[0].instant < s.instant <= h[0].instant + MAX_GAP,
        record_for(h, s, rec),
        yaw_triggers(c, rec.velocity@),
        0 <= j < h.len(),
        j + 1 < c.capacity,
        s.instant - h[j].instant < c.idle_window,
        !is_idle(c, h[j].velocity@),
        sign(h[j].velocity.yaw as int) == -sign(rec.velocity.yaw as int),
    ensures
        decision(c, history_after(c, h, s, rec)) is None,
{
    let a = history_after(c, h, s, rec);
    assert(!starts_session(h, s));
    assert(a[0] == rec);
    assert(a[j + 1] == h[j]);
    lemma_opposite_lead_in_is_silent(c, a, j + 1);
}

/// A yaw signal needs a yaw rate at or beyond the threshold; below it none
/// is given.
pub proof fn lemma_yaw_signal_needs_threshold(c: Config, h: Seq<Record>)
    requires
        h.len() > 0,
        -c.yaw_threshold < h[0].velocity.yaw < c.yaw_threshold,
    ensures
        decision(c, h) != Some(Signal::LeftColumn),
        decision(c, h) != Some(Signal::RightColumn),
{
}

/// Once the yaw rate is over its threshold, no pitch signal is given,
/// whatever the pitch rate.
pub proof fn lemma_yaw_takes_precedence(c: Config, h: Seq<Record>)
    requires
        h.len() > 0,
        yaw_triggers(c, h[0].velocity@),
    ensures
        decision(c, h) != Some(Signal::Up),
        decision(c, h) != Some(Signal::Down),
{
}

/// A datagram with a NaN in any of its six numbers is refused, so it never
/// reaches the history (see `Classifier::feed_packet`).
pub proof fn lemma_nan_packet_is_refused(b: Seq<u8>, i: int)
    requires
        b.len() == PACKET_LEN,
        0 <= i < 6,
        is_nan_bits(word(b, i)),
    ensures
        packet_outcome(b) == Err::<Axes, PacketError>(PacketError::NotANumber),
{
}

} // verus!
