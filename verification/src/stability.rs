//! What holds of the tracker over whole streams of samples: it settles on
//! sustained input, stays there, and ignores input that changes faster than
//! the confirmation window.

use vstd::prelude::*;
use crate::orientation::Orientation;
use crate::sample::{by_sign, dominates, AccelSample};
use crate::tracker::{TrackerState, CONFIRM_SAMPLES};

verus! {

/// Every sample of the sequence says `orientation` by itself.
pub open spec fn all_say(samples: Seq<AccelSample>, orientation: Orientation) -> bool {
    forall|i: int| 0 <= i < samples.len() ==> (#[trigger] samples[i]).candidate() == orientation
}

/// How many samples at the end of the sequence, the last included, say the
/// same as the last one.
pub open spec fn trailing_run(samples: Seq<AccelSample>) -> nat
    decreases samples.len(),
{
    if samples.len() == 0 {
        0
    } else if samples.len() == 1 {
        1
    } else if samples.last().candidate() == samples.drop_last().last().candidate() {
        trailing_run(samples.drop_last()) + 1
    } else {
        1
    }
}

/// Nowhere in the sequence do `CONFIRM_SAMPLES` samples in a row say the same.
pub open spec fn changes_within_window(samples: Seq<AccelSample>) -> bool {
    forall|k: int|
        0 <= k <= samples.len() ==> trailing_run(#[trigger] samples.take(k)) < CONFIRM_SAMPLES
}

/// Nothing that the tracker has pending counts towards the first sample:
/// either it is settled, or what it has pending differs from what that sample
/// says.
pub open spec fn starts_afresh(state: TrackerState, samples: Seq<AccelSample>) -> bool {
    state.settled() || samples.len() == 0 || samples[0].candidate() != state.pending
}

/// A sample takes a tracker from one possible state to another.
pub proof fn step_preserves_wf(state: TrackerState, candidate: Orientation)
    requires
        state.wf(),
    ensures
        state.step(candidate).wf(),
{
}

/// So does a sequence of samples.
pub proof fn feed_preserves_wf(state: TrackerState, samples: Seq<AccelSample>)
    requires
        state.wf(),
    ensures
        state.feed(samples).wf(),
    decreases samples.len(),
{
    if samples.len() > 0 {
        feed_preserves_wf(state, samples.drop_last());
    }
}

/// Feeding one more sample is a step from where the others led.
pub proof fn feed_push(state: TrackerState, samples: Seq<AccelSample>, sample: AccelSample)
    ensures
        state.feed(samples.push(sample)) == state.feed(samples).step(sample.candidate()),
{
    assert(samples.push(sample).drop_last() =~= samples);
}

/// Sustained input settles: once `CONFIRM_SAMPLES` or more samples in a row
/// have said `orientation`, the tracker reports it, with nothing pending,
/// whatever state it started from.
pub proof fn sustained_input_settles(
    state: TrackerState,
    samples: Seq<AccelSample>,
    orientation: Orientation,
)
    requires
        state.wf(),
        samples.len() >= CONFIRM_SAMPLES,
        all_say(samples, orientation),
    ensures
        state.feed(samples) == TrackerState::settled_at(orientation),
{
    lemma_sustained_progress(state, samples, orientation);
}

/// A sustained vector that passes the magnitude gate and lies within
/// tolerance of an axis is reported as the orientation of that axis and sign
/// from the sample that completes the confirmation window, and for as long
/// as the same vector keeps coming.
pub proof fn sustained_gravity_is_reported(state: TrackerState, sample: AccelSample, count: nat)
    requires
        state.wf(),
        sample.reliable(),
        count >= CONFIRM_SAMPLES,
    ensures
        dominates(sample.x as int, sample.norm_squared()) ==> state.feed(
            Seq::new(count, |i: int| sample),
        ).stable == by_sign(sample.x as int, Orientation::LandscapeUp, Orientation::LandscapeDown),
        dominates(sample.y as int, sample.norm_squared()) ==> state.feed(
            Seq::new(count, |i: int| sample),
        ).stable == by_sign(sample.y as int, Orientation::PortraitUp, Orientation::PortraitDown),
        dominates(sample.z as int, sample.norm_squared()) ==> state.feed(
            Seq::new(count, |i: int| sample),
        ).stable == by_sign(sample.z as int, Orientation::FaceUp, Orientation::FaceDown),
{
    sample.dominant_axis_decides();
    sustained_input_settles(state, Seq::new(count, |i: int| sample), sample.candidate());
}

/// Settled input stays settled: after the confirmation window, one more
/// sample that says the same leaves the whole state, and so the reported
/// orientation, as it was.
pub proof fn steady_input_is_fixed_point(
    state: TrackerState,
    samples: Seq<AccelSample>,
    again: AccelSample,
    orientation: Orientation,
)
    requires
        state.wf(),
        samples.len() >= CONFIRM_SAMPLES,
        all_say(samples, orientation),
        again.candidate() == orientation,
    ensures
        state.feed(samples.push(again)) == state.feed(samples),
        state.feed(samples.push(again)).stable == orientation,
{
    sustained_input_settles(state, samples, orientation);
    feed_push(state, samples, again);
}

/// Samples outside the magnitude gate, whatever their direction, take the
/// tracker to `Unknown` once `CONFIRM_SAMPLES` of them have come in a row.
pub proof fn unreliable_input_degrades(state: TrackerState, samples: Seq<AccelSample>)
    requires
        state.wf(),
        samples.len() >= CONFIRM_SAMPLES,
        forall|i: int| 0 <= i < samples.len() ==> !(#[trigger] samples[i]).reliable(),
    ensures
        state.feed(samples).stable == Orientation::Unknown,
{
    assert forall|i: int| 0 <= i < samples.len() implies (#[trigger] samples[i]).candidate()
        == Orientation::Unknown by {
        samples[i].unreliable_is_unknown();
    }
    sustained_input_settles(state, samples, Orientation::Unknown);
}

/// One sample alone does not change the reported orientation, unless it
/// completes a run that was already pending; and a sample that agrees with
/// the reported orientation right after it wipes out every trace of it.
pub proof fn single_outlier_is_ignored(state: TrackerState, outlier: AccelSample)
    requires
        state.wf(),
        state.settled() || outlier.candidate() != state.pending,
    ensures
        state.step(outlier.candidate()).stable == state.stable,
        state.step(outlier.candidate()).step(state.stable) == TrackerState::settled_at(
            state.stable,
        ),
{
}

/// Input that changes within the confirmation window is ignored: as long as
/// no `CONFIRM_SAMPLES` samples in a row say the same, and nothing pending
/// counts towards the first of them, the reported orientation is the same
/// after every sample.
pub proof fn fast_changes_are_ignored(state: TrackerState, samples: Seq<AccelSample>)
    requires
        state.wf(),
        starts_afresh(state, samples),
        changes_within_window(samples),
    ensures
        forall|k: int|
            0 <= k <= samples.len() ==> (#[trigger] state.feed(samples.take(k))).stable
                == state.stable,
{
    assert forall|k: int| 0 <= k <= samples.len() implies (#[trigger] state.feed(
        samples.take(k),
    )).stable == state.stable by {
        let prefix = samples.take(k);
        assert forall|j: int| 0 <= j <= prefix.len() implies trailing_run(
            #[trigger] prefix.take(j),
        ) < CONFIRM_SAMPLES by {
            assert(prefix.take(j) =~= samples.take(j));
        }
        lemma_short_runs_hold(state, prefix);
    }
}

/// Input that alternates between two samples of different classification
/// never changes the reported orientation: neither of the two is ever
/// reported, unless it was reported before.
pub proof fn oscillation_is_ignored(
    state: TrackerState,
    samples: Seq<AccelSample>,
    first: AccelSample,
    second: AccelSample,
)
    requires
        state.wf(),
        state.settled() || first.candidate() != state.pending,
        first.candidate() != second.candidate(),
        forall|i: int|
            0 <= i < samples.len() ==> #[trigger] samples[i] == if i % 2 == 0 {
                first
            } else {
                second
            },
    ensures
        forall|k: int|
            0 <= k <= samples.len() ==> (#[trigger] state.feed(samples.take(k))).stable
                == state.stable,
{
    fast_changes_are_ignored(state, samples);
}

/// While every sample says `orientation`, the tracker has either settled on
/// it or counts at least as many samples towards it as it has been fed.
proof fn lemma_sustained_progress(
    state: TrackerState,
    samples: Seq<AccelSample>,
    orientation: Orientation,
)
    requires
        state.wf(),
        samples.len() >= 1,
        all_say(samples, orientation),
    ensures
        state.feed(samples).wf(),
        state.feed(samples) == TrackerState::settled_at(orientation) || ({
            &&& state.feed(samples).pending == orientation
            &&& state.feed(samples).stable != orientation
            &&& state.feed(samples).streak >= samples.len()
        }),
    decreases samples.len(),
{
    if samples.len() > 1 {
        lemma_sustained_progress(state, samples.drop_last(), orientation);
    }
}

/// While no run reaches `CONFIRM_SAMPLES`, the reported orientation stays and
/// the pending count is no longer than the run at the end of the input.
proof fn lemma_short_runs_hold(state: TrackerState, samples: Seq<AccelSample>)
    requires
        state.wf(),
        starts_afresh(state, samples),
        changes_within_window(samples),
    ensures
        state.feed(samples).wf(),
        state.feed(samples).stable == state.stable,
        samples.len() > 0 ==> state.feed(samples).streak <= trailing_run(samples),
        samples.len() > 0 && state.feed(samples).streak > 0 ==> state.feed(samples).pending
            == samples.last().candidate(),
    decreases samples.len(),
{
    if samples.len() > 0 {
        let before = samples.drop_last();
        assert forall|k: int| 0 <= k <= before.len() implies trailing_run(
            #[trigger] before.take(k),
        ) < CONFIRM_SAMPLES by {
            assert(before.take(k) =~= samples.take(k));
        }
        lemma_short_runs_hold(state, before);
        assert(samples.take(samples.len() as int) =~= samples);
    }
}

} // verus!
