//! Gain control of the light sensor.
use vstd::prelude::*;

verus! {

/// Raw channel value with which the light sensor reports clipping.
pub const SATURATED: u16 = 0xFFFF;

/// Below this on both channels the signal is too weak: gain goes up.
pub const LOW_SIGNAL: u16 = 1000;

/// Above this on both channels the signal risks clipping: gain goes down.
pub const HIGH_SIGNAL: u16 = 50000;

/// Sensitivity of the light sensor, from least to most sensitive.
#[derive(Clone, Copy, Debug, PartialEq, Eq, Structural)]
pub enum Gain {
    Low,
    Med,
    High,
    Max,
}

/// Position of a gain on the scale `Low = 0 .. Max = 3`.
pub open spec fn gain_level(g: Gain) -> int {
    match g {
        Gain::Low => 0,
        Gain::Med => 1,
        Gain::High => 2,
        Gain::Max => 3,
    }
}

/// The gain at a level, with levels outside the scale held at its ends.
pub open spec fn gain_at(level: int) -> Gain {
    if level <= 0 {
        Gain::Low
    } else if level == 1 {
        Gain::Med
    } else if level == 2 {
        Gain::High
    } else {
        Gain::Max
    }
}

/// The step that the threshold rule asks for on a pair of raw channel
/// readings: -1 to lower the gain, 1 to raise it, 0 to keep it.
pub open spec fn gain_step(ch0: u16, ch1: u16) -> int {
    if ch0 == SATURATED || ch1 == SATURATED {
        -1
    } else if ch0 < LOW_SIGNAL && ch1 < LOW_SIGNAL {
        1
    } else if ch0 > HIGH_SIGNAL && ch1 > HIGH_SIGNAL {
        -1
    } else {
        0
    }
}

/// The gain after one adjustment on a pair of raw channel readings.
pub open spec fn adjusted_gain(g: Gain, ch0: u16, ch1: u16) -> Gain {
    gain_at(gain_level(g) + gain_step(ch0, ch1))
}

/// One level more sensitive; `Max` stays `Max`.
pub fn next_gain_up(gain: Gain) -> (r: Gain)
    ensures
        r == gain_at(gain_level(gain) + 1),
{
    match gain {
        Gain::Low => Gain::Med,
        Gain::Med => Gain::High,
        _ => Gain::Max,
    }
}

/// One level less sensitive; `Low` stays `Low`.
pub fn next_gain_down(gain: Gain) -> (r: Gain)
    ensures
        r == gain_at(gain_level(gain) - 1),
{
    match gain {
        Gain::Max => Gain::High,
        Gain::High => Gain::Med,
        _ => Gain::Low,
    }
}

/// Applies the threshold rule to one pair of raw channel readings: step
/// down on a saturated channel, up when both channels are weak, down when
/// both are strong, and otherwise keep the gain.
pub fn adjust_gain(gain: Gain, ch0: u16, ch1: u16) -> (r: Gain)
    ensures
        r == adjusted_gain(gain, ch0, ch1),
{
    if ch0 == SATURATED || ch1 == SATURATED {
        next_gain_down(gain)
    } else if ch0 < LOW_SIGNAL && ch1 < LOW_SIGNAL {
        next_gain_up(gain)
    } else if ch0 > HIGH_SIGNAL && ch1 > HIGH_SIGNAL {
        next_gain_down(gain)
    } else {
        gain
    }
}

/// The amplification that a gain setting applies to the raw counts.
pub open spec fn spec_gain_factor(g: Gain) -> int {
    match g {
        Gain::Low => 1,
        Gain::Med => 25,
        Gain::High => 428,
        Gain::Max => 9876,
    }
}

/// The amplification that a gain setting applies to the raw counts.
pub fn gain_factor(gain: Gain) -> (r: u32)
    ensures
        r as int == spec_gain_factor(gain),
{
    match gain {
        Gain::Low => 1,
        Gain::Med => 25,
        Gain::High => 428,
        Gain::Max => 9876,
    }
}

/// The gains that successive adjustments pass through, starting at `g`,
/// one pair of raw channel readings per adjustment.
pub open spec fn gain_trace(g: Gain, pairs: Seq<(u16, u16)>) -> Seq<Gain>
    decreases pairs.len(),
{
    if pairs.len() == 0 {
        seq![g]
    } else {
        let before = gain_trace(g, pairs.drop_last());
        let last = pairs.last();
        before.push(adjusted_gain(before.last(), last.0, last.1))
    }
}

proof fn lemma_gain_trace_shape(g: Gain, pairs: Seq<(u16, u16)>)
    ensures
        gain_trace(g, pairs).len() == pairs.len() + 1,
        gain_trace(g, pairs)[0] == g,
        forall|i: int|
            0 <= i < pairs.len() ==> #[trigger] gain_trace(g, pairs)[i + 1] == adjusted_gain(
                gain_trace(g, pairs)[i],
                pairs[i].0,
                pairs[i].1,
            ),
    decreases pairs.len(),
{
    if pairs.len() > 0 {
        let init = pairs.drop_last();
        lemma_gain_trace_shape(g, init);
        assert forall|i: int| 0 <= i < pairs.len() implies #[trigger] gain_trace(g, pairs)[i + 1]
            == adjusted_gain(gain_trace(g, pairs)[i], pairs[i].0, pairs[i].1) by {
            if i < pairs.len() - 1 {
                assert(gain_trace(g, init)[i + 1] == adjusted_gain(
                    gain_trace(g, init)[i],
                    init[i].0,
                    init[i].1,
                ));
            }
        }
    }
}

/// Over any sequence of raw channel pairs, each adjustment moves the gain
/// by at most one level, in the direction that the threshold rule gives,
/// stopping at `Low` and `Max`, and every gain on the way is on the scale.
pub proof fn gain_moves_single_steps(g: Gain, pairs: Seq<(u16, u16)>)
    ensures
        forall|i: int|
            0 <= i < pairs.len() ==> {
                let before = gain_level(#[trigger] gain_trace(g, pairs)[i]);
                let after = gain_level(gain_trace(g, pairs)[i + 1]);
                let step = gain_step(pairs[i].0, pairs[i].1);
                &&& -1 <= after - before <= 1
                &&& step == 1 ==> after == if before == 3 { 3 } else { before + 1 }
                &&& step == -1 ==> after == if before == 0 { 0 } else { before - 1 }
                &&& step == 0 ==> after == before
            },
        forall|i: int|
            0 <= i <= pairs.len() ==> 0 <= #[trigger] gain_level(gain_trace(g, pairs)[i]) <= 3,
{
    lemma_gain_trace_shape(g, pairs);
    assert forall|i: int| 0 <= i < pairs.len() implies {
        let before = gain_level(#[trigger] gain_trace(g, pairs)[i]);
        let after = gain_level(gain_trace(g, pairs)[i + 1]);
        let step = gain_step(pairs[i].0, pairs[i].1);
        &&& -1 <= after - before <= 1
        &&& step == 1 ==> after == if before == 3 { 3 } else { before + 1 }
        &&& step == -1 ==> after == if before == 0 { 0 } else { before - 1 }
        &&& step == 0 ==> after == before
    } by {
        assert(gain_trace(g, pairs)[i + 1] == adjusted_gain(
            gain_trace(g, pairs)[i],
            pairs[i].0,
            pairs[i].1,
        ));
    }
}

} // verus!
