//! The actuator bank's commanded state, and the sign classifier that derives
//! it from a reading.
//!
//! The policy is a pure three-bin threshold on the first axis of a reading:
//! the north output is asserted exactly when the axis is strictly positive,
//! the south output exactly when it is strictly negative, and both are
//! deasserted at zero. The other two axes are read but unused by policy.

use vstd::prelude::*;

use crate::sample::MagneticSample;

verus! {

/// The commanded state of the two named indicator outputs. No memory beyond
/// the two booleans: it is re-derived wholesale every loop iteration.
#[derive(Clone, Copy, PartialEq, Eq, Structural, Debug)]
pub struct ActuatorState {
    /// Whether the north indicator output is asserted.
    pub north: bool,
    /// Whether the south indicator output is asserted.
    pub south: bool,
}

impl ActuatorState {
    /// Both outputs deasserted: the state before any sample is classified.
    pub open spec fn spec_deasserted() -> ActuatorState {
        ActuatorState { north: false, south: false }
    }

    /// Both outputs deasserted.
    pub fn deasserted() -> (a: ActuatorState)
        ensures
            a == ActuatorState::spec_deasserted(),
    {
        ActuatorState { north: false, south: false }
    }
}

/// The sign of a first-axis value: 1, -1 or 0. Classification depends on a
/// value only through this function.
pub open spec fn sign(v: i16) -> int {
    if v > 0 {
        1
    } else if v < 0 {
        -1
    } else {
        0
    }
}

/// The actuator state derived from a first-axis value: north asserted
/// exactly when it is strictly positive, south exactly when it is strictly
/// negative.
pub open spec fn spec_classify(v: i16) -> ActuatorState {
    ActuatorState { north: v > 0, south: v < 0 }
}

/// Classify a first-axis value into the two output commands.
pub fn classify(v: i16) -> (a: ActuatorState)
    ensures
        a == spec_classify(v),
        a.north == (v > 0),
        a.south == (v < 0),
{
    ActuatorState { north: v > 0, south: v < 0 }
}

/// The actuator states commanded by a sequence of readings, in order: one
/// per reading, each derived from that reading's first axis alone.
pub open spec fn actuations(samples: Seq<MagneticSample>) -> Seq<ActuatorState> {
    samples.map_values(|s: MagneticSample| spec_classify(s.x))
}

/// The two outputs are mutually exclusive: classification never asserts
/// north and south at once, each output tracks exactly one strict
/// inequality on the input, and both are deasserted only at the zero
/// boundary.
pub proof fn lemma_outputs_exclusive(v: i16)
    ensures
        spec_classify(v).north == (v > 0),
        spec_classify(v).south == (v < 0),
        !(spec_classify(v).north && spec_classify(v).south),
        (!spec_classify(v).north && !spec_classify(v).south) <==> v == 0,
{
}

/// At zero, both outputs are deasserted.
pub proof fn lemma_zero_deasserts()
    ensures
        spec_classify(0) == ActuatorState::spec_deasserted(),
{
}

/// Classification is invariant to magnitude: two values of the same sign
/// classify identically.
pub proof fn lemma_sign_determines_state(a: i16, b: i16)
    requires
        sign(a) == sign(b),
    ensures
        spec_classify(a) == spec_classify(b),
{
}

/// Over a whole run, the trace of commanded states depends only on each
/// reading's first-axis sign: two sample sequences whose first axes agree in
/// sign, reading by reading, command the same actuator trace.
pub proof fn lemma_trace_depends_on_sign_only(s1: Seq<MagneticSample>, s2: Seq<MagneticSample>)
    requires
        s1.len() == s2.len(),
        forall|i: int| 0 <= i < s1.len() ==> sign(s1[i].x) == sign(s2[i].x),
    ensures
        actuations(s1) == actuations(s2),
{
    assert forall|i: int| 0 <= i < s1.len() implies actuations(s1)[i] == actuations(s2)[i] by {
        lemma_sign_determines_state(s1[i].x, s2[i].x);
    }
    assert(actuations(s1) =~= actuations(s2));
}

/// Derive the actuator trace for a sequence of readings. The result is a
/// pure function of the samples: equal inputs give equal traces, whatever
/// iteration produced them.
pub fn actuate_sequence(samples: &Vec<MagneticSample>) -> (out: Vec<ActuatorState>)
    ensures
        out@ == actuations(samples@),
{
    let mut out: Vec<ActuatorState> = Vec::new();
    let mut i: usize = 0;
    while i < samples.len()
        invariant
            i <= samples.len(),
            out@ =~= actuations(samples@).take(i as int),
        decreases samples.len() - i,
    {
        out.push(classify(samples[i].x));
        i = i + 1;
    }
    assert(actuations(samples@).take(samples@.len() as int) =~= actuations(samples@));
    out
}

} // verus!
