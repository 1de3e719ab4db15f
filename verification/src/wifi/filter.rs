//! The per-channel filters as this crate sees them.
//!
//! A filter is a state and a step: the step takes the state and one input
//! and gives the next state and one output. What the step computes is the
//! caller's business; here it is run once per channel and tick, each
//! channel on its own state.

use vstd::prelude::*;

verus! {

/// One step of every channel's filter has led from the states `before` and
/// the inputs to the states `after` and the outputs.
pub open spec fn stepped<T, S, F: Fn(S, T) -> (S, T)>(
    step: F,
    before: Seq<S>,
    inputs: Seq<T>,
    after: Seq<S>,
    outputs: Seq<T>,
) -> bool {
    &&& inputs.len() == before.len()
    &&& after.len() == before.len()
    &&& outputs.len() == before.len()
    &&& forall|i: int|
        #![trigger after[i]]
        #![trigger outputs[i]]
        0 <= i < before.len() ==> call_ensures(step, (before[i], inputs[i]), (after[i], outputs[i]))
}

/// The step gives one result for one state and input.
pub open spec fn deterministic<T, S, F: Fn(S, T) -> (S, T)>(step: F) -> bool {
    forall|s: S, x: T, a: (S, T), b: (S, T)|
        #[trigger] call_ensures(step, (s, x), a) && #[trigger] call_ensures(step, (s, x), b) ==> a
            == b
}

/// Runs one step of every channel's filter: channel `i` takes `inputs[i]`
/// with its state `states[i]`, leaves its next state there and gives
/// `outputs[i]`. Nothing is run, and `None` returned, where there is not
/// exactly one input per state.
pub fn run_filters<T: Copy, S: Copy, F: Fn(S, T) -> (S, T)>(
    states: &mut Vec<S>,
    inputs: &Vec<T>,
    step: &F,
) -> (outputs: Option<Vec<T>>)
    requires
        forall|s: S, x: T| call_requires(*step, (s, x)),
    ensures
        final(states)@.len() == old(states)@.len(),
        outputs is Some <==> inputs@.len() == old(states)@.len(),
        outputs is None ==> final(states)@ == old(states)@,
        outputs matches Some(ys) ==> stepped(*step, old(states)@, inputs@, final(states)@, ys@),
{
    let n: usize = states.len();
    if inputs.len() != n {
        return None;
    }
    let mut outputs: Vec<T> = Vec::new();
    let mut i: usize = 0;
    while i < n
        invariant
            i <= n,
            n == inputs@.len(),
            states@.len() == n,
            old(states)@.len() == n,
            outputs@.len() == i,
            forall|s: S, x: T| call_requires(*step, (s, x)),
            forall|j: int|
                0 <= j < i ==> call_ensures(
                    *step,
                    (old(states)@[j], inputs@[j]),
                    (#[trigger] states@[j], outputs@[j]),
                ),
            forall|j: int| i <= j < n ==> #[trigger] states@[j] == old(states)@[j],
        decreases n - i,
    {
        let (next, y) = step(states[i], inputs[i]);
        states[i] = next;
        outputs.push(y);
        i += 1;
    }
    Some(outputs)
}

/// Filtering is repeatable: under a deterministic step, the same states
/// and the same inputs always lead to the same states and the same outputs.
pub proof fn lemma_same_in_same_out<T, S, F: Fn(S, T) -> (S, T)>(
    step: F,
    before: Seq<S>,
    inputs: Seq<T>,
    after_a: Seq<S>,
    outputs_a: Seq<T>,
    after_b: Seq<S>,
    outputs_b: Seq<T>,
)
    requires
        deterministic(step),
        stepped(step, before, inputs, after_a, outputs_a),
        stepped(step, before, inputs, after_b, outputs_b),
    ensures
        after_a == after_b,
        outputs_a == outputs_b,
{
    assert forall|i: int| 0 <= i < before.len() implies after_a[i] == after_b[i] && outputs_a[i]
        == outputs_b[i] by {
        assert(call_ensures(step, (before[i], inputs[i]), (after_a[i], outputs_a[i])));
        assert(call_ensures(step, (before[i], inputs[i]), (after_b[i], outputs_b[i])));
    }
    assert(after_a =~= after_b);
    assert(outputs_a =~= outputs_b);
}

} // verus!
