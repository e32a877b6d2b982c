//! Making the calls of a plan in order, and stopping at the first that fails.
//!
//! The calls themselves are made on the browser's canvas, outside this
//! library. What this library decides is which call comes next: after a call
//! returns, the one that follows it; after the last, the end; after a call
//! throws, none, with that call's error as the outcome. `first_action` and
//! `next_action` make those decisions, and `lemma_run_stops_at_first_failure`
//! shows that following them makes exactly the calls of the plan up to and
//! including the first that fails, each once and in order.
use vstd::prelude::*;
use crate::ops::{CanvasOp, OpView, ops_view};

verus! {

/// Whether a canvas call can throw: `arc`, `translate`, `rotate` and
/// `fillText` can; the others cannot.
pub open spec fn fallible(op: OpView) -> bool {
    op is FullArc || op is Translate || op is Rotate || op is FillText
}

/// What to do next while the calls of a plan are made.
pub enum RunAction<E> {
    /// Make the call at this index of the plan.
    Make(usize),
    /// Every call has been made: drawing succeeded.
    Finish,
    /// The call at this index threw this error: drawing stops and fails with it.
    Abort(usize, E),
}

/// The first thing to do for a plan of `len` calls.
pub open spec fn first_step<E>(len: nat) -> RunAction<E> {
    if len == 0 {
        RunAction::Finish
    } else {
        RunAction::Make(0)
    }
}

/// What to do after the call at `index` of a plan of `len` calls has had
/// `outcome`.
pub open spec fn step_after<E>(len: nat, index: usize, outcome: Result<(), E>) -> RunAction<E> {
    match outcome {
        Err(e) => RunAction::Abort(index, e),
        Ok(_) => if index + 1 < len {
            RunAction::Make((index + 1) as usize)
        } else {
            RunAction::Finish
        },
    }
}

/// The first thing to do to draw `ops`.
pub fn first_action<E>(ops: &Vec<CanvasOp>) -> (a: RunAction<E>)
    ensures
        a == first_step::<E>(ops.len() as nat),
{
    if ops.len() == 0 {
        RunAction::Finish
    } else {
        RunAction::Make(0)
    }
}

/// What to do after the call at `index` of `ops` has had `outcome`. Only a
/// call that can throw fails.
pub fn next_action<E>(ops: &Vec<CanvasOp>, index: usize, outcome: Result<(), E>) -> (a: RunAction<E>)
    requires
        index < ops.len(),
        outcome is Err ==> fallible(ops@[index as int]@),
    ensures
        a == step_after(ops.len() as nat, index, outcome),
{
    match outcome {
        Err(e) => RunAction::Abort(index, e),
        Ok(_) => if index + 1 < ops.len() {
            RunAction::Make(index + 1)
        } else {
            RunAction::Finish
        },
    }
}

/// How far a run of `len` calls still has to go after `a`.
pub open spec fn steps_left<E>(len: nat, a: RunAction<E>) -> nat {
    match a {
        RunAction::Make(i) => if i < len {
            (len - i) as nat
        } else {
            0
        },
        _ => 0,
    }
}

/// The calls made, and how the run ends, when the calls of `ops` are made
/// from `a` on as `first_step` and `step_after` say, the call at index `i`
/// having outcome `outcomes[i]`.
pub open spec fn run_from<E>(ops: Seq<OpView>, a: RunAction<E>, outcomes: Seq<Result<(), E>>) -> (
    Seq<OpView>,
    RunAction<E>,
)
    decreases steps_left(ops.len(), a),
{
    match a {
        RunAction::Make(i) => if i < ops.len() && i < outcomes.len() && ops.len() <= usize::MAX {
            let rest = run_from(ops, step_after(ops.len(), i, outcomes[i as int]), outcomes);
            (seq![ops[i as int]] + rest.0, rest.1)
        } else {
            (seq![], a)
        },
        _ => (seq![], a),
    }
}

/// The calls made and the end of a run of `ops` from its start.
pub open spec fn run_of<E>(ops: Seq<OpView>, outcomes: Seq<Result<(), E>>) -> (
    Seq<OpView>,
    RunAction<E>,
) {
    run_from(ops, first_step(ops.len()), outcomes)
}

/// From the call at index `i` on: where every call succeeds, the calls from
/// `i` to the end are made and the run finishes; where the call at `k` is the
/// first from `i` on that fails, the calls from `i` to `k` are made and the
/// run stops with `k`'s error.
proof fn lemma_run_from<E>(ops: Seq<OpView>, i: int, outcomes: Seq<Result<(), E>>)
    requires
        0 <= i < ops.len(),
        ops.len() <= usize::MAX,
        outcomes.len() == ops.len(),
    ensures
        (forall|j: int| i <= j < ops.len() ==> (#[trigger] outcomes[j]) is Ok) ==> run_from(
            ops,
            RunAction::Make(i as usize),
            outcomes,
        ) == (ops.subrange(i, ops.len() as int), RunAction::<E>::Finish),
        forall|k: int|
            #![trigger outcomes[k]]
            i <= k < ops.len() && outcomes[k] is Err && (forall|j: int|
                i <= j < k ==> (#[trigger] outcomes[j]) is Ok) ==> run_from(
                ops,
                RunAction::Make(i as usize),
                outcomes,
            ) == (ops.subrange(i, k + 1), RunAction::Abort(k as usize, outcomes[k]->Err_0)),
    decreases ops.len() - i,
{
    let next = step_after(ops.len(), i as usize, outcomes[i]);
    let rest = run_from(ops, next, outcomes);
    assert(run_from(ops, RunAction::Make(i as usize), outcomes) == (
        seq![ops[i]] + rest.0,
        rest.1,
    ));
    if i + 1 < ops.len() {
        lemma_run_from(ops, i + 1, outcomes);
    }
    if outcomes[i] is Ok {
        if i + 1 < ops.len() {
            assert(next == RunAction::<E>::Make((i + 1) as usize));
        } else {
            assert(next == RunAction::<E>::Finish);
            assert(rest == (Seq::<OpView>::empty(), RunAction::<E>::Finish));
        }
    }
    assert forall|k: int|
        #![trigger outcomes[k]]
        i <= k < ops.len() && outcomes[k] is Err && (forall|j: int|
            i <= j < k ==> (#[trigger] outcomes[j]) is Ok) implies run_from(
        ops,
        RunAction::Make(i as usize),
        outcomes,
    ) == (ops.subrange(i, k + 1), RunAction::Abort(k as usize, outcomes[k]->Err_0)) by {
        if k == i {
            assert(seq![ops[i]] =~= ops.subrange(i, k + 1));
        } else {
            assert(outcomes[i] is Ok);
            assert(forall|j: int| i + 1 <= j < k ==> (#[trigger] outcomes[j]) is Ok);
            assert(seq![ops[i]] + ops.subrange(i + 1, k + 1) =~= ops.subrange(i, k + 1));
        }
    }
    if forall|j: int| i <= j < ops.len() ==> (#[trigger] outcomes[j]) is Ok {
        assert(outcomes[i] is Ok);
        if i + 1 < ops.len() {
            assert(seq![ops[i]] + ops.subrange(i + 1, ops.len() as int) =~= ops.subrange(
                i,
                ops.len() as int,
            ));
        } else {
            assert(seq![ops[i]] + Seq::<OpView>::empty() =~= ops.subrange(i, ops.len() as int));
        }
    }
}

/// Following `first_action` and `next_action` makes the calls of a plan (a
/// list of calls that fits in memory) in order, each once. Where every call succeeds, all of them are made and the
/// run finishes. Where the call at index `k` is the first that throws, the
/// calls up to and including it are made, none after it, and the run stops
/// with its error; that call is one that can throw.
pub proof fn lemma_run_stops_at_first_failure<E>(ops: Seq<OpView>, outcomes: Seq<Result<(), E>>)
    requires
        ops.len() <= usize::MAX,
        outcomes.len() == ops.len(),
        forall|i: int| 0 <= i < ops.len() && (#[trigger] outcomes[i]) is Err ==> fallible(ops[i]),
    ensures
        (forall|i: int| 0 <= i < ops.len() ==> (#[trigger] outcomes[i]) is Ok) ==> run_of(
            ops,
            outcomes,
        ) == (ops, RunAction::<E>::Finish),
        forall|k: int|
            #![trigger outcomes[k]]
            0 <= k < ops.len() && outcomes[k] is Err && (forall|j: int|
                0 <= j < k ==> (#[trigger] outcomes[j]) is Ok) ==> {
                &&& run_of(ops, outcomes) == (ops.take(k + 1), RunAction::Abort(
                    k as usize,
                    outcomes[k]->Err_0,
                ))
                &&& fallible(ops[k])
            },
{
    if ops.len() == 0 {
        assert(run_of(ops, outcomes) == (Seq::<OpView>::empty(), RunAction::<E>::Finish));
        assert(ops =~= Seq::<OpView>::empty());
    } else {
        lemma_run_from(ops, 0, outcomes);
        assert(ops.subrange(0, ops.len() as int) =~= ops);
        assert forall|k: int|
            #![trigger outcomes[k]]
            0 <= k < ops.len() && outcomes[k] is Err && (forall|j: int|
                0 <= j < k ==> (#[trigger] outcomes[j]) is Ok) implies run_of(ops, outcomes) == (
            ops.take(k + 1),
            RunAction::Abort(k as usize, outcomes[k]->Err_0),
        ) by {
            assert(ops.subrange(0, k + 1) =~= ops.take(k + 1));
        }
    }
}

/// The calls of `ops` made up to and including the first that fails, as
/// `ops_view` gives them.
pub open spec fn made_calls<E>(ops: Seq<CanvasOp>, outcomes: Seq<Result<(), E>>) -> Seq<OpView> {
    run_of(ops_view(ops), outcomes).0
}

} // verus!
