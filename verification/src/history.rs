//! The state machine as a fold over a history of triggers.

use vstd::prelude::*;
use crate::state::{lemma_terminate_keeps_state, Effect, GameState, StateResource, Trigger};

verus! {

/// The state reached from `s` when the triggers of `ts` are handled in order.
pub open spec fn fold_state(s: GameState, ts: Seq<Trigger>) -> GameState
    decreases ts.len(),
{
    if ts.len() == 0 {
        s
    } else {
        fold_state(s, ts.drop_last()).next(ts.last())
    }
}

/// Whether the trigger at index `i` of `ts` ends the process, given that the
/// triggers before it were handled from state `s`.
pub open spec fn exits_at(s: GameState, ts: Seq<Trigger>, i: int) -> bool {
    fold_state(s, ts.take(i)).effect(ts[i]) == Effect::Terminate
}

/// Whether none of the first `n` triggers of `ts` ends the process.
pub open spec fn runs_on(s: GameState, ts: Seq<Trigger>, n: int) -> bool {
    forall|i: int| 0 <= i < n ==> !exits_at(s, ts, i)
}

/// How a replayed history ended.
#[derive(Clone, Copy, Debug)]
pub struct Replay {
    /// The number of triggers that were handled without ending the process.
    pub handled: usize,
    /// `Terminate` where the trigger at index `handled` ended the process.
    pub effect: Effect,
}

impl StateResource {
    /// Handles the triggers of `ts` in order, up to the first that ends the
    /// process. That trigger is not counted as handled and nothing after it
    /// is looked at.
    pub fn replay(&mut self, ts: &Vec<Trigger>) -> (r: Replay)
        ensures
            r.handled <= ts.len(),
            runs_on(old(self).state, ts@, r.handled as int),
            r.effect == Effect::Terminate <==> r.handled < ts.len(),
            r.handled < ts.len() ==> exits_at(old(self).state, ts@, r.handled as int),
            final(self).state == fold_state(old(self).state, ts@.take(r.handled as int)),
    {
        let ghost start = self.state;
        let mut i: usize = 0;
        proof {
            assert(ts@.take(0) =~= Seq::<Trigger>::empty());
        }
        while i < ts.len()
            invariant
                i <= ts.len(),
                start == old(self).state,
                runs_on(start, ts@, i as int),
                self.state == fold_state(start, ts@.take(i as int)),
            decreases ts.len() - i,
        {
            let t = ts[i];
            let ghost before = self.state;
            let effect = self.request_transition(t);
            match effect {
                Effect::Terminate => {
                    proof {
                        lemma_terminate_keeps_state(before, t);
                    }
                    return Replay { handled: i, effect: Effect::Terminate };
                },
                Effect::Nothing => {
                    proof {
                        lemma_fold_take_next(start, ts@, i as int);
                    }
                    i = i + 1;
                },
            }
        }
        Replay { handled: i, effect: Effect::Nothing }
    }
}

/// Handling one more trigger of a history is one step of the table.
pub proof fn lemma_fold_take_next(s: GameState, ts: Seq<Trigger>, i: int)
    requires
        0 <= i < ts.len(),
    ensures
        fold_state(s, ts.take(i + 1)) == fold_state(s, ts.take(i)).next(ts[i]),
{
    assert(ts.take(i + 1).drop_last() =~= ts.take(i));
}

/// A history handled in two parts gives the state that it gives handled as
/// one: the state after `a` then `b` depends only on the state after `a`.
pub proof fn lemma_fold_concat(s: GameState, a: Seq<Trigger>, b: Seq<Trigger>)
    ensures
        fold_state(s, a + b) == fold_state(fold_state(s, a), b),
    decreases b.len(),
{
    if b.len() == 0 {
        assert(a + b =~= a);
    } else {
        lemma_fold_concat(s, a, b.drop_last());
        assert((a + b).drop_last() =~= a + b.drop_last());
    }
}

/// The state after a history is the state after its first trigger, folded
/// over the rest: the triggers are applied one by one, from the front.
pub proof fn lemma_fold_front(s: GameState, ts: Seq<Trigger>)
    requires
        ts.len() > 0,
    ensures
        fold_state(s, ts) == fold_state(s.next(ts[0]), ts.drop_first()),
{
    let head = seq![ts[0]];
    assert(head + ts.drop_first() =~= ts);
    lemma_fold_concat(s, head, ts.drop_first());
    assert(fold_state(s, head.drop_last()) == s);
}

/// A history without a trigger that the table reacts to in the state it
/// meets leaves the state as it was: with neither "Start" nor F1 in it,
/// nothing moves.
pub proof fn lemma_fold_without_moves(s: GameState, ts: Seq<Trigger>)
    requires
        forall|i: int| 0 <= i < ts.len() ==> ts[i] != Trigger::Start && ts[i] != Trigger::F1,
    ensures
        fold_state(s, ts) == s,
    decreases ts.len(),
{
    if ts.len() > 0 {
        lemma_fold_without_moves(s, ts.drop_last());
    }
}

} // verus!
