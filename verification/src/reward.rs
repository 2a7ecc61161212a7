//! Reward shaping by composition: a composite reward computer that is the
//! element-wise saturating sum of an ordered list of constituent computers,
//! each reset and invoked independently, in order, with the shared context
//! threaded through.

use vstd::prelude::*;
use crate::state::GameSnapshot;
use crate::Reward;

verus! {

/// Saturating addition of two rewards.
pub open spec fn spec_sat_add(a: i64, b: i64) -> i64 {
    if a + b > i64::MAX {
        i64::MAX
    } else if a + b < i64::MIN {
        i64::MIN
    } else {
        (a + b) as i64
    }
}

/// Saturating addition of two rewards.
pub fn sat_add(a: i64, b: i64) -> (r: i64)
    ensures
        r == spec_sat_add(a, b),
{
    if b >= 0 {
        if a > i64::MAX - b {
            i64::MAX
        } else {
            a + b
        }
    } else {
        if a < i64::MIN - b {
            i64::MIN
        } else {
            a + b
        }
    }
}

/// An ordered list of reward computers.
pub enum RewardList<R> {
    Nil,
    Cons(R, Box<RewardList<R>>),
}

/// The list a sequence of computers describes, in order.
pub open spec fn spec_list_of<R>(s: Seq<R>) -> RewardList<R>
    decreases s.len(),
{
    if s.len() == 0 {
        RewardList::Nil
    } else {
        RewardList::Cons(s[0], Box::new(spec_list_of(s.drop_first())))
    }
}

/// The constituents after each has been reset, in order, with the context
/// threaded through.
pub open spec fn spec_reset_chain<SI, R: Reward<SI>>(
    l: RewardList<R>,
    state: GameSnapshot,
    si: SI,
) -> (RewardList<R>, SI)
    decreases l,
{
    match l {
        RewardList::Nil => (RewardList::Nil, si),
        RewardList::Cons(head, tail) => {
            let (h2, si1) = head.reset_spec(state, si);
            let (t2, si2) = spec_reset_chain(*tail, state, si1);
            (RewardList::Cons(h2, Box::new(t2)), si2)
        },
    }
}

/// The constituents after each has computed its rewards, in order, with the
/// context threaded through, together with each one's output, in order.
pub open spec fn spec_rewards_chain<SI, R: Reward<SI>>(
    l: RewardList<R>,
    state: GameSnapshot,
    si: SI,
) -> (RewardList<R>, SI, Seq<Seq<i64>>)
    decreases l,
{
    match l {
        RewardList::Nil => (RewardList::Nil, si, Seq::<Seq<i64>>::empty()),
        RewardList::Cons(head, tail) => {
            let (h2, si1, out) = head.rewards_spec(state, si);
            let (t2, si2, outs) = spec_rewards_chain(*tail, state, si1);
            (RewardList::Cons(h2, Box::new(t2)), si2, seq![out] + outs)
        },
    }
}

/// The saturating sum of the outputs' entries for agent `j`, accumulated
/// onto `acc` in constituent order.
pub open spec fn spec_sum_from(acc: i64, outs: Seq<Seq<i64>>, j: int) -> i64
    decreases outs.len(),
{
    if outs.len() == 0 {
        acc
    } else {
        spec_sum_from(spec_sat_add(acc, outs[0][j]), outs.drop_first(), j)
    }
}

/// Reset every computer of the list, in order.
fn reset_list<SI, R: Reward<SI>>(
    l: RewardList<R>,
    state: &GameSnapshot,
    shared_info: &mut SI,
) -> (r: RewardList<R>)
    ensures
        ({
            let (l2, si2) = spec_reset_chain(l, *state, *old(shared_info));
            &&& r == l2
            &&& *final(shared_info) == si2
        }),
    decreases l,
{
    match l {
        RewardList::Nil => RewardList::Nil,
        RewardList::Cons(mut head, tail) => {
            head.reset(state, shared_info);
            let t2 = reset_list(*tail, state, shared_info);
            RewardList::Cons(head, Box::new(t2))
        },
    }
}

/// Evaluate every computer of the list, in order, folding each output into
/// the running totals element-wise.
fn rewards_list<SI, R: Reward<SI>>(
    l: RewardList<R>,
    state: &GameSnapshot,
    shared_info: &mut SI,
    totals: &mut Vec<i64>,
) -> (r: RewardList<R>)
    requires
        old(totals)@.len() == state.cars@.len(),
    ensures
        ({
            let (l2, si2, outs) = spec_rewards_chain(l, *state, *old(shared_info));
            &&& r == l2
            &&& *final(shared_info) == si2
            &&& final(totals)@.len() == state.cars@.len()
            &&& forall|j: int|
                0 <= j < state.cars@.len() ==> final(totals)@[j] == spec_sum_from(
                    old(totals)@[j],
                    outs,
                    j,
                )
        }),
    decreases l,
{
    match l {
        RewardList::Nil => RewardList::Nil,
        RewardList::Cons(mut head, tail) => {
            let ghost si0 = *shared_info;
            let out = head.get_rewards(state, shared_info);
            let n = totals.len();
            let mut next: Vec<i64> = Vec::new();
            let mut i: usize = 0;
            while i < n
                invariant
                    i <= n,
                    n == totals@.len(),
                    out@.len() == n,
                    next@.len() == i,
                    forall|j: int|
                        0 <= j < i ==> next@[j] == spec_sat_add(totals@[j], out@[j]),
                decreases n - i,
            {
                next.push(sat_add(totals[i], out[i]));
                i = i + 1;
            }
            let ghost totals_before = totals@;
            *totals = next;
            let t2 = rewards_list(*tail, state, shared_info, totals);
            proof {
                let head0 = l->Cons_0;
                let (h2, si1, out_s) = head0.rewards_spec(*state, si0);
                let (tl2, si2, outs_tail) = spec_rewards_chain(*tail, *state, si1);
                let outs = spec_rewards_chain(l, *state, si0).2;
                assert(outs == seq![out_s] + outs_tail);
                assert(outs[0] == out_s);
                assert(outs.drop_first() =~= outs_tail);
                assert forall|j: int| 0 <= j < state.cars@.len() implies totals@[j]
                    == spec_sum_from(totals_before[j], outs, j) by {
                    assert(spec_sum_from(totals_before[j], outs, j) == spec_sum_from(
                        spec_sat_add(totals_before[j], out_s[j]),
                        outs_tail,
                        j,
                    ));
                }
            }
            RewardList::Cons(head, Box::new(t2))
        },
    }
}

/// A composite reward: the element-wise saturating sum of an ordered list
/// of constituent computers.
pub struct CombinedReward<R> {
    pub components: RewardList<R>,
}

impl<R> CombinedReward<R> {
    /// Combine the given computers, evaluated in the given order.
    pub fn new(components: Vec<R>) -> (r: CombinedReward<R>)
        ensures
            r.components == spec_list_of(components@),
    {
        let ghost all = components@;
        let mut rest = components;
        let mut l = RewardList::Nil;
        while rest.len() > 0
            invariant
                rest@.len() <= all.len(),
                rest@ == all.take(rest@.len() as int),
                l == spec_list_of(all.skip(rest@.len() as int)),
            decreases rest@.len(),
        {
            let ghost k = rest@.len() as int;
            let c = rest.pop().unwrap();
            proof {
                assert(c == all[k - 1]);
                assert(rest@ =~= all.take(k - 1));
                assert(all.skip(k - 1)[0] == all[k - 1]);
                assert(all.skip(k - 1).drop_first() =~= all.skip(k));
            }
            l = RewardList::Cons(c, Box::new(l));
            proof {
                assert(l == spec_list_of(all.skip(k - 1)));
            }
        }
        proof {
            assert(all.skip(0) =~= all);
        }
        CombinedReward { components: l }
    }
}

impl<SI, R: Reward<SI>> Reward<SI> for CombinedReward<R> {
    /// Reset every constituent, in order.
    open spec fn reset_spec(self, state: GameSnapshot, si: SI) -> (Self, SI) {
        let (l2, si2) = spec_reset_chain(self.components, state, si);
        (CombinedReward { components: l2 }, si2)
    }

    /// Evaluate every constituent, in order, and sum element-wise: the
    /// composite's reward for an agent is the saturating sum, in order, of
    /// its constituents' rewards for that agent.
    open spec fn rewards_spec(self, state: GameSnapshot, si: SI) -> (Self, SI, Seq<i64>) {
        let (l2, si2, outs) = spec_rewards_chain(self.components, state, si);
        (
            CombinedReward { components: l2 },
            si2,
            Seq::new(state.cars@.len(), |j: int| spec_sum_from(0i64, outs, j)),
        )
    }

    fn reset(&mut self, initial_state: &GameSnapshot, shared_info: &mut SI) {
        let mut l = RewardList::Nil;
        core::mem::swap(&mut l, &mut self.components);
        let l2 = reset_list(l, initial_state, shared_info);
        self.components = l2;
    }

    fn get_rewards(&mut self, state: &GameSnapshot, shared_info: &mut SI) -> (rewards: Vec<
        i64,
    >) {
        let n_cars = state.num_cars();
        let mut totals: Vec<i64> = Vec::new();
        let mut i: usize = 0;
        while i < n_cars
            invariant
                i <= n_cars,
                totals@.len() == i,
                forall|j: int| 0 <= j < i ==> totals@[j] == 0i64,
            decreases n_cars - i,
        {
            totals.push(0i64);
            i = i + 1;
        }
        let mut l = RewardList::Nil;
        core::mem::swap(&mut l, &mut self.components);
        let l2 = rewards_list(l, state, shared_info, &mut totals);
        self.components = l2;
        proof {
            let (lg, sig, outs) = spec_rewards_chain(
                old(self).components,
                *state,
                *old(shared_info),
            );
            assert(totals@ =~= Seq::new(
                state.cars@.len(),
                |j: int| spec_sum_from(0i64, outs, j),
            ));
        }
        totals
    }
}

/// The composite reward law: for any roster size, the composite's reward
/// for agent `j` is the saturating sum, in order, of its constituents'
/// rewards for agent `j`, the constituents evaluated left to right with the
/// shared context threaded through.
pub proof fn lemma_combined_reward_elementwise<SI, R: Reward<SI>>(
    c: CombinedReward<R>,
    state: GameSnapshot,
    si: SI,
)
    ensures
        ({
            let (c2, si2, rs) = c.rewards_spec(state, si);
            let (l2, si2b, outs) = spec_rewards_chain(c.components, state, si);
            &&& rs.len() == state.cars@.len()
            &&& forall|j: int| 0 <= j < rs.len() ==> rs[j] == spec_sum_from(0i64, outs, j)
        }),
{
}

} // verus!
