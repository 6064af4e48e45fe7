//! What holds across the engine's operations: stake is only moved, a withdrawn
//! vote takes off exactly its weight, unlocking again changes nothing, the
//! decision of a referendum depends on its tally and threshold alone, and a
//! decided referendum stays decided.

use vstd::prelude::*;

use crate::gov::{
    call_id_of, cancel_hit, cancel_kept, cancel_weight, reserve_due, reserves_due, reserves_kept,
    sat_add, sat_sub, side_of, status_of, unlock_events, unlock_hit, unlock_kept, Call, Error, Event,
    MemmberData, Opinion, Pallet, ReferendumInfo, ReserveRecord, VoteInfo, H256,
};
use crate::{AccountId, Balance, BlockNumber, DispatchError, PropIndex, ReferendumIndex};

verus! {

/// Proposing only moves stake: for every account, its free balance plus the
/// stake recorded for it is what it was before.
pub proof fn lemma_propose_conserves_stake<P: Copy>(
    post: Pallet<P>,
    pre: Pallet<P>,
    who: AccountId,
    scope: MemmberData,
    proposal: Call,
    value: Balance,
    now: BlockNumber,
    hash: H256,
    a: AccountId,
)
    requires
        pre.wf(),
        Pallet::proposed(post, pre, who, scope, proposal, value, now, hash),
    ensures
        post.stake_of(a) == pre.stake_of(a),
{
    assert(post.reserve_of@.drop_last() =~= pre.reserve_of@);
}

/// Seconding only moves stake: for every account, its free balance plus the
/// stake recorded for it is what it was before.
pub proof fn lemma_second_conserves_stake<P: Copy>(
    post: Pallet<P>,
    pre: Pallet<P>,
    who: AccountId,
    idx: PropIndex,
    now: BlockNumber,
    a: AccountId,
)
    requires
        pre.wf(),
        Pallet::recreated(post, pre, who, idx, now),
    ensures
        post.stake_of(a) == pre.stake_of(a),
{
    assert(post.reserve_of@.drop_last() =~= pre.reserve_of@);
}

/// The side that `o` is not.
pub open spec fn opposite(o: Opinion) -> Opinion {
    match o {
        Opinion::YES => Opinion::NO,
        Opinion::NO => Opinion::YES,
    }
}

/// Where only vote `k` is removed, the removed weight of a side is that
/// vote's weight if it is on that side, else nothing.
proof fn lemma_cancel_weight_single<P>(
    vs: Seq<VoteInfo<P>>,
    marks: Seq<bool>,
    who: AccountId,
    index: ReferendumIndex,
    side: Opinion,
    k: int,
    n: nat,
)
    requires
        0 <= k < vs.len(),
        n <= vs.len(),
        forall|j: int| 0 <= j < vs.len() && j != k ==> !cancel_hit(vs, marks, who, index, j),
    ensures
        cancel_weight(vs, marks, who, index, side, n) == if k < n && cancel_hit(vs, marks, who, index, k)
            && vs[k].opinion == side {
            vs[k].vote_weight as int
        } else {
            0
        },
    decreases n,
{
    if n > 0 {
        lemma_cancel_weight_single(vs, marks, who, index, side, k, (n - 1) as nat);
    }
}

/// Withdrawing one vote of weight `w` takes exactly `w` off its side,
/// stopping at zero, and leaves the other side as it was.
pub proof fn lemma_cancel_one_vote<P: Copy>(
    post: Pallet<P>,
    pre: Pallet<P>,
    who: AccountId,
    index: ReferendumIndex,
    marks: Seq<bool>,
    k: int,
)
    requires
        Pallet::cancelled(post, pre, who, index, marks),
        0 <= k < pre.votes_of@.len(),
        cancel_hit(pre.votes_of@, marks, who, index, k),
        forall|j: int| 0 <= j < pre.votes_of@.len() && j != k ==> !cancel_hit(pre.votes_of@, marks, who, index, j),
    ensures
        side_of(status_of(post.referenda@[index as int]).tally, pre.votes_of@[k].opinion) == sat_sub(
            side_of(status_of(pre.referenda@[index as int]).tally, pre.votes_of@[k].opinion),
            pre.votes_of@[k].vote_weight as int,
        ),
        side_of(status_of(post.referenda@[index as int]).tally, opposite(pre.votes_of@[k].opinion))
            == side_of(status_of(pre.referenda@[index as int]).tally, opposite(pre.votes_of@[k].opinion)),
        post.votes_of@.len() == pre.votes_of@.len() - 1,
{
    let vs = pre.votes_of@;
    let n = vs.len();
    lemma_cancel_weight_single(vs, marks, who, index, Opinion::YES, k, n);
    lemma_cancel_weight_single(vs, marks, who, index, Opinion::NO, k, n);
    lemma_cancel_kept_len(vs, marks, who, index, k, n);
}

/// Where only vote `k` is removed, one vote fewer is kept.
proof fn lemma_cancel_kept_len<P>(
    vs: Seq<VoteInfo<P>>,
    marks: Seq<bool>,
    who: AccountId,
    index: ReferendumIndex,
    k: int,
    n: nat,
)
    requires
        0 <= k < vs.len(),
        n <= vs.len(),
        cancel_hit(vs, marks, who, index, k),
        forall|j: int| 0 <= j < vs.len() && j != k ==> !cancel_hit(vs, marks, who, index, j),
    ensures
        cancel_kept(vs, marks, who, index, n).len() == if k < n {
            n - 1
        } else {
            n as int
        },
    decreases n,
{
    if n > 0 {
        lemma_cancel_kept_len(vs, marks, who, index, k, (n - 1) as nat);
    }
}

/// What stays after a release holds no record that is due.
proof fn lemma_kept_not_due(rs: Seq<ReserveRecord>, who: AccountId, now: BlockNumber, n: nat)
    requires
        n <= rs.len(),
    ensures
        forall|j: int|
            0 <= j < reserves_kept(rs, who, now, n).len() ==> !reserve_due(
                #[trigger] reserves_kept(rs, who, now, n)[j],
                who,
                now,
            ),
    decreases n,
{
    if n > 0 {
        lemma_kept_not_due(rs, who, now, (n - 1) as nat);
        let rest = reserves_kept(rs, who, now, (n - 1) as nat);
        let kept = reserves_kept(rs, who, now, n);
        assert forall|j: int| 0 <= j < kept.len() implies !reserve_due(#[trigger] kept[j], who, now) by {
            if j < rest.len() {
                assert(kept[j] == rest[j]);
            }
        }
    }
}

/// Where no record is due, a release keeps them all and frees nothing.
proof fn lemma_nothing_due(rs: Seq<ReserveRecord>, who: AccountId, now: BlockNumber, n: nat)
    requires
        n <= rs.len(),
        forall|j: int| 0 <= j < rs.len() ==> !reserve_due(#[trigger] rs[j], who, now),
    ensures
        reserves_kept(rs, who, now, n) == rs.subrange(0, n as int),
        reserves_due(rs, who, now, n) == 0,
    decreases n,
{
    if n > 0 {
        lemma_nothing_due(rs, who, now, (n - 1) as nat);
        assert(rs.subrange(0, n as int) =~= rs.subrange(0, n - 1).push(rs[n - 1]));
    } else {
        assert(rs.subrange(0, 0) =~= Seq::<ReserveRecord>::empty());
    }
}

/// Where no vote is released, all are kept and nothing is reported.
proof fn lemma_no_vote_released<P>(vs: Seq<VoteInfo<P>>, marks: Seq<bool>, who: AccountId, now: BlockNumber, n: nat)
    requires
        n <= vs.len(),
        forall|j: int| 0 <= j < vs.len() ==> !unlock_hit(vs, marks, who, now, j),
    ensures
        unlock_kept(vs, marks, who, now, n) == vs.subrange(0, n as int),
        unlock_events(vs, marks, who, now, n) == Seq::<Event<P>>::empty(),
    decreases n,
{
    if n > 0 {
        lemma_no_vote_released(vs, marks, who, now, (n - 1) as nat);
        assert(vs.subrange(0, n as int) =~= vs.subrange(0, n - 1).push(vs[n - 1]));
    } else {
        assert(vs.subrange(0, 0) =~= Seq::<VoteInfo<P>>::empty());
    }
}

/// Unlocking twice at the same block: where the pledges refuse again the
/// votes that they refused the first time, the second call releases nothing,
/// removes nothing and reports only a release of zero.
pub proof fn lemma_unlock_idempotent<P: Copy>(
    pre: Pallet<P>,
    mid: Pallet<P>,
    post: Pallet<P>,
    who: AccountId,
    now: BlockNumber,
    marks1: Seq<bool>,
    events1: Seq<Event<P>>,
    marks2: Seq<bool>,
    events2: Seq<Event<P>>,
)
    requires
        Pallet::unlocked(mid, pre, who, now, marks1, events1),
        Pallet::unlocked(post, mid, who, now, marks2, events2),
        forall|j: int| 0 <= j < mid.votes_of@.len() ==> !unlock_hit(mid.votes_of@, marks2, who, now, j),
    ensures
        events2 == seq![Event::<P>::Unreserved(who, 0)],
        post.reserve_of@ == mid.reserve_of@,
        post.votes_of@ == mid.votes_of@,
        forall|a: AccountId| #[trigger] post.assets.account(a) == mid.assets.account(a),
{
    let rs = mid.reserve_of@;
    lemma_kept_not_due(pre.reserve_of@, who, now, pre.reserve_of@.len());
    lemma_nothing_due(rs, who, now, rs.len());
    assert(rs.subrange(0, rs.len() as int) =~= rs);
    let vs = mid.votes_of@;
    lemma_no_vote_released(vs, marks2, who, now, vs.len());
    assert(vs.subrange(0, vs.len() as int) =~= vs);
    assert(events2 =~= seq![Event::<P>::Unreserved(who, 0)]);
}

/// The decision of a referendum depends on its tally alone: two decided
/// referenda with the same tally are approved alike, exactly when the votes
/// for weigh at least as much as those against.
pub proof fn lemma_enactment_determinism<P: Copy>(
    post1: Pallet<P>,
    pre1: Pallet<P>,
    index1: ReferendumIndex,
    now1: BlockNumber,
    result1: Result<(), DispatchError>,
    post2: Pallet<P>,
    pre2: Pallet<P>,
    index2: ReferendumIndex,
    now2: BlockNumber,
    result2: Result<(), DispatchError>,
)
    requires
        Pallet::enacted(post1, pre1, index1, now1, result1),
        Pallet::enacted(post2, pre2, index2, now2, result2),
        status_of(pre1.referenda@[index1 as int]).tally == status_of(pre2.referenda@[index2 as int]).tally,
    ensures
        post1.referenda@[index1 as int] matches ReferendumInfo::Finished { approved: a1, .. }
            && post2.referenda@[index2 as int] matches ReferendumInfo::Finished { approved: a2, .. }
            && a1 == a2 && a1 == (status_of(pre1.referenda@[index1 as int]).tally.yes >= status_of(
            pre1.referenda@[index1 as int],
        ).tally.no),
{
}

/// Once voting has ended and the delay has passed, a referendum is decided
/// exactly when the votes cast weigh at least its action's threshold, and
/// refused for too little weight otherwise.
pub proof fn lemma_threshold_gate<P: Copy>(pre: Pallet<P>, index: ReferendumIndex, now: BlockNumber)
    requires
        index < pre.referenda@.len(),
        pre.referenda@[index as int] is Ongoing,
        status_of(pre.referenda@[index as int]).end <= now,
        sat_add(status_of(pre.referenda@[index as int]).end, status_of(pre.referenda@[index as int]).delay) <= now,
    ensures
        pre.run_error(index, now) is None <==> status_of(pre.referenda@[index as int]).tally.yes + status_of(
            pre.referenda@[index as int],
        ).tally.no >= pre.min_weight(call_id_of(status_of(pre.referenda@[index as int]).proposal)),
        pre.run_error(index, now) is Some ==> pre.run_error(index, now) == Some(
            DispatchError::Gov(Error::VoteWeightTooLow),
        ),
{
}

/// A decided referendum is never decided again: at any block, running it
/// fails with `ReferendumFinished`.
pub proof fn lemma_no_double_enactment<P: Copy>(
    post: Pallet<P>,
    pre: Pallet<P>,
    index: ReferendumIndex,
    now: BlockNumber,
    result: Result<(), DispatchError>,
    later: BlockNumber,
)
    requires
        Pallet::enacted(post, pre, index, now, result),
    ensures
        post.run_error(index, later) == Some(DispatchError::Gov(Error::ReferendumFinished)),
{
}

} // verus!
