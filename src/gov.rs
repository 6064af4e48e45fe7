//! The governance engine of one organization: proposals backed by stake, the
//! launch of referenda, pledged votes, enactment after a delay, and the release
//! of stake once its time has come.
//!
//! The host supplies the signed caller and the current block number to every
//! operation. An operation either succeeds and makes all of its changes, or
//! fails and makes none.

use std::collections::HashMap;
use vstd::prelude::*;

use crate::assets;
use crate::dao;
use crate::hashing::call_hash;
use crate::{AccountId, Balance, BlockNumber, CallId, DaoAssetId, DispatchError, PropIndex, ReferendumIndex};

verus! {

broadcast use vstd::std_specs::hash::group_hash_axioms;

/// The digest that identifies a proposal's action.
pub type H256 = [u8; 32];

/// The member set that a proposal is addressed to.
#[derive(Clone, Copy, Debug, PartialEq, Eq, Structural)]
pub enum MemmberData {
    /// All members of the organization.
    GLOBAL,
    /// The members of one guild.
    GUILD(u64),
    /// The members of one project.
    PROJECT(u64),
}

/// The weight of the votes for and against in a referendum.
#[derive(Clone, Copy, Debug, PartialEq, Eq, Structural)]
pub struct Tally {
    /// The weight of the votes for.
    pub yes: Balance,
    /// The weight of the votes against.
    pub no: Balance,
}

/// For or against.
#[derive(Clone, Copy, Debug, PartialEq, Eq, Structural)]
pub enum Opinion {
    /// For.
    YES,
    /// Against.
    NO,
}

/// The actions that a proposal can carry. An approved one is carried out with
/// the authority of the organization's account.
#[derive(Clone, Copy, Debug, PartialEq, Eq, Structural)]
pub enum Call {
    /// Sets the vote weight that actions of kind `call_id` need.
    SetMinVoteWeightForEveryCall { call_id: CallId, min_vote_weight: Balance },
    /// Sets how many proposals may wait at once.
    SetMaxPublicProps { max: u32 },
    /// Sets the interval between referenda.
    SetLaunchPeriod { period: BlockNumber },
    /// Sets the least stake of a proposal.
    SetMinimumDeposit { min: Balance },
    /// Sets how long a referendum is open for votes.
    SetVotingPeriod { period: BlockNumber },
    /// Sets how long stake stays reserved.
    SetRerservePeriod { period: BlockNumber },
    /// Sets the delay between the end of the vote and enactment.
    SetRunmentPeriod { period: BlockNumber },
    /// Makes an account a member.
    AddMember { who: AccountId },
    /// Takes an account out of the members.
    RemoveMember { who: AccountId },
    /// Adds an account to a project's members.
    ProjectJoinRequest { project_id: u64, who: AccountId },
    /// Adds an account to a guild's members.
    GuildJoinRequest { guild_id: u64, who: AccountId },
}

/// The kind of a `SetMinVoteWeightForEveryCall` action.
pub const CALL_SET_MIN_VOTE_WEIGHT: CallId = 408;

/// The kind of a `SetMaxPublicProps` action.
pub const CALL_SET_MAX_PUBLIC_PROPS: CallId = 409;

/// The kind of a `SetLaunchPeriod` action.
pub const CALL_SET_LAUNCH_PERIOD: CallId = 410;

/// The kind of a `SetMinimumDeposit` action.
pub const CALL_SET_MINIMUM_DEPOSIT: CallId = 411;

/// The kind of a `SetVotingPeriod` action.
pub const CALL_SET_VOTING_PERIOD: CallId = 412;

/// The kind of a `SetRerservePeriod` action.
pub const CALL_SET_RESERVE_PERIOD: CallId = 413;

/// The kind of a `SetRunmentPeriod` action.
pub const CALL_SET_ENACTMENT_PERIOD: CallId = 414;

/// The kind of an `AddMember` action.
pub const CALL_ADD_MEMBER: CallId = 501;

/// The kind of a `RemoveMember` action.
pub const CALL_REMOVE_MEMBER: CallId = 502;

/// The kind of a `ProjectJoinRequest` action.
pub const CALL_PROJECT_JOIN_REQUEST: CallId = 601;

/// The kind of a `GuildJoinRequest` action.
pub const CALL_GUILD_JOIN_REQUEST: CallId = 701;

/// The kind of an action.
pub open spec fn call_id_of(c: Call) -> CallId {
    match c {
        Call::SetMinVoteWeightForEveryCall { .. } => CALL_SET_MIN_VOTE_WEIGHT,
        Call::SetMaxPublicProps { .. } => CALL_SET_MAX_PUBLIC_PROPS,
        Call::SetLaunchPeriod { .. } => CALL_SET_LAUNCH_PERIOD,
        Call::SetMinimumDeposit { .. } => CALL_SET_MINIMUM_DEPOSIT,
        Call::SetVotingPeriod { .. } => CALL_SET_VOTING_PERIOD,
        Call::SetRerservePeriod { .. } => CALL_SET_RESERVE_PERIOD,
        Call::SetRunmentPeriod { .. } => CALL_SET_ENACTMENT_PERIOD,
        Call::AddMember { .. } => CALL_ADD_MEMBER,
        Call::RemoveMember { .. } => CALL_REMOVE_MEMBER,
        Call::ProjectJoinRequest { .. } => CALL_PROJECT_JOIN_REQUEST,
        Call::GuildJoinRequest { .. } => CALL_GUILD_JOIN_REQUEST,
    }
}

impl Call {
    /// The kind of this action.
    pub fn call_id(&self) -> (r: CallId)
        ensures
            r == call_id_of(*self),
    {
        match self {
            Call::SetMinVoteWeightForEveryCall { .. } => CALL_SET_MIN_VOTE_WEIGHT,
            Call::SetMaxPublicProps { .. } => CALL_SET_MAX_PUBLIC_PROPS,
            Call::SetLaunchPeriod { .. } => CALL_SET_LAUNCH_PERIOD,
            Call::SetMinimumDeposit { .. } => CALL_SET_MINIMUM_DEPOSIT,
            Call::SetVotingPeriod { .. } => CALL_SET_VOTING_PERIOD,
            Call::SetRerservePeriod { .. } => CALL_SET_RESERVE_PERIOD,
            Call::SetRunmentPeriod { .. } => CALL_SET_ENACTMENT_PERIOD,
            Call::AddMember { .. } => CALL_ADD_MEMBER,
            Call::RemoveMember { .. } => CALL_REMOVE_MEMBER,
            Call::ProjectJoinRequest { .. } => CALL_PROJECT_JOIN_REQUEST,
            Call::GuildJoinRequest { .. } => CALL_GUILD_JOIN_REQUEST,
        }
    }
}

/// A proposal waiting in the queue.
#[derive(Clone, Copy, Debug)]
pub struct Proposal {
    /// Its index, given in the order of submission.
    pub index: PropIndex,
    /// The digest of its action.
    pub hash: H256,
    /// What it would do.
    pub action: Call,
    /// Whom it is addressed to.
    pub scope: MemmberData,
    /// Who submitted it.
    pub proposer: AccountId,
}

/// The stake behind a proposal: who put it up, and how much each did.
#[derive(Clone, Debug)]
pub struct Deposit {
    /// The accounts that staked, the proposer first.
    pub depositors: Vec<AccountId>,
    /// What each of them staked.
    pub amount: Balance,
}

/// Stake that `who` may take back from block `unlock_block` on.
#[derive(Clone, Copy, Debug, PartialEq, Eq, Structural)]
pub struct ReserveRecord {
    /// The account that staked.
    pub who: AccountId,
    /// How much.
    pub amount: Balance,
    /// The first block at which it can be released.
    pub unlock_block: BlockNumber,
}

/// A referendum that is open.
#[derive(Clone, Copy, Debug, PartialEq, Eq, Structural)]
pub struct ReferendumStatus {
    /// The block at which voting ends.
    pub end: BlockNumber,
    /// What is voted on.
    pub proposal: Call,
    /// How many blocks after `end` an approved action may be carried out.
    pub delay: BlockNumber,
    /// The votes so far.
    pub tally: Tally,
}

/// A referendum, open or decided.
#[derive(Clone, Copy, Debug, PartialEq, Eq, Structural)]
pub enum ReferendumInfo {
    /// Open.
    Ongoing(ReferendumStatus),
    /// Decided at block `end`; `approved` tells how.
    Finished { approved: bool, end: BlockNumber },
}

/// A vote, kept until its weight is released.
#[derive(Clone, Copy, Debug)]
pub struct VoteInfo<P> {
    /// Who voted.
    pub voter: AccountId,
    /// The organization.
    pub dao_id: DaoAssetId,
    /// The asset that the organization keeps.
    pub asset_id: DaoAssetId,
    /// What the voter pledged.
    pub pledge: P,
    /// For or against.
    pub opinion: Opinion,
    /// The weight that the pledge gave.
    pub vote_weight: Balance,
    /// The first block at which the vote can be released.
    pub unlock_block: BlockNumber,
    /// The referendum voted on.
    pub referendum_index: ReferendumIndex,
}

/// What a voter puts behind a vote. The organization's users provide it: it
/// turns a conviction into a weight and a lock time, and says when the
/// pledge may be given back.
pub trait Pledge {
    /// The weight of a vote and how many blocks it stays locked, or why the
    /// pledge cannot vote.
    fn try_vote(&self, who: &AccountId, dao_id: &DaoAssetId, conviction: &u64) -> Result<
        (Balance, BlockNumber),
        DispatchError,
    >;

    /// Succeeds when the pledge may be given back.
    fn vote_end_do(&self, who: &AccountId, dao_id: &DaoAssetId) -> Result<(), DispatchError>;
}

/// A value that can be read as an `A`.
pub trait ConvertInto<A> {
    /// This value as an `A`.
    fn convert_into(&self) -> A;
}

impl<A: Default> ConvertInto<A> for () {
    fn convert_into(&self) -> A {
        A::default()
    }
}

/// Why the engine refused an operation.
#[derive(Clone, Copy, Debug, PartialEq, Eq, Structural)]
pub enum Error {
    /// A counter or a block number would pass its largest value.
    Overflow,
    /// The stake is below the organization's minimum.
    DepositTooLow,
    /// The queue of proposals is full.
    TooManyProposals,
    /// No such proposal.
    ProposalMissing,
    /// The proposal's stake is gone.
    NoneWaiting,
    /// No such referendum.
    ReferendumNotExists,
    /// The referendum is decided.
    ReferendumFinished,
    /// Voting has not ended yet.
    VoteNotEnd,
    /// Voting has ended, but the enactment delay has not passed.
    InDelayTime,
    /// Voting has ended.
    VoteEnd,
    /// The referendum was decided against the proposal.
    VoteEndButNotPass,
    /// It is not yet time for another referendum.
    NotTableTime,
    /// The votes cast weigh less than the action's threshold.
    VoteWeightTooLow,
    /// The pledge is not enough.
    PledgeNotEnough,
    /// The caller is not in the member set asked for.
    Gov403,
}

/// What a successful operation reports.
#[derive(Debug)]
pub enum Event<P> {
    /// A proposal was submitted; its action has this digest.
    Proposed(DaoAssetId, H256),
    /// A proposal was seconded with this stake.
    Recreate(DaoAssetId, Balance),
    /// A referendum was opened.
    StartTable(DaoAssetId, ReferendumIndex),
    /// A vote was cast.
    Vote(DaoAssetId, ReferendumIndex, P),
    /// Votes on a referendum were withdrawn.
    CancelVote(DaoAssetId, ReferendumIndex),
    /// A referendum was decided; `result` is what carrying out the action gave.
    EnactProposal { dao_id: DaoAssetId, index: ReferendumIndex, result: Result<(), DispatchError> },
    /// A vote's pledge was given back.
    Unlock(AccountId, DaoAssetId, P),
    /// This much stake was released.
    Unreserved(AccountId, Balance),
    /// The threshold of an action kind was set.
    SetMinVoteWeight(DaoAssetId, CallId, Balance),
    /// The queue bound was set.
    SetMaxPublicProps { dao_id: DaoAssetId, max: u32 },
    /// The launch period was set.
    SetLaunchPeriod { dao_id: DaoAssetId, period: BlockNumber },
    /// The least stake was set.
    SetMinimumDeposit { dao_id: DaoAssetId, min: Balance },
    /// The voting period was set.
    SetVotingPeriod { dao_id: DaoAssetId, period: BlockNumber },
    /// The reserve period was set.
    SetReservePeriod { dao_id: DaoAssetId, period: BlockNumber },
    /// The enactment period was set.
    SetEnactmentPeriod { dao_id: DaoAssetId, period: BlockNumber },
}

/// The settings of an organization's governance.
#[derive(Clone, Copy, Debug, PartialEq, Eq, Structural)]
pub struct GovConfig {
    /// How many proposals may wait at once.
    pub max_public_props: u32,
    /// The interval between referenda.
    pub launch_period: BlockNumber,
    /// The least stake of a proposal.
    pub minimum_deposit: Balance,
    /// How long a referendum is open for votes.
    pub voting_period: BlockNumber,
    /// How long stake stays reserved.
    pub reserve_period: BlockNumber,
    /// The delay between the end of the vote and enactment.
    pub enactment_period: BlockNumber,
}

/// The queue bound of an organization that has not set one.
#[allow(non_snake_case)]
pub fn MaxPublicPropsOnEmpty() -> (r: u32)
    ensures
        r == 100,
{
    100
}

/// The launch period of an organization that has not set one.
#[allow(non_snake_case)]
pub fn LaunchPeriodOnEmpty() -> (r: BlockNumber)
    ensures
        r == 900,
{
    900
}

/// The voting period of an organization that has not set one.
#[allow(non_snake_case)]
pub fn VotingPeriodOnEmpty() -> (r: BlockNumber)
    ensures
        r == 900,
{
    900
}

/// The reserve period of an organization that has not set one.
#[allow(non_snake_case)]
pub fn ReservePeriodOnEmpty() -> (r: BlockNumber)
    ensures
        r == 900,
{
    900
}

/// The enactment period of an organization that has not set one.
#[allow(non_snake_case)]
pub fn EnactmentPeriodOnEmpty() -> (r: BlockNumber)
    ensures
        r == 900,
{
    900
}

/// The sum of the amounts of `who`'s records in `rs`.
pub open spec fn reserved_sum(rs: Seq<ReserveRecord>, who: AccountId) -> int
    decreases rs.len(),
{
    if rs.len() == 0 {
        0
    } else {
        reserved_sum(rs.drop_last(), who) + if rs.last().who == who {
            rs.last().amount as int
        } else {
            0
        }
    }
}
/// `a + b`, stopping at the largest `u64`.
pub open spec fn sat_add(a: u64, b: u64) -> u64 {
    if a + b > u64::MAX {
        u64::MAX
    } else {
        (a + b) as u64
    }
}
/// `a - w`, stopping at zero.
pub open spec fn sat_sub(a: u64, w: int) -> u64 {
    if w >= a {
        0
    } else {
        (a - w) as u64
    }
}

/// The status of an open referendum.
pub open spec fn status_of(info: ReferendumInfo) -> ReferendumStatus {
    match info {
        ReferendumInfo::Ongoing(s) => s,
        ReferendumInfo::Finished { .. } => arbitrary(),
    }
}

/// `t` with `w` more weight on the side of `opinion`.
pub open spec fn tally_add(t: Tally, opinion: Opinion, w: u64) -> Tally {
    match opinion {
        Opinion::YES => Tally { yes: (t.yes + w) as u64, no: t.no },
        Opinion::NO => Tally { yes: t.yes, no: (t.no + w) as u64 },
    }
}

/// The weight on the side of `opinion`.
pub open spec fn side_of(t: Tally, opinion: Opinion) -> u64 {
    match opinion {
        Opinion::YES => t.yes,
        Opinion::NO => t.no,
    }
}

/// Vote `i` of `vs` is `who`'s vote on referendum `index` and `marks` says
/// that its pledge may be given back.
pub open spec fn cancel_hit<P>(vs: Seq<VoteInfo<P>>, marks: Seq<bool>, who: AccountId, index: ReferendumIndex, i: int) -> bool {
    &&& i < marks.len()
    &&& marks[i]
    &&& vs[i].voter == who
    &&& vs[i].referendum_index == index
}

/// The first `n` votes of `vs`, without those that a cancellation removes.
pub open spec fn cancel_kept<P>(vs: Seq<VoteInfo<P>>, marks: Seq<bool>, who: AccountId, index: ReferendumIndex, n: nat) -> Seq<VoteInfo<P>>
    decreases n,
{
    if n == 0 {
        Seq::empty()
    } else {
        let rest = cancel_kept(vs, marks, who, index, (n - 1) as nat);
        if cancel_hit(vs, marks, who, index, n - 1) {
            rest
        } else {
            rest.push(vs[n - 1])
        }
    }
}

/// The weight of the votes on the side `side` among the first `n` votes of
/// `vs` that a cancellation removes. A vote that is not against counts as for.
pub open spec fn cancel_weight<P>(vs: Seq<VoteInfo<P>>, marks: Seq<bool>, who: AccountId, index: ReferendumIndex, side: Opinion, n: nat) -> int
    decreases n,
{
    if n == 0 {
        0
    } else {
        cancel_weight(vs, marks, who, index, side, (n - 1) as nat) + if cancel_hit(vs, marks, who, index, n - 1)
            && vs[n - 1].opinion == side {
            vs[n - 1].vote_weight as int
        } else {
            0
        }
    }
}
/// No removed weight is negative.
pub proof fn lemma_cancel_weight_nonneg<P>(vs: Seq<VoteInfo<P>>, marks: Seq<bool>, who: AccountId, index: ReferendumIndex, side: Opinion, n: nat)
    ensures
        cancel_weight(vs, marks, who, index, side, n) >= 0,
    decreases n,
{
    if n > 0 {
        lemma_cancel_weight_nonneg(vs, marks, who, index, side, (n - 1) as nat);
    }
}

/// How a referendum with tally `tally` is decided against threshold
/// `threshold`: not at all while the votes weigh less than the threshold,
/// else approved when those for weigh at least as much as those against.
pub open spec fn enactment_outcome(tally: Tally, threshold: Balance) -> Option<bool> {
    if tally.yes + tally.no >= threshold {
        Some(tally.yes >= tally.no)
    } else {
        None
    }
}

/// How a referendum with tally `tally` is decided against threshold `threshold`.
pub fn decide(tally: Tally, threshold: Balance) -> (r: Option<bool>)
    ensures
        r == enactment_outcome(tally, threshold),
{
    if tally.yes.saturating_add(tally.no) >= threshold {
        Some(tally.yes >= tally.no)
    } else {
        None
    }
}
/// Record `r` is `who`'s and its time has come at block `now`.
pub open spec fn reserve_due(r: ReserveRecord, who: AccountId, now: BlockNumber) -> bool {
    r.who == who && r.unlock_block <= now
}

/// The first `n` records of `rs` that are not released for `who` at block `now`.
pub open spec fn reserves_kept(rs: Seq<ReserveRecord>, who: AccountId, now: BlockNumber, n: nat) -> Seq<ReserveRecord>
    decreases n,
{
    if n == 0 {
        Seq::empty()
    } else {
        let rest = reserves_kept(rs, who, now, (n - 1) as nat);
        if reserve_due(rs[n - 1], who, now) {
            rest
        } else {
            rest.push(rs[n - 1])
        }
    }
}

/// The amount of the first `n` records of `rs` that are released for `who` at block `now`.
pub open spec fn reserves_due(rs: Seq<ReserveRecord>, who: AccountId, now: BlockNumber, n: nat) -> int
    decreases n,
{
    if n == 0 {
        0
    } else {
        reserves_due(rs, who, now, (n - 1) as nat) + if reserve_due(rs[n - 1], who, now) {
            rs[n - 1].amount as int
        } else {
            0
        }
    }
}

/// Vote `i` of `vs` is `who`'s, its lock has passed at block `now`, and
/// `marks` says that its pledge may be given back.
pub open spec fn unlock_hit<P>(vs: Seq<VoteInfo<P>>, marks: Seq<bool>, who: AccountId, now: BlockNumber, i: int) -> bool {
    &&& i < marks.len()
    &&& marks[i]
    &&& vs[i].voter == who
    &&& vs[i].unlock_block <= now
}

/// The first `n` votes of `vs` that stay after `who` unlocks at block `now`.
pub open spec fn unlock_kept<P>(vs: Seq<VoteInfo<P>>, marks: Seq<bool>, who: AccountId, now: BlockNumber, n: nat) -> Seq<VoteInfo<P>>
    decreases n,
{
    if n == 0 {
        Seq::empty()
    } else {
        let rest = unlock_kept(vs, marks, who, now, (n - 1) as nat);
        if unlock_hit(vs, marks, who, now, n - 1) {
            rest
        } else {
            rest.push(vs[n - 1])
        }
    }
}

/// The reports of the first `n` votes of `vs` that are released when `who`
/// unlocks at block `now`, in order.
pub open spec fn unlock_events<P>(vs: Seq<VoteInfo<P>>, marks: Seq<bool>, who: AccountId, now: BlockNumber, n: nat) -> Seq<Event<P>>
    decreases n,
{
    if n == 0 {
        Seq::empty()
    } else {
        let rest = unlock_events(vs, marks, who, now, (n - 1) as nat);
        if unlock_hit(vs, marks, who, now, n - 1) {
            rest.push(Event::Unlock(who, vs[n - 1].asset_id, vs[n - 1].pledge))
        } else {
            rest
        }
    }
}

/// The smaller of `a` and `b`.
pub open spec fn min_int(a: int, b: int) -> int {
    if a <= b {
        a
    } else {
        b
    }
}

/// No released amount is negative.
pub proof fn lemma_reserves_due_nonneg(rs: Seq<ReserveRecord>, who: AccountId, now: BlockNumber, n: nat)
    ensures
        reserves_due(rs, who, now, n) >= 0,
    decreases n,
{
    if n > 0 {
        lemma_reserves_due_nonneg(rs, who, now, (n - 1) as nat);
    }
}
/// The governance state of one organization, with its directory and the
/// ledger of its asset.
#[derive(Clone, Debug)]
pub struct Pallet<P> {
    /// The organization's directory.
    pub dao: dao::Pallet,
    /// The ledger of the organization's asset, from which stake is reserved.
    pub assets: assets::Pallet,
    /// The settings.
    pub config: GovConfig,
    /// The vote weight that each kind of action needs; zero where unset.
    pub min_vote_weight_of: HashMap<CallId, Balance>,
    /// How many proposals were ever submitted; the index of the next one.
    pub public_prop_count: PropIndex,
    /// The proposals waiting for a referendum.
    pub public_props: Vec<Proposal>,
    /// The stake behind each waiting proposal, by proposal index.
    pub deposit_of: HashMap<PropIndex, Deposit>,
    /// Stake waiting to be released, in the order it was put up.
    pub reserve_of: Vec<ReserveRecord>,
    /// The referenda, by index.
    pub referenda: Vec<ReferendumInfo>,
    /// The votes not yet released, in the order they were cast.
    pub votes_of: Vec<VoteInfo<P>>,
    /// The launch counter that referenda are gated by.
    pub launch_tag: BlockNumber,
}

impl<P: Copy> Pallet<P> {
    /// The directory's member sets are sorted and every ledger total fits.
    pub open spec fn wf(&self) -> bool {
        self.dao.wf() && self.assets.wf()
    }

    /// The organization's id.
    pub open spec fn dao_id(&self) -> DaoAssetId {
        self.dao.dao_id
    }

    /// The vote weight that actions of kind `call_id` need.
    pub open spec fn min_weight(&self, call_id: CallId) -> Balance {
        if self.min_vote_weight_of@.contains_key(call_id) {
            self.min_vote_weight_of@[call_id]
        } else {
            0
        }
    }

    /// The governance of a new organization, with the default settings and
    /// nothing proposed.
    pub fn new(dao: dao::Pallet, assets: assets::Pallet) -> (r: Self)
        requires
            dao.wf(),
            assets.wf(),
        ensures
            r.wf(),
            r.dao == dao,
            r.assets == assets,
            r.config == (GovConfig {
                max_public_props: 100,
                launch_period: 900,
                minimum_deposit: 0,
                voting_period: 900,
                reserve_period: 900,
                enactment_period: 900,
            }),
            r.min_vote_weight_of@ == Map::<CallId, Balance>::empty(),
            r.public_prop_count == 0,
            r.public_props@ == Seq::<Proposal>::empty(),
            r.deposit_of@ == Map::<PropIndex, Deposit>::empty(),
            r.reserve_of@ == Seq::<ReserveRecord>::empty(),
            r.referenda@ == Seq::<ReferendumInfo>::empty(),
            r.votes_of@ == Seq::<VoteInfo<P>>::empty(),
            r.launch_tag == 0,
    {
        Pallet {
            dao,
            assets,
            config: GovConfig {
                max_public_props: MaxPublicPropsOnEmpty(),
                launch_period: LaunchPeriodOnEmpty(),
                minimum_deposit: 0,
                voting_period: VotingPeriodOnEmpty(),
                reserve_period: ReservePeriodOnEmpty(),
                enactment_period: EnactmentPeriodOnEmpty(),
            },
            min_vote_weight_of: HashMap::new(),
            public_prop_count: 0,
            public_props: Vec::new(),
            deposit_of: HashMap::new(),
            reserve_of: Vec::new(),
            referenda: Vec::new(),
            votes_of: Vec::new(),
            launch_tag: 0,
        }
    }

    /// Sets the vote weight that actions of kind `call_id` need; only the
    /// organization's account may.
    pub fn set_min_vote_weight_for_every_call(
        &mut self,
        who: AccountId,
        call_id: CallId,
        min_vote_weight: Balance,
    ) -> (r: Result<Event<P>, DispatchError>)
        ensures
            r is Ok <==> who == old(self).dao.info.dao_account_id,
            r is Err ==> r == Err::<Event<P>, DispatchError>(DispatchError::Dao(dao::Error::BadOrigin))
                && *final(self) == *old(self),
            r is Ok ==> final(self).min_vote_weight_of@ == old(self).min_vote_weight_of@.insert(
                call_id,
                min_vote_weight,
            ) && *final(self) == (Pallet { min_vote_weight_of: final(self).min_vote_weight_of, ..*old(self) }),
    {
        self.dao.ensrue_dao_root(who)?;
        self.min_vote_weight_of.insert(call_id, min_vote_weight);
        Ok(Event::SetMinVoteWeight(self.dao.dao_id, call_id, min_vote_weight))
    }

    /// Sets how many proposals may wait at once; only the organization's account may.
    pub fn set_max_public_props(&mut self, who: AccountId, max: u32) -> (r: Result<
        Event<P>,
        DispatchError,
    >)
        ensures
            r is Ok <==> who == old(self).dao.info.dao_account_id,
            r is Err ==> r == Err::<Event<P>, DispatchError>(DispatchError::Dao(dao::Error::BadOrigin))
                && *final(self) == *old(self),
            r is Ok ==> *final(self) == (Pallet {
                config: GovConfig { max_public_props: max, ..old(self).config },
                ..*old(self)
            }),
    {
        self.dao.ensrue_dao_root(who)?;
        self.config.max_public_props = max;
        Ok(Event::SetMaxPublicProps { dao_id: self.dao.dao_id, max })
    }

    /// Sets the interval between referenda; only the organization's account may.
    pub fn set_launch_period(&mut self, who: AccountId, period: BlockNumber) -> (r: Result<
        Event<P>,
        DispatchError,
    >)
        ensures
            r is Ok <==> who == old(self).dao.info.dao_account_id,
            r is Err ==> r == Err::<Event<P>, DispatchError>(DispatchError::Dao(dao::Error::BadOrigin))
                && *final(self) == *old(self),
            r is Ok ==> *final(self) == (Pallet {
                config: GovConfig { launch_period: period, ..old(self).config },
                ..*old(self)
            }),
    {
        self.dao.ensrue_dao_root(who)?;
        self.config.launch_period = period;
        Ok(Event::SetLaunchPeriod { dao_id: self.dao.dao_id, period })
    }

    /// Sets the least stake of a proposal; only the organization's account may.
    pub fn set_minimum_deposit(&mut self, who: AccountId, min: Balance) -> (r: Result<
        Event<P>,
        DispatchError,
    >)
        ensures
            r is Ok <==> who == old(self).dao.info.dao_account_id,
            r is Err ==> r == Err::<Event<P>, DispatchError>(DispatchError::Dao(dao::Error::BadOrigin))
                && *final(self) == *old(self),
            r is Ok ==> *final(self) == (Pallet {
                config: GovConfig { minimum_deposit: min, ..old(self).config },
                ..*old(self)
            }),
    {
        self.dao.ensrue_dao_root(who)?;
        self.config.minimum_deposit = min;
        Ok(Event::SetMinimumDeposit { dao_id: self.dao.dao_id, min })
    }

    /// Sets how long a referendum is open for votes; only the organization's account may.
    pub fn set_voting_period(&mut self, who: AccountId, period: BlockNumber) -> (r: Result<
        Event<P>,
        DispatchError,
    >)
        ensures
            r is Ok <==> who == old(self).dao.info.dao_account_id,
            r is Err ==> r == Err::<Event<P>, DispatchError>(DispatchError::Dao(dao::Error::BadOrigin))
                && *final(self) == *old(self),
            r is Ok ==> *final(self) == (Pallet {
                config: GovConfig { voting_period: period, ..old(self).config },
                ..*old(self)
            }),
    {
        self.dao.ensrue_dao_root(who)?;
        self.config.voting_period = period;
        Ok(Event::SetVotingPeriod { dao_id: self.dao.dao_id, period })
    }

    /// Sets how long stake stays reserved; only the organization's account may.
    pub fn set_rerserve_period(&mut self, who: AccountId, period: BlockNumber) -> (r: Result<
        Event<P>,
        DispatchError,
    >)
        ensures
            r is Ok <==> who == old(self).dao.info.dao_account_id,
            r is Err ==> r == Err::<Event<P>, DispatchError>(DispatchError::Dao(dao::Error::BadOrigin))
                && *final(self) == *old(self),
            r is Ok ==> *final(self) == (Pallet {
                config: GovConfig { reserve_period: period, ..old(self).config },
                ..*old(self)
            }),
    {
        self.dao.ensrue_dao_root(who)?;
        self.config.reserve_period = period;
        Ok(Event::SetReservePeriod { dao_id: self.dao.dao_id, period })
    }

    /// Sets the delay between the end of the vote and enactment; only the
    /// organization's account may.
    pub fn set_runment_period(&mut self, who: AccountId, period: BlockNumber) -> (r: Result<
        Event<P>,
        DispatchError,
    >)
        ensures
            r is Ok <==> who == old(self).dao.info.dao_account_id,
            r is Err ==> r == Err::<Event<P>, DispatchError>(DispatchError::Dao(dao::Error::BadOrigin))
                && *final(self) == *old(self),
            r is Ok ==> *final(self) == (Pallet {
                config: GovConfig { enactment_period: period, ..old(self).config },
                ..*old(self)
            }),
    {
        self.dao.ensrue_dao_root(who)?;
        self.config.enactment_period = period;
        Ok(Event::SetEnactmentPeriod { dao_id: self.dao.dao_id, period })
    }

    /// The members of the set that `member_data` names.
    pub open spec fn scope_set(&self, member_data: MemmberData) -> Seq<AccountId> {
        match member_data {
            MemmberData::GLOBAL => self.dao.members@,
            MemmberData::GUILD(g) => self.dao.guild_set(g),
            MemmberData::PROJECT(p) => self.dao.project_set(p),
        }
    }

    /// The members of the set that `member_data` names.
    pub fn try_get_members(&self, member_data: MemmberData) -> (r: Result<Vec<AccountId>, DispatchError>)
        ensures
            r matches Ok(v) && v@ == self.scope_set(member_data),
    {
        let v = match member_data {
            MemmberData::GLOBAL => self.dao.members.clone(),
            MemmberData::GUILD(g) => match self.dao.guild_members.get(&g) {
                Some(v) => v.clone(),
                None => Vec::new(),
            },
            MemmberData::PROJECT(p) => match self.dao.project_members.get(&p) {
                Some(v) => v.clone(),
                None => Vec::new(),
            },
        };
        assert(v@ =~= self.scope_set(member_data));
        Ok(v)
    }

    /// Where `who` stands among the members, who alone may propose.
    pub fn check_auth_for_proposal(&self, who: AccountId) -> (r: Result<usize, DispatchError>)
        requires
            self.wf(),
        ensures
            r is Ok <==> self.dao.members@.contains(who),
            r matches Ok(i) ==> i < self.dao.members@.len() && self.dao.members@[i as int] == who,
            r is Err ==> r == Err::<usize, DispatchError>(DispatchError::Gov(Error::Gov403)),
    {
        match dao::search(&self.dao.members, who) {
            Ok(i) => Ok(i),
            Err(_) => Err(DispatchError::Gov(Error::Gov403)),
        }
    }

    /// Where `who` stands in the set that `member_data` names.
    pub fn check_auth_for_vote(&self, member_data: MemmberData, who: AccountId) -> (r: Result<
        usize,
        DispatchError,
    >)
        requires
            self.wf(),
        ensures
            r is Ok <==> self.scope_set(member_data).contains(who),
            r matches Ok(i) ==> i < self.scope_set(member_data).len() && self.scope_set(
                member_data,
            )[i as int] == who,
            r is Err ==> r == Err::<usize, DispatchError>(DispatchError::Gov(Error::Gov403)),
    {
        let found = match member_data {
            MemmberData::GLOBAL => dao::search(&self.dao.members, who),
            MemmberData::GUILD(g) => match self.dao.guild_members.get(&g) {
                Some(v) => dao::search(v, who),
                None => Err(0),
            },
            MemmberData::PROJECT(p) => match self.dao.project_members.get(&p) {
                Some(v) => dao::search(v, who),
                None => Err(0),
            },
        };
        match found {
            Ok(i) => Ok(i),
            Err(_) => Err(DispatchError::Gov(Error::Gov403)),
        }
    }

    /// The whole stake behind waiting proposal `proposal`: what each depositor
    /// staked times their number, stopping at the largest `Balance`.
    pub fn backing_for(&self, proposal: PropIndex) -> (r: Option<Balance>)
        ensures
            !self.deposit_of@.contains_key(proposal) ==> r is None,
            self.deposit_of@.contains_key(proposal) ==> r == Some(
                (if self.deposit_of@[proposal].amount * self.deposit_of@[proposal].depositors@.len()
                    > u64::MAX {
                    u64::MAX as int
                } else {
                    self.deposit_of@[proposal].amount * self.deposit_of@[proposal].depositors@.len()
                }) as u64,
            ),
    {
        match self.deposit_of.get(&proposal) {
            Some(d) => {
                let n: u64 = d.depositors.len() as u64;
                let total = match d.amount.checked_mul(n) {
                    Some(t) => t,
                    None => u64::MAX,
                };
                Some(total)
            },
            None => None,
        }
    }

    /// What `who` holds free plus the stake recorded for it.
    pub open spec fn stake_of(&self, who: AccountId) -> int {
        self.assets.account(who).free + reserved_sum(self.reserve_of@, who)
    }

    /// Why `who` may not propose `proposal` with stake `value` at block `now`,
    /// if it may not.
    pub open spec fn propose_error(&self, who: AccountId, proposal: Call, value: Balance, now: BlockNumber) -> Option<DispatchError> {
        if !self.dao.members@.contains(who) {
            Some(DispatchError::Gov(Error::Gov403))
        } else if !self.dao.allowed_calls@.contains(call_id_of(proposal)) {
            Some(DispatchError::Dao(dao::Error::InVailCall))
        } else if value < self.config.minimum_deposit {
            Some(DispatchError::Gov(Error::DepositTooLow))
        } else if self.public_props@.len() >= self.config.max_public_props {
            Some(DispatchError::Gov(Error::TooManyProposals))
        } else if self.public_prop_count == u32::MAX || now + self.config.reserve_period > u64::MAX {
            Some(DispatchError::Gov(Error::Overflow))
        } else if value > self.assets.account(who).free {
            Some(DispatchError::Assets(assets::Error::BalanceTooLow))
        } else {
            None
        }
    }

    /// `post` is `pre` after `who` proposed `proposal` to `scope` with stake
    /// `value` at block `now`, the action having digest `hash`: the stake is
    /// reserved and recorded, and the proposal joins the queue under the next
    /// index.
    pub open spec fn proposed(
        post: Self,
        pre: Self,
        who: AccountId,
        scope: MemmberData,
        proposal: Call,
        value: Balance,
        now: BlockNumber,
        hash: H256,
    ) -> bool {
        let idx = pre.public_prop_count;
        let acct = pre.assets.account(who);
        &&& value <= acct.free
        &&& post.assets.accounts@ == pre.assets.accounts@.insert(
            who,
            assets::AccountData {
                free: (acct.free - value) as u64,
                reserved: (acct.reserved + value) as u64,
            },
        )
        &&& post.assets.asset_id == pre.assets.asset_id
        &&& post.assets.issuance == pre.assets.issuance
        &&& post.public_prop_count == idx + 1
        &&& post.deposit_of@.dom() == pre.deposit_of@.dom().insert(idx)
        &&& post.deposit_of@[idx].depositors@ == seq![who]
        &&& post.deposit_of@[idx].amount == value
        &&& forall|j: PropIndex|
            j != idx && #[trigger] pre.deposit_of@.contains_key(j) ==> post.deposit_of@[j]
                == pre.deposit_of@[j]
        &&& post.reserve_of@ == pre.reserve_of@.push(
            ReserveRecord { who, amount: value, unlock_block: (now + pre.config.reserve_period) as u64 },
        )
        &&& post.public_props@ == pre.public_props@.push(
            Proposal { index: idx, hash, action: proposal, scope, proposer: who },
        )
        &&& post.dao == pre.dao
        &&& post.config == pre.config
        &&& post.min_vote_weight_of == pre.min_vote_weight_of
        &&& post.referenda == pre.referenda
        &&& post.votes_of == pre.votes_of
        &&& post.launch_tag == pre.launch_tag
    }

    /// Submits a proposal whose action has digest `proposal_hash`: `who`, a
    /// member, stakes `value` of the organization's asset behind `proposal`,
    /// addressed to `member_data`.
    pub fn propose_with_hash(
        &mut self,
        who: AccountId,
        member_data: MemmberData,
        proposal: Call,
        value: Balance,
        now: BlockNumber,
        proposal_hash: H256,
    ) -> (r: Result<Event<P>, DispatchError>)
        requires
            old(self).wf(),
        ensures
            final(self).wf(),
            r is Err <==> old(self).propose_error(who, proposal, value, now) is Some,
            r matches Err(e) ==> old(self).propose_error(who, proposal, value, now) == Some(e)
                && *final(self) == *old(self),
            r matches Ok(ev) ==> ev == Event::<P>::Proposed(old(self).dao.dao_id, proposal_hash)
                && Self::proposed(*final(self), *old(self), who, member_data, proposal, value, now, proposal_hash),
    {
        if self.check_auth_for_proposal(who).is_err() {
            return Err(DispatchError::Gov(Error::Gov403));
        }
        if !self.dao.call_allowed(proposal.call_id()) {
            return Err(DispatchError::Dao(dao::Error::InVailCall));
        }
        if value < self.config.minimum_deposit {
            return Err(DispatchError::Gov(Error::DepositTooLow));
        }
        if self.public_props.len() >= self.config.max_public_props as usize {
            return Err(DispatchError::Gov(Error::TooManyProposals));
        }
        let idx = self.public_prop_count;
        if idx == u32::MAX {
            return Err(DispatchError::Gov(Error::Overflow));
        }
        let unlock_block = match now.checked_add(self.config.reserve_period) {
            Some(b) => b,
            None => {
                return Err(DispatchError::Gov(Error::Overflow));
            },
        };
        match self.assets.reserve(who, value) {
            Ok(()) => {},
            Err(e) => {
                return Err(e);
            },
        }
        self.public_prop_count = idx + 1;
        let mut depositors: Vec<AccountId> = Vec::new();
        depositors.push(who);
        self.deposit_of.insert(idx, Deposit { depositors, amount: value });
        self.reserve_of.push(ReserveRecord { who, amount: value, unlock_block });
        self.public_props.push(
            Proposal { index: idx, hash: proposal_hash, action: proposal, scope: member_data, proposer: who },
        );
        assert(self.deposit_of@.dom() =~= old(self).deposit_of@.dom().insert(idx));
        Ok(Event::Proposed(self.dao.dao_id, proposal_hash))
    }

    /// Submits a proposal: `who`, a member, stakes `value` of the
    /// organization's asset behind `proposal`, addressed to `member_data`.
    /// The proposal is known by the digest of its action.
    pub fn create_propose(
        &mut self,
        who: AccountId,
        member_data: MemmberData,
        proposal: Call,
        value: Balance,
        now: BlockNumber,
    ) -> (r: Result<Event<P>, DispatchError>)
        requires
            old(self).wf(),
        ensures
            final(self).wf(),
            r is Err <==> old(self).propose_error(who, proposal, value, now) is Some,
            r matches Err(e) ==> old(self).propose_error(who, proposal, value, now) == Some(e)
                && *final(self) == *old(self),
            r is Ok ==> final(self).public_props@.last().hash@ == call_hash(proposal),
            r matches Ok(ev) ==> ev == Event::<P>::Proposed(old(self).dao.dao_id, final(self).public_props@.last().hash)
                && Self::proposed(*final(self), *old(self), who, member_data, proposal, value, now, final(self).public_props@.last().hash),
    {
        let h = proposal.hash_of();
        self.propose_with_hash(who, member_data, proposal, value, now, h)
    }

    /// Why `who` may not second proposal `proposal_index` at block `now`, if it may not.
    pub open spec fn recreate_error(&self, who: AccountId, proposal_index: PropIndex, now: BlockNumber) -> Option<DispatchError> {
        if !self.deposit_of@.contains_key(proposal_index) {
            Some(DispatchError::Gov(Error::ProposalMissing))
        } else if now + self.config.reserve_period > u64::MAX {
            Some(DispatchError::Gov(Error::Overflow))
        } else if self.deposit_of@[proposal_index].amount > self.assets.account(who).free {
            Some(DispatchError::Assets(assets::Error::BalanceTooLow))
        } else {
            None
        }
    }

    /// `post` is `pre` after `who` seconded proposal `idx` at block `now`: it
    /// staked as much as the proposer did, the stake is recorded, and it joins
    /// the depositors.
    pub open spec fn recreated(post: Self, pre: Self, who: AccountId, idx: PropIndex, now: BlockNumber) -> bool {
        let amount = pre.deposit_of@[idx].amount;
        let acct = pre.assets.account(who);
        &&& pre.deposit_of@.contains_key(idx)
        &&& amount <= acct.free
        &&& post.assets.accounts@ == pre.assets.accounts@.insert(
            who,
            assets::AccountData {
                free: (acct.free - amount) as u64,
                reserved: (acct.reserved + amount) as u64,
            },
        )
        &&& post.assets.asset_id == pre.assets.asset_id
        &&& post.assets.issuance == pre.assets.issuance
        &&& post.deposit_of@.dom() == pre.deposit_of@.dom()
        &&& post.deposit_of@[idx].depositors@ == pre.deposit_of@[idx].depositors@.push(who)
        &&& post.deposit_of@[idx].amount == amount
        &&& forall|j: PropIndex|
            j != idx && #[trigger] pre.deposit_of@.contains_key(j) ==> post.deposit_of@[j]
                == pre.deposit_of@[j]
        &&& post.reserve_of@ == pre.reserve_of@.push(
            ReserveRecord { who, amount, unlock_block: (now + pre.config.reserve_period) as u64 },
        )
        &&& post.public_prop_count == pre.public_prop_count
        &&& post.public_props == pre.public_props
        &&& post.dao == pre.dao
        &&& post.config == pre.config
        &&& post.min_vote_weight_of == pre.min_vote_weight_of
        &&& post.referenda == pre.referenda
        &&& post.votes_of == pre.votes_of
        &&& post.launch_tag == pre.launch_tag
    }

    /// Seconds proposal `proposal_index`: `who` stakes as much as its
    /// proposer did, and may take it back once the reserve period has passed.
    pub fn recreate(&mut self, who: AccountId, proposal_index: PropIndex, now: BlockNumber) -> (r: Result<
        Event<P>,
        DispatchError,
    >)
        requires
            old(self).wf(),
        ensures
            final(self).wf(),
            r is Err <==> old(self).recreate_error(who, proposal_index, now) is Some,
            r matches Err(e) ==> old(self).recreate_error(who, proposal_index, now) == Some(e)
                && *final(self) == *old(self),
            r matches Ok(ev) ==> ev == Event::<P>::Recreate(old(self).dao.dao_id, old(self).deposit_of@[proposal_index].amount)
                && Self::recreated(*final(self), *old(self), who, proposal_index, now),
    {
        let (amount, mut depositors) = match self.deposit_of.get(&proposal_index) {
            Some(d) => {
                let ds = d.depositors.clone();
                assert(ds@ =~= d.depositors@);
                (d.amount, ds)
            },
            None => {
                return Err(DispatchError::Gov(Error::ProposalMissing));
            },
        };
        let unlock_block = match now.checked_add(self.config.reserve_period) {
            Some(b) => b,
            None => {
                return Err(DispatchError::Gov(Error::Overflow));
            },
        };
        match self.assets.reserve(who, amount) {
            Ok(()) => {},
            Err(e) => {
                return Err(e);
            },
        }
        depositors.push(who);
        self.deposit_of.insert(proposal_index, Deposit { depositors, amount });
        self.reserve_of.push(ReserveRecord { who, amount, unlock_block });
        assert(self.deposit_of@.dom() =~= old(self).deposit_of@.dom());
        Ok(Event::Recreate(self.dao.dao_id, amount))
    }

    /// Why proposal slot `propose_index` may not be put to a referendum at
    /// block `now`, if it may not.
    pub open spec fn start_error(&self, propose_index: u32, now: BlockNumber) -> Option<DispatchError> {
        let start = self.dao.info.start_block;
        let gate = self.launch_tag * self.config.launch_period;
        if gate > u64::MAX {
            Some(DispatchError::Gov(Error::Overflow))
        } else if !(start <= now && gate < now - start) {
            Some(DispatchError::Gov(Error::NotTableTime))
        } else if propose_index >= self.public_props@.len() {
            Some(DispatchError::Gov(Error::ProposalMissing))
        } else if !self.deposit_of@.contains_key(self.public_props@[propose_index as int].index) {
            Some(DispatchError::Gov(Error::NoneWaiting))
        } else if self.referenda@.len() >= u32::MAX {
            Some(DispatchError::Gov(Error::Overflow))
        } else {
            None
        }
    }

    /// `post` is `pre` after the proposal in slot `propose_index` was put to a
    /// referendum at block `now`: the last proposal of the queue takes its
    /// slot, its stake record is consumed, and a referendum that ends after
    /// the voting period opens under the next index.
    pub open spec fn started(post: Self, pre: Self, propose_index: u32, now: BlockNumber) -> bool {
        let prop = pre.public_props@[propose_index as int];
        &&& propose_index < pre.public_props@.len()
        &&& post.public_props@ == pre.public_props@.update(
            propose_index as int,
            pre.public_props@.last(),
        ).drop_last()
        &&& post.deposit_of@ == pre.deposit_of@.remove(prop.index)
        &&& post.referenda@ == pre.referenda@.push(
            ReferendumInfo::Ongoing(
                ReferendumStatus {
                    end: sat_add(now, pre.config.voting_period),
                    proposal: prop.action,
                    delay: pre.config.enactment_period,
                    tally: Tally { yes: 0, no: 0 },
                },
            ),
        )
        &&& post.assets == pre.assets
        &&& post.public_prop_count == pre.public_prop_count
        &&& post.reserve_of == pre.reserve_of
        &&& post.dao == pre.dao
        &&& post.config == pre.config
        &&& post.min_vote_weight_of == pre.min_vote_weight_of
        &&& post.votes_of == pre.votes_of
        &&& post.launch_tag == pre.launch_tag
    }

    fn inject_referendum(&mut self, proposal: Call, end: BlockNumber, delay: BlockNumber) -> (r: ReferendumIndex)
        requires
            old(self).referenda@.len() < u32::MAX,
        ensures
            r == old(self).referenda@.len(),
            final(self).referenda@ == old(self).referenda@.push(
                ReferendumInfo::Ongoing(ReferendumStatus { end, proposal, delay, tally: Tally { yes: 0, no: 0 } }),
            ),
            *final(self) == (Pallet { referenda: final(self).referenda, ..*old(self) }),
    {
        let ref_index = self.referenda.len() as u32;
        self.referenda.push(
            ReferendumInfo::Ongoing(ReferendumStatus { end, proposal, delay, tally: Tally { yes: 0, no: 0 } }),
        );
        ref_index
    }

    /// Opens a referendum on the proposal in queue slot `propose_index`. It is
    /// allowed only once the time since the organization's start has passed
    /// the launch counter times the launch period.
    pub fn start_referendum(&mut self, _who: AccountId, propose_index: u32, now: BlockNumber) -> (r: Result<
        Event<P>,
        DispatchError,
    >)
        requires
            old(self).wf(),
        ensures
            final(self).wf(),
            r is Err <==> old(self).start_error(propose_index, now) is Some,
            r matches Err(e) ==> old(self).start_error(propose_index, now) == Some(e)
                && *final(self) == *old(self),
            r matches Ok(ev) ==> ev == Event::<P>::StartTable(old(self).dao.dao_id, old(self).referenda@.len() as u32)
                && Self::started(*final(self), *old(self), propose_index, now),
    {
        let start = self.dao.info.start_block;
        let gate = match self.launch_tag.checked_mul(self.config.launch_period) {
            Some(g) => g,
            None => {
                return Err(DispatchError::Gov(Error::Overflow));
            },
        };
        if !(start <= now && gate < now - start) {
            return Err(DispatchError::Gov(Error::NotTableTime));
        }
        if propose_index as usize >= self.public_props.len() {
            return Err(DispatchError::Gov(Error::ProposalMissing));
        }
        let prop_index = self.public_props[propose_index as usize].index;
        if !self.deposit_of.contains_key(&prop_index) {
            return Err(DispatchError::Gov(Error::NoneWaiting));
        }
        if self.referenda.len() >= u32::MAX as usize {
            return Err(DispatchError::Gov(Error::Overflow));
        }
        let prop = self.public_props.swap_remove(propose_index as usize);
        self.deposit_of.remove(&prop_index);
        let end = now.saturating_add(self.config.voting_period);
        let index = self.inject_referendum(prop.action, end, self.config.enactment_period);
        Ok(Event::StartTable(self.dao.dao_id, index))
    }

    /// Why a vote on referendum `index` at block `now` is refused before its
    /// pledge is consulted, if it is.
    pub open spec fn vote_gate(&self, index: ReferendumIndex, now: BlockNumber) -> Option<DispatchError> {
        if index >= self.referenda@.len() {
            Some(DispatchError::Gov(Error::ReferendumNotExists))
        } else {
            match self.referenda@[index as int] {
                ReferendumInfo::Finished { .. } => Some(DispatchError::Gov(Error::ReferendumFinished)),
                ReferendumInfo::Ongoing(s) => if s.end <= now {
                    Some(DispatchError::Gov(Error::VoteEnd))
                } else {
                    None
                },
            }
        }
    }

    /// Why a vote on referendum `index` at block `now` is refused before its
    /// pledge is consulted, if it is.
    pub fn vote_gate_exec(&self, index: ReferendumIndex, now: BlockNumber) -> (r: Option<DispatchError>)
        ensures
            r == self.vote_gate(index, now),
    {
        if index as usize >= self.referenda.len() {
            return Some(DispatchError::Gov(Error::ReferendumNotExists));
        }
        match self.referenda[index as usize] {
            ReferendumInfo::Finished { .. } => Some(DispatchError::Gov(Error::ReferendumFinished)),
            ReferendumInfo::Ongoing(s) => if s.end <= now {
                Some(DispatchError::Gov(Error::VoteEnd))
            } else {
                None
            },
        }
    }

    /// Why a vote of weight `weight`, locked for `duration` blocks, on
    /// referendum `index` at block `now` is refused, if it is.
    pub open spec fn vote_error(
        &self,
        index: ReferendumIndex,
        opinion: Opinion,
        now: BlockNumber,
        weight: Balance,
        duration: BlockNumber,
    ) -> Option<DispatchError> {
        if self.vote_gate(index, now) is Some {
            self.vote_gate(index, now)
        } else if side_of(status_of(self.referenda@[index as int]).tally, opinion) + weight > u64::MAX
            || now + duration > u64::MAX {
            Some(DispatchError::Gov(Error::Overflow))
        } else {
            None
        }
    }

    /// `post` is `pre` after `who` cast a vote of weight `weight` for
    /// `opinion` on referendum `index` at block `now`, pledging `pledge`
    /// for `duration` blocks: the weight is added to that side, and the vote
    /// is recorded.
    pub open spec fn voted(
        post: Self,
        pre: Self,
        who: AccountId,
        index: ReferendumIndex,
        pledge: P,
        opinion: Opinion,
        now: BlockNumber,
        weight: Balance,
        duration: BlockNumber,
    ) -> bool {
        let s = status_of(pre.referenda@[index as int]);
        &&& index < pre.referenda@.len()
        &&& pre.referenda@[index as int] is Ongoing
        &&& post.referenda@ == pre.referenda@.update(
            index as int,
            ReferendumInfo::Ongoing(ReferendumStatus { tally: tally_add(s.tally, opinion, weight), ..s }),
        )
        &&& post.votes_of@ == pre.votes_of@.push(
            VoteInfo {
                voter: who,
                dao_id: pre.dao.dao_id,
                asset_id: pre.dao.dao_id,
                pledge,
                opinion,
                vote_weight: weight,
                unlock_block: (now + duration) as u64,
                referendum_index: index,
            },
        )
        &&& post == (Pallet { referenda: post.referenda, votes_of: post.votes_of, ..pre })
    }

    /// Records a vote whose pledge gave weight `weight` and a lock of
    /// `duration` blocks: `who` votes for `opinion` on referendum `index` at
    /// block `now`. The referendum must be open and its voting not ended.
    pub fn apply_vote(
        &mut self,
        who: AccountId,
        index: ReferendumIndex,
        pledge: P,
        opinion: Opinion,
        now: BlockNumber,
        weight: Balance,
        duration: BlockNumber,
    ) -> (r: Result<Event<P>, DispatchError>)
        requires
            old(self).wf(),
        ensures
            final(self).wf(),
            r is Err <==> old(self).vote_error(index, opinion, now, weight, duration) is Some,
            r matches Err(e) ==> old(self).vote_error(index, opinion, now, weight, duration) == Some(e)
                && *final(self) == *old(self),
            r matches Ok(ev) ==> ev == Event::<P>::Vote(old(self).dao.dao_id, index, pledge)
                && Self::voted(*final(self), *old(self), who, index, pledge, opinion, now, weight, duration),
    {
        if index as usize >= self.referenda.len() {
            return Err(DispatchError::Gov(Error::ReferendumNotExists));
        }
        let s = match self.referenda[index as usize] {
            ReferendumInfo::Finished { .. } => {
                return Err(DispatchError::Gov(Error::ReferendumFinished));
            },
            ReferendumInfo::Ongoing(s) => s,
        };
        if s.end <= now {
            return Err(DispatchError::Gov(Error::VoteEnd));
        }
        let tally = match opinion {
            Opinion::YES => match s.tally.yes.checked_add(weight) {
                Some(y) => Tally { yes: y, no: s.tally.no },
                None => {
                    return Err(DispatchError::Gov(Error::Overflow));
                },
            },
            Opinion::NO => match s.tally.no.checked_add(weight) {
                Some(n) => Tally { yes: s.tally.yes, no: n },
                None => {
                    return Err(DispatchError::Gov(Error::Overflow));
                },
            },
        };
        let unlock_block = match now.checked_add(duration) {
            Some(b) => b,
            None => {
                return Err(DispatchError::Gov(Error::Overflow));
            },
        };
        self.referenda.set(index as usize, ReferendumInfo::Ongoing(ReferendumStatus { tally, ..s }));
        let dao_id = self.dao.dao_id;
        self.votes_of.push(
            VoteInfo {
                voter: who,
                dao_id,
                asset_id: dao_id,
                pledge,
                opinion,
                vote_weight: weight,
                unlock_block,
                referendum_index: index,
            },
        );
        Ok(Event::Vote(dao_id, index, pledge))
    }

    /// `post` is `pre` after `who` withdrew its votes on referendum `index`,
    /// `marks` telling for each recorded vote whether its pledge may be given
    /// back: each such vote is removed, and its weight taken off its side,
    /// which stops at zero.
    pub open spec fn cancelled(post: Self, pre: Self, who: AccountId, index: ReferendumIndex, marks: Seq<bool>) -> bool {
        let s = status_of(pre.referenda@[index as int]);
        let n = pre.votes_of@.len();
        &&& index < pre.referenda@.len()
        &&& pre.referenda@[index as int] is Ongoing
        &&& post.votes_of@ == cancel_kept(pre.votes_of@, marks, who, index, n)
        &&& post.referenda@ == pre.referenda@.update(
            index as int,
            ReferendumInfo::Ongoing(
                ReferendumStatus {
                    tally: Tally {
                        yes: sat_sub(s.tally.yes, cancel_weight(pre.votes_of@, marks, who, index, Opinion::YES, n)),
                        no: sat_sub(s.tally.no, cancel_weight(pre.votes_of@, marks, who, index, Opinion::NO, n)),
                    },
                    ..s
                },
            ),
        )
        &&& post == (Pallet { referenda: post.referenda, votes_of: post.votes_of, ..pre })
    }

    /// Withdraws `who`'s votes on referendum `index` at block `now`: vote `i`
    /// goes if it is `who`'s vote on `index` and `marks[i]` holds, and its
    /// weight comes off the tally. The referendum must be open and its voting
    /// not ended.
    pub fn cancel_vote_marked(&mut self, who: AccountId, index: ReferendumIndex, now: BlockNumber, marks: &Vec<bool>) -> (r: Result<
        Event<P>,
        DispatchError,
    >)
        requires
            old(self).wf(),
        ensures
            final(self).wf(),
            r is Err <==> old(self).vote_gate(index, now) is Some,
            r matches Err(e) ==> old(self).vote_gate(index, now) == Some(e) && *final(self) == *old(self),
            r matches Ok(ev) ==> ev == Event::<P>::CancelVote(old(self).dao.dao_id, index)
                && Self::cancelled(*final(self), *old(self), who, index, marks@),
    {
        if index as usize >= self.referenda.len() {
            return Err(DispatchError::Gov(Error::ReferendumNotExists));
        }
        let s = match self.referenda[index as usize] {
            ReferendumInfo::Finished { .. } => {
                return Err(DispatchError::Gov(Error::ReferendumFinished));
            },
            ReferendumInfo::Ongoing(s) => s,
        };
        if s.end <= now {
            return Err(DispatchError::Gov(Error::VoteEnd));
        }
        let ghost vs = self.votes_of@;
        let mut kept: Vec<VoteInfo<P>> = Vec::new();
        let mut yes = s.tally.yes;
        let mut no = s.tally.no;
        let mut i: usize = 0;
        while i < self.votes_of.len()
            invariant
                vs == self.votes_of@,
                i <= vs.len(),
                kept@ == cancel_kept(vs, marks@, who, index, i as nat),
                yes == sat_sub(s.tally.yes, cancel_weight(vs, marks@, who, index, Opinion::YES, i as nat)),
                no == sat_sub(s.tally.no, cancel_weight(vs, marks@, who, index, Opinion::NO, i as nat)),
            decreases vs.len() - i,
        {
            let v = self.votes_of[i];
            proof {
                lemma_cancel_weight_nonneg(vs, marks@, who, index, Opinion::YES, i as nat);
                lemma_cancel_weight_nonneg(vs, marks@, who, index, Opinion::NO, i as nat);
            }
            if i < marks.len() && marks[i] && v.voter == who && v.referendum_index == index {
                match v.opinion {
                    Opinion::NO => {
                        no = no.saturating_sub(v.vote_weight);
                    },
                    Opinion::YES => {
                        yes = yes.saturating_sub(v.vote_weight);
                    },
                }
            } else {
                kept.push(v);
            }
            i = i + 1;
        }
        self.referenda.set(
            index as usize,
            ReferendumInfo::Ongoing(ReferendumStatus { tally: Tally { yes, no }, ..s }),
        );
        self.votes_of = kept;
        Ok(Event::CancelVote(self.dao.dao_id, index))
    }

    /// `post` is `pre` after `origin` dispatched `call`, which gave `r`. Only
    /// the organization's account may; a refused action changes nothing.
    pub open spec fn call_applied(post: Self, pre: Self, origin: AccountId, call: Call, r: Result<(), DispatchError>) -> bool {
        if origin != pre.dao.info.dao_account_id {
            r == Err::<(), DispatchError>(DispatchError::Dao(dao::Error::BadOrigin)) && post == pre
        } else {
            match call {
                Call::SetMinVoteWeightForEveryCall { call_id, min_vote_weight } => r is Ok
                    && post.min_vote_weight_of@ == pre.min_vote_weight_of@.insert(call_id, min_vote_weight)
                    && post == (Pallet { min_vote_weight_of: post.min_vote_weight_of, ..pre }),
                Call::SetMaxPublicProps { max } => r is Ok && post == (Pallet {
                    config: GovConfig { max_public_props: max, ..pre.config },
                    ..pre
                }),
                Call::SetLaunchPeriod { period } => r is Ok && post == (Pallet {
                    config: GovConfig { launch_period: period, ..pre.config },
                    ..pre
                }),
                Call::SetMinimumDeposit { min } => r is Ok && post == (Pallet {
                    config: GovConfig { minimum_deposit: min, ..pre.config },
                    ..pre
                }),
                Call::SetVotingPeriod { period } => r is Ok && post == (Pallet {
                    config: GovConfig { voting_period: period, ..pre.config },
                    ..pre
                }),
                Call::SetRerservePeriod { period } => r is Ok && post == (Pallet {
                    config: GovConfig { reserve_period: period, ..pre.config },
                    ..pre
                }),
                Call::SetRunmentPeriod { period } => r is Ok && post == (Pallet {
                    config: GovConfig { enactment_period: period, ..pre.config },
                    ..pre
                }),
                Call::AddMember { who } => if pre.dao.members@.contains(who) {
                    r == Err::<(), DispatchError>(DispatchError::Dao(dao::Error::InVailCall)) && post == pre
                } else {
                    &&& r is Ok
                    &&& forall|y: AccountId| #[trigger] post.dao.members@.contains(y) <==> (pre.dao.members@.contains(y) || y == who)
                    &&& post == (Pallet { dao: dao::Pallet { members: post.dao.members, ..pre.dao }, ..pre })
                },
                Call::RemoveMember { who } => if !pre.dao.members@.contains(who) {
                    r == Err::<(), DispatchError>(DispatchError::Dao(dao::Error::InVailCall)) && post == pre
                } else {
                    &&& r is Ok
                    &&& forall|y: AccountId| #[trigger] post.dao.members@.contains(y) <==> (pre.dao.members@.contains(y) && y != who)
                    &&& post == (Pallet { dao: dao::Pallet { members: post.dao.members, ..pre.dao }, ..pre })
                },
                Call::ProjectJoinRequest { project_id, who } => if pre.dao.project_set(project_id).contains(who) {
                    r == Err::<(), DispatchError>(DispatchError::Dao(dao::Error::InVailCall)) && post == pre
                } else {
                    &&& r is Ok
                    &&& forall|y: AccountId| #[trigger] post.dao.project_set(project_id).contains(y) <==> (pre.dao.project_set(project_id).contains(y) || y == who)
                    &&& forall|j: u64| j != project_id ==> #[trigger] post.dao.project_set(j) == pre.dao.project_set(j)
                    &&& post == (Pallet { dao: dao::Pallet { project_members: post.dao.project_members, ..pre.dao }, ..pre })
                },
                Call::GuildJoinRequest { guild_id, who } => if pre.dao.guilds@.len() == 0 {
                    r == Err::<(), DispatchError>(DispatchError::Dao(dao::Error::BadOrigin)) && post == pre
                } else if pre.dao.guild_set(guild_id).contains(who) {
                    r == Err::<(), DispatchError>(DispatchError::Dao(dao::Error::InVailCall)) && post == pre
                } else {
                    &&& r is Ok
                    &&& forall|y: AccountId| #[trigger] post.dao.guild_set(guild_id).contains(y) <==> (pre.dao.guild_set(guild_id).contains(y) || y == who)
                    &&& forall|j: u64| j != guild_id ==> #[trigger] post.dao.guild_set(j) == pre.dao.guild_set(j)
                    &&& post == (Pallet { dao: dao::Pallet { guild_members: post.dao.guild_members, ..pre.dao }, ..pre })
                },
            }
        }
    }

    /// Carries out `call` with the authority of `origin`.
    pub fn dispatch(&mut self, origin: AccountId, call: Call) -> (r: Result<(), DispatchError>)
        requires
            old(self).wf(),
        ensures
            final(self).wf(),
            Self::call_applied(*final(self), *old(self), origin, call, r),
    {
        let done = match call {
            Call::SetMinVoteWeightForEveryCall { call_id, min_vote_weight } => {
                self.set_min_vote_weight_for_every_call(origin, call_id, min_vote_weight)
            },
            Call::SetMaxPublicProps { max } => self.set_max_public_props(origin, max),
            Call::SetLaunchPeriod { period } => self.set_launch_period(origin, period),
            Call::SetMinimumDeposit { min } => self.set_minimum_deposit(origin, min),
            Call::SetVotingPeriod { period } => self.set_voting_period(origin, period),
            Call::SetRerservePeriod { period } => self.set_rerserve_period(origin, period),
            Call::SetRunmentPeriod { period } => self.set_runment_period(origin, period),
            Call::AddMember { who } => {
                if let Err(e) = self.dao.ensrue_dao_root(origin) {
                    return Err(e);
                }
                return match self.dao.try_add_member(who) {
                    Ok(_) => Ok(()),
                    Err(e) => Err(e),
                };
            },
            Call::RemoveMember { who } => {
                if let Err(e) = self.dao.ensrue_dao_root(origin) {
                    return Err(e);
                }
                return match self.dao.try_remove_member(who) {
                    Ok(_) => Ok(()),
                    Err(e) => Err(e),
                };
            },
            Call::ProjectJoinRequest { project_id, who } => {
                return self.dao.project_join_request(origin, project_id, who);
            },
            Call::GuildJoinRequest { guild_id, who } => {
                return self.dao.guild_join_request(origin, guild_id, who);
            },
        };
        match done {
            Ok(_) => Ok(()),
            Err(e) => Err(e),
        }
    }

    /// Why referendum `index` may not be decided at block `now`, if it may not.
    pub open spec fn run_error(&self, index: ReferendumIndex, now: BlockNumber) -> Option<DispatchError> {
        if index >= self.referenda@.len() {
            Some(DispatchError::Gov(Error::ReferendumNotExists))
        } else {
            match self.referenda@[index as int] {
                ReferendumInfo::Finished { .. } => Some(DispatchError::Gov(Error::ReferendumFinished)),
                ReferendumInfo::Ongoing(s) => if s.end > now {
                    Some(DispatchError::Gov(Error::VoteNotEnd))
                } else if sat_add(s.end, s.delay) > now {
                    Some(DispatchError::Gov(Error::InDelayTime))
                } else if enactment_outcome(s.tally, self.min_weight(call_id_of(s.proposal))) is None {
                    Some(DispatchError::Gov(Error::VoteWeightTooLow))
                } else {
                    None
                },
            }
        }
    }

    /// `post` is `pre` after referendum `index` was decided at block `now`,
    /// its action having given `result`: approved when the votes for weigh at
    /// least as much as those against, in which case the action is carried
    /// out with the organization's authority; either way the referendum is
    /// finished at `now`.
    pub open spec fn enacted(post: Self, pre: Self, index: ReferendumIndex, now: BlockNumber, result: Result<(), DispatchError>) -> bool {
        let s = status_of(pre.referenda@[index as int]);
        let approved = s.tally.yes >= s.tally.no;
        &&& index < pre.referenda@.len()
        &&& pre.referenda@[index as int] is Ongoing
        &&& post.referenda@ == pre.referenda@.update(index as int, ReferendumInfo::Finished { approved, end: now })
        &&& approved ==> Self::call_applied(
            Pallet { referenda: pre.referenda, ..post },
            pre,
            pre.dao.info.dao_account_id,
            s.proposal,
            result,
        )
        &&& !approved ==> result == Err::<(), DispatchError>(DispatchError::Gov(Error::VoteEndButNotPass))
            && post == (Pallet { referenda: post.referenda, ..pre })
    }

    /// The vote weight that actions of kind `call_id` need.
    pub fn min_vote_weight(&self, call_id: CallId) -> (r: Balance)
        ensures
            r == self.min_weight(call_id),
    {
        match self.min_vote_weight_of.get(&call_id) {
            Some(w) => *w,
            None => 0,
        }
    }

    /// Decides referendum `index` at block `now`, once its voting has ended
    /// and the enactment delay has passed, provided that the votes cast weigh
    /// at least the threshold of its action's kind. If approved, the action is
    /// carried out with the organization's authority; whether that succeeds
    /// is reported and does not keep the referendum from finishing.
    pub fn run_proposal(&mut self, _who: AccountId, index: ReferendumIndex, now: BlockNumber) -> (r: Result<
        Event<P>,
        DispatchError,
    >)
        requires
            old(self).wf(),
        ensures
            final(self).wf(),
            r is Err <==> old(self).run_error(index, now) is Some,
            r matches Err(e) ==> old(self).run_error(index, now) == Some(e) && *final(self) == *old(self),
            r matches Ok(ev) ==> ev matches Event::EnactProposal { dao_id, index: i, result } && dao_id
                == old(self).dao.dao_id && i == index && Self::enacted(*final(self), *old(self), index, now, result),
    {
        if index as usize >= self.referenda.len() {
            return Err(DispatchError::Gov(Error::ReferendumNotExists));
        }
        let s = match self.referenda[index as usize] {
            ReferendumInfo::Finished { .. } => {
                return Err(DispatchError::Gov(Error::ReferendumFinished));
            },
            ReferendumInfo::Ongoing(s) => s,
        };
        if s.end > now {
            return Err(DispatchError::Gov(Error::VoteNotEnd));
        }
        if s.end.saturating_add(s.delay) > now {
            return Err(DispatchError::Gov(Error::InDelayTime));
        }
        let threshold = self.min_vote_weight(s.proposal.call_id());
        let approved = match decide(s.tally, threshold) {
            Some(a) => a,
            None => {
                return Err(DispatchError::Gov(Error::VoteWeightTooLow));
            },
        };
        let result = if approved {
            let origin = self.dao.info.dao_account_id;
            self.dispatch(origin, s.proposal)
        } else {
            Err(DispatchError::Gov(Error::VoteEndButNotPass))
        };
        self.referenda.set(index as usize, ReferendumInfo::Finished { approved, end: now });
        Ok(Event::EnactProposal { dao_id: self.dao.dao_id, index, result })
    }

    /// `post` is `pre` after `who` unlocked at block `now`, `marks` telling
    /// for each recorded vote whether its pledge may be given back, with
    /// reports `events`: every stake record of `who` whose time has come is
    /// released from the ledger (as far as `who` still holds reserved), and
    /// every vote of `who` whose lock has passed and whose pledge may be given
    /// back is removed. The first report gives the amount released, the others
    /// the votes removed, in order.
    pub open spec fn unlocked(post: Self, pre: Self, who: AccountId, now: BlockNumber, marks: Seq<bool>, events: Seq<Event<P>>) -> bool {
        let acct = pre.assets.account(who);
        let released = min_int(acct.reserved as int, reserves_due(pre.reserve_of@, who, now, pre.reserve_of@.len()));
        &&& post.reserve_of@ == reserves_kept(pre.reserve_of@, who, now, pre.reserve_of@.len())
        &&& post.assets.account(who) == (assets::AccountData {
            free: (acct.free + released) as u64,
            reserved: (acct.reserved - released) as u64,
        })
        &&& forall|a: AccountId| a != who ==> #[trigger] post.assets.account(a) == pre.assets.account(a)
        &&& post.assets.asset_id == pre.assets.asset_id
        &&& post.assets.issuance == pre.assets.issuance
        &&& post.votes_of@ == unlock_kept(pre.votes_of@, marks, who, now, pre.votes_of@.len())
        &&& events == seq![Event::<P>::Unreserved(who, released as u64)] + unlock_events(
            pre.votes_of@,
            marks,
            who,
            now,
            pre.votes_of@.len(),
        )
        &&& post == (Pallet { assets: post.assets, reserve_of: post.reserve_of, votes_of: post.votes_of, ..pre })
    }

    /// Releases the stake records of `who` whose time has come at block
    /// `now`, and returns the amount released.
    fn release_reserves(&mut self, who: AccountId, now: BlockNumber) -> (released: Balance)
        requires
            old(self).wf(),
        ensures
            final(self).wf(),
            released == min_int(
                old(self).assets.account(who).reserved as int,
                reserves_due(old(self).reserve_of@, who, now, old(self).reserve_of@.len()),
            ),
            final(self).reserve_of@ == reserves_kept(old(self).reserve_of@, who, now, old(self).reserve_of@.len()),
            final(self).assets.account(who) == (assets::AccountData {
                free: (old(self).assets.account(who).free + released) as u64,
                reserved: (old(self).assets.account(who).reserved - released) as u64,
            }),
            forall|a: AccountId| a != who ==> #[trigger] final(self).assets.account(a) == old(self).assets.account(a),
            final(self).assets.asset_id == old(self).assets.asset_id,
            final(self).assets.issuance == old(self).assets.issuance,
            released == 0 ==> final(self).assets == old(self).assets,
            *final(self) == (Pallet { assets: final(self).assets, reserve_of: final(self).reserve_of, ..*old(self) }),
    {
        let ghost rs = self.reserve_of@;
        let ghost a0 = self.assets.account(who);
        let ghost assets0 = self.assets;
        let mut kept: Vec<ReserveRecord> = Vec::new();
        let mut released: Balance = 0;
        let mut i: usize = 0;
        while i < self.reserve_of.len()
            invariant
                rs == self.reserve_of@,
                i <= rs.len(),
                self.assets.wf(),
                kept@ == reserves_kept(rs, who, now, i as nat),
                released == min_int(a0.reserved as int, reserves_due(rs, who, now, i as nat)),
                self.assets.account(who) == (assets::AccountData {
                    free: (a0.free + released) as u64,
                    reserved: (a0.reserved - released) as u64,
                }),
                a0.free + a0.reserved <= u64::MAX,
                forall|a: AccountId| a != who ==> #[trigger] self.assets.account(a) == assets0.account(a),
                self.assets.asset_id == assets0.asset_id,
                self.assets.issuance == assets0.issuance,
                released == 0 ==> self.assets == assets0,
                *self == (Pallet { assets: self.assets, ..*old(self) }),
            decreases rs.len() - i,
        {
            let r = self.reserve_of[i];
            proof {
                lemma_reserves_due_nonneg(rs, who, now, i as nat);
            }
            if r.who == who && r.unlock_block <= now {
                let left = self.assets.unreserve(who, r.amount);
                released = released + (r.amount - left);
            } else {
                kept.push(r);
            }
            i = i + 1;
        }
        self.reserve_of = kept;
        released
    }

    /// Unlocks for `who` at block `now`: releases each of its stake records
    /// whose time has come, and removes each of its votes whose lock has
    /// passed and for which `marks` says the pledge may be given back.
    pub fn unlock_marked(&mut self, who: AccountId, now: BlockNumber, marks: &Vec<bool>) -> (r: Result<
        Vec<Event<P>>,
        DispatchError,
    >)
        requires
            old(self).wf(),
        ensures
            final(self).wf(),
            r matches Ok(events) && Self::unlocked(*final(self), *old(self), who, now, marks@, events@),
    {
        let released = self.release_reserves(who, now);
        let mut events: Vec<Event<P>> = Vec::new();
        events.push(Event::Unreserved(who, released));
        let ghost vs = self.votes_of@;
        let mut kept: Vec<VoteInfo<P>> = Vec::new();
        let mut i: usize = 0;
        while i < self.votes_of.len()
            invariant
                vs == self.votes_of@,
                i <= vs.len(),
                kept@ == unlock_kept(vs, marks@, who, now, i as nat),
                events@ == seq![Event::<P>::Unreserved(who, released)] + unlock_events(vs, marks@, who, now, i as nat),
            decreases vs.len() - i,
        {
            let v = self.votes_of[i];
            if i < marks.len() && marks[i] && v.voter == who && v.unlock_block <= now {
                events.push(Event::Unlock(who, v.asset_id, v.pledge));
            } else {
                kept.push(v);
            }
            i = i + 1;
        }
        self.votes_of = kept;
        Ok(events)
    }
}

impl<P: Copy + Pledge> Pallet<P> {
    /// `who` votes for `opinion` on referendum `index` at block `now`. The
    /// pledge turns `conviction` into the vote's weight and lock time, and may
    /// refuse; the vote is then recorded as `apply_vote` records it.
    pub fn vote_for_referendum(
        &mut self,
        who: AccountId,
        index: ReferendumIndex,
        pledge: P,
        conviction: u64,
        opinion: Opinion,
        now: BlockNumber,
    ) -> (r: Result<Event<P>, DispatchError>)
        requires
            old(self).wf(),
        ensures
            final(self).wf(),
            old(self).vote_gate(index, now) matches Some(e) ==> r == Err::<Event<P>, DispatchError>(e),
            r is Err ==> *final(self) == *old(self),
            r matches Ok(ev) ==> ev == Event::<P>::Vote(old(self).dao.dao_id, index, pledge) && exists|
                weight: Balance,
                duration: BlockNumber,
            | Self::voted(*final(self), *old(self), who, index, pledge, opinion, now, weight, duration),
    {
        if index as usize >= self.referenda.len() {
            return Err(DispatchError::Gov(Error::ReferendumNotExists));
        }
        match self.referenda[index as usize] {
            ReferendumInfo::Finished { .. } => {
                return Err(DispatchError::Gov(Error::ReferendumFinished));
            },
            ReferendumInfo::Ongoing(s) => {
                if s.end <= now {
                    return Err(DispatchError::Gov(Error::VoteEnd));
                }
            },
        }
        let (weight, duration) = match pledge.try_vote(&who, &self.dao.dao_id, &conviction) {
            Ok(x) => x,
            Err(e) => {
                return Err(e);
            },
        };
        self.apply_vote(who, index, pledge, opinion, now, weight, duration)
    }

    /// `who` withdraws its votes on referendum `index` at block `now`: each of
    /// them whose pledge may be given back goes, as `cancel_vote_marked`
    /// removes them; the others stay.
    pub fn cancel_vote(&mut self, who: AccountId, index: ReferendumIndex, now: BlockNumber) -> (r: Result<
        Event<P>,
        DispatchError,
    >)
        requires
            old(self).wf(),
        ensures
            final(self).wf(),
            r is Err <==> old(self).vote_gate(index, now) is Some,
            r matches Err(e) ==> old(self).vote_gate(index, now) == Some(e) && *final(self) == *old(self),
            r matches Ok(ev) ==> ev == Event::<P>::CancelVote(old(self).dao.dao_id, index) && exists|
                marks: Seq<bool>,
            | Self::cancelled(*final(self), *old(self), who, index, marks),
    {
        if self.vote_gate_exec(index, now).is_some() {
            return self.cancel_vote_marked(who, index, now, &Vec::new());
        }
        let dao_id = self.dao.dao_id;
        let mut marks: Vec<bool> = Vec::new();
        let mut i: usize = 0;
        while i < self.votes_of.len()
            invariant
                i <= self.votes_of@.len(),
                marks@.len() == i,
            decreases self.votes_of@.len() - i,
        {
            let v = self.votes_of[i];
            let hit = v.voter == who && v.referendum_index == index && v.pledge.vote_end_do(&who, &dao_id).is_ok();
            marks.push(hit);
            i = i + 1;
        }
        self.cancel_vote_marked(who, index, now, &marks)
    }

    /// Unlocks for `who` at block `now`: releases each of its stake records
    /// whose time has come, and removes each of its votes whose lock has
    /// passed and whose pledge may be given back, as `unlock_marked` does.
    /// The others stay for a later call.
    pub fn unlock(&mut self, who: AccountId, now: BlockNumber) -> (r: Result<Vec<Event<P>>, DispatchError>)
        requires
            old(self).wf(),
        ensures
            final(self).wf(),
            r matches Ok(events) && exists|marks: Seq<bool>|
                Self::unlocked(*final(self), *old(self), who, now, marks, events@),
    {
        let mut marks: Vec<bool> = Vec::new();
        let mut i: usize = 0;
        while i < self.votes_of.len()
            invariant
                i <= self.votes_of@.len(),
                marks@.len() == i,
            decreases self.votes_of@.len() - i,
        {
            let v = self.votes_of[i];
            let hit = v.voter == who && v.unlock_block <= now && v.pledge.vote_end_do(&who, &v.dao_id).is_ok();
            marks.push(hit);
            i = i + 1;
        }
        self.unlock_marked(who, now, &marks)
    }
}

} // verus!
