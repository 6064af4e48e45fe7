use daoent::assets;
use daoent::dao;
use daoent::gov;
use daoent::gov::{Call, Event, MemmberData, Opinion, Pallet, Pledge, ReferendumInfo};
use daoent::{AccountId, Balance, BlockNumber, DaoAssetId, DispatchError};

const ALICE: AccountId = 1;
const BOB: AccountId = 2;
const DAO_ID: DaoAssetId = 1;
const DAO_ACCOUNT: AccountId = 1000;
const P_ID: u32 = 0;

/// A pledge that always gives weight 100 locked for 100 blocks.
#[derive(Clone, Copy, Debug)]
struct Vote(u64);

impl Pledge for Vote {
    fn try_vote(
        &self,
        _who: &AccountId,
        _dao_id: &DaoAssetId,
        _conviction: &u64,
    ) -> Result<(Balance, BlockNumber), DispatchError> {
        Ok((100, 100))
    }

    fn vote_end_do(&self, _who: &AccountId, _dao_id: &DaoAssetId) -> Result<(), DispatchError> {
        Ok(())
    }
}

/// A pledge that refuses to vote and to be given back.
#[derive(Clone, Copy, Debug)]
struct Stuck;

impl Pledge for Stuck {
    fn try_vote(
        &self,
        _who: &AccountId,
        _dao_id: &DaoAssetId,
        _conviction: &u64,
    ) -> Result<(Balance, BlockNumber), DispatchError> {
        Err(DispatchError::Gov(gov::Error::PledgeNotEnough))
    }

    fn vote_end_do(&self, _who: &AccountId, _dao_id: &DaoAssetId) -> Result<(), DispatchError> {
        Err(DispatchError::Other(1))
    }
}

fn all_calls() -> Vec<u32> {
    vec![
        gov::CALL_SET_MIN_VOTE_WEIGHT,
        gov::CALL_SET_MAX_PUBLIC_PROPS,
        gov::CALL_SET_LAUNCH_PERIOD,
        gov::CALL_SET_MINIMUM_DEPOSIT,
        gov::CALL_SET_VOTING_PERIOD,
        gov::CALL_SET_RESERVE_PERIOD,
        gov::CALL_SET_ENACTMENT_PERIOD,
        gov::CALL_ADD_MEMBER,
        gov::CALL_REMOVE_MEMBER,
        gov::CALL_PROJECT_JOIN_REQUEST,
    ]
}

fn create_dao<P: Copy>() -> Pallet<P> {
    let d = dao::Pallet::create_dao(ALICE, DAO_ID, DAO_ACCOUNT, vec![1; 4], vec![1; 4], all_calls(), 0)
        .unwrap();
    let mut a = assets::Pallet::new(DAO_ID);
    a.deposit(ALICE, 100000).unwrap();
    a.deposit(BOB, 10000).unwrap();
    Pallet::new(d, a)
}

fn proposal() -> Call {
    Call::SetMinVoteWeightForEveryCall { call_id: 0, min_vote_weight: 100 }
}

fn propose() -> Pallet<Vote> {
    let mut g = create_dao();
    assert!(g.start_referendum(ALICE, P_ID, 0).is_err());
    assert!(g.create_propose(ALICE, MemmberData::GLOBAL, proposal(), 0, 0).is_ok());
    g
}

fn second() -> Pallet<Vote> {
    let mut g = propose();
    assert!(g.recreate(BOB, 0, 0).is_ok());
    g
}

fn start_referendum() -> Pallet<Vote> {
    let mut g = second();
    assert!(g.start_referendum(ALICE, P_ID, 0).is_err());
    assert!(g.start_referendum(ALICE, P_ID, 10000).is_ok());
    g
}

fn vote() -> Pallet<Vote> {
    let mut g = start_referendum();
    assert!(g.vote_for_referendum(ALICE, 0, Vote(100), 0, Opinion::YES, 10000).is_ok());
    // A voter may vote again on the same referendum; each vote adds its weight.
    assert!(g.vote_for_referendum(ALICE, 0, Vote(100), 0, Opinion::YES, 10000).is_ok());
    assert!(g.vote_for_referendum(ALICE, 0, Vote(100), 0, Opinion::NO, 20000).is_err());
    g
}

fn run() -> Pallet<Vote> {
    let mut g = vote();
    assert!(g.run_proposal(ALICE, 0, 10000).is_err());
    let voting = g.config.voting_period;
    let enactment = g.config.enactment_period;
    assert!(g.run_proposal(ALICE, 0, 10000 + voting + enactment - 2).is_err());

    let old_min_weight = g.min_vote_weight(gov::CALL_SET_MIN_VOTE_WEIGHT);
    g.set_min_vote_weight_for_every_call(DAO_ACCOUNT, gov::CALL_SET_MIN_VOTE_WEIGHT, 10000000000)
        .unwrap();
    assert!(g.run_proposal(ALICE, 0, 20000).is_err());
    let mut other: Pallet<Vote> = create_dao();
    assert!(other.run_proposal(ALICE, 0, 20000).is_err());
    g.set_min_vote_weight_for_every_call(DAO_ACCOUNT, gov::CALL_SET_MIN_VOTE_WEIGHT, old_min_weight)
        .unwrap();

    assert!(g.run_proposal(ALICE, 0, 20000).is_ok());
    assert!(g.run_proposal(ALICE, 0, 20000).is_err());
    assert!(g.vote_for_referendum(ALICE, 0, Vote(100), 0, Opinion::NO, 20000).is_err());
    assert!(g.cancel_vote(ALICE, 0, 20000).is_err());
    g
}

#[test]
fn propose_should_work() {
    let g = propose();
    assert_eq!(g.public_props.len(), 1);
}

#[test]
fn second_should_work() {
    let g = second();
    assert_eq!(g.deposit_of.get(&0).unwrap().depositors, vec![ALICE, BOB]);
}

#[test]
fn vote_should_work() {
    let g = vote();
    match g.referenda[0] {
        ReferendumInfo::Ongoing(s) => {
            assert_eq!(s.tally.yes, 200);
            assert_eq!(s.tally.no, 0);
        }
        _ => panic!("the referendum should be open"),
    }
}

#[test]
fn cancel_vote_should_work() {
    let mut g = vote();
    assert!(g.cancel_vote(ALICE, 0, 20000).is_err());
    assert!(g.cancel_vote(ALICE, 0, 10000).is_ok());
    match g.referenda[0] {
        ReferendumInfo::Ongoing(s) => {
            assert_eq!(s.tally.yes, 0);
            assert_eq!(s.tally.no, 0);
        }
        _ => panic!("the referendum should be open"),
    }
    assert!(g.votes_of.is_empty());
}

#[test]
fn run_proposal_should_work() {
    let g = run();
    assert_eq!(g.min_vote_weight(0), 100);
    assert_eq!(g.referenda[0], ReferendumInfo::Finished { approved: true, end: 20000 });
}

#[test]
fn unlock_should_work() {
    let mut g = run();
    assert!(g.unlock(ALICE, 20000).is_ok());
    assert!(g.votes_of.is_empty());
}

#[test]
fn scenario_propose_launch_vote_enact() {
    let mut g: Pallet<Vote> = create_dao();
    g.set_minimum_deposit(DAO_ACCOUNT, 0).unwrap();
    g.set_voting_period(DAO_ACCOUNT, 9000).unwrap();
    g.set_runment_period(DAO_ACCOUNT, 1000).unwrap();

    assert!(g.create_propose(ALICE, MemmberData::GLOBAL, proposal(), 0, 0).is_ok());
    assert_eq!(g.public_props.len(), 1);
    let d = g.deposit_of.get(&0).unwrap();
    assert_eq!(d.depositors, vec![ALICE]);
    assert_eq!(d.amount, 0);

    assert!(g.start_referendum(ALICE, 0, 10000).is_ok());
    assert!(g.public_props.is_empty());
    match g.referenda[0] {
        ReferendumInfo::Ongoing(s) => {
            assert_eq!(s.end, 19000);
            assert_eq!(s.delay, 1000);
        }
        _ => panic!("the referendum should be open"),
    }

    assert!(g.vote_for_referendum(ALICE, 0, Vote(100), 0, Opinion::YES, 10000).is_ok());
    match g.referenda[0] {
        ReferendumInfo::Ongoing(s) => {
            assert_eq!(s.tally.yes, 100);
            assert_eq!(s.tally.no, 0);
        }
        _ => panic!("the referendum should be open"),
    }

    assert!(matches!(
        g.run_proposal(ALICE, 0, 18999),
        Err(DispatchError::Gov(gov::Error::VoteNotEnd))
    ));
    assert!(matches!(
        g.run_proposal(ALICE, 0, 19500),
        Err(DispatchError::Gov(gov::Error::InDelayTime))
    ));
    match g.run_proposal(ALICE, 0, 20000) {
        Ok(Event::EnactProposal { dao_id, index, result }) => {
            assert_eq!(dao_id, DAO_ID);
            assert_eq!(index, 0);
            assert!(result.is_ok());
        }
        _ => panic!("the referendum should be decided"),
    }
    assert_eq!(g.referenda[0], ReferendumInfo::Finished { approved: true, end: 20000 });
}

#[test]
fn propose_reserves_stake_and_records_it() {
    let mut g: Pallet<Vote> = create_dao();
    g.create_propose(ALICE, MemmberData::GLOBAL, proposal(), 500, 10).unwrap();
    assert_eq!(g.assets.free_balance(ALICE), 99500);
    assert_eq!(g.assets.reserved_balance(ALICE), 500);
    assert_eq!(g.reserve_of.len(), 1);
    assert_eq!(g.reserve_of[0].who, ALICE);
    assert_eq!(g.reserve_of[0].amount, 500);
    assert_eq!(g.reserve_of[0].unlock_block, 910);
    assert_eq!(g.public_prop_count, 1);
    assert_eq!(g.public_props[0].proposer, ALICE);
    assert_eq!(g.public_props[0].hash, proposal().hash_of());
    // Free balance plus recorded stake is unchanged.
    assert_eq!(g.assets.free_balance(ALICE) + g.reserve_of[0].amount, 100000);
}

#[test]
fn second_reserves_the_same_stake() {
    let mut g: Pallet<Vote> = create_dao();
    g.create_propose(ALICE, MemmberData::GLOBAL, proposal(), 500, 0).unwrap();
    match g.recreate(BOB, 0, 5) {
        Ok(Event::Recreate(dao_id, amount)) => {
            assert_eq!(dao_id, DAO_ID);
            assert_eq!(amount, 500);
        }
        _ => panic!("seconding should succeed"),
    }
    assert_eq!(g.assets.free_balance(BOB), 9500);
    assert_eq!(g.assets.reserved_balance(BOB), 500);
    assert_eq!(g.reserve_of[1].who, BOB);
    assert_eq!(g.reserve_of[1].unlock_block, 905);
    assert_eq!(g.backing_for(0), Some(1000));
    assert_eq!(g.backing_for(7), None);
}

#[test]
fn propose_errors() {
    let mut g: Pallet<Vote> = create_dao();
    assert!(matches!(
        g.create_propose(BOB, MemmberData::GLOBAL, proposal(), 0, 0),
        Err(DispatchError::Gov(gov::Error::Gov403))
    ));
    g.set_minimum_deposit(DAO_ACCOUNT, 10).unwrap();
    assert!(matches!(
        g.create_propose(ALICE, MemmberData::GLOBAL, proposal(), 9, 0),
        Err(DispatchError::Gov(gov::Error::DepositTooLow))
    ));
    assert!(matches!(
        g.create_propose(ALICE, MemmberData::GLOBAL, proposal(), 200000, 0),
        Err(DispatchError::Assets(assets::Error::BalanceTooLow))
    ));
    assert!(matches!(
        g.create_propose(ALICE, MemmberData::GLOBAL, proposal(), 10, u64::MAX),
        Err(DispatchError::Gov(gov::Error::Overflow))
    ));
    g.set_max_public_props(DAO_ACCOUNT, 1).unwrap();
    assert!(g.create_propose(ALICE, MemmberData::GLOBAL, proposal(), 10, 0).is_ok());
    assert!(matches!(
        g.create_propose(ALICE, MemmberData::GLOBAL, proposal(), 10, 0),
        Err(DispatchError::Gov(gov::Error::TooManyProposals))
    ));
    assert_eq!(g.public_props.len(), 1);
    assert_eq!(g.assets.free_balance(ALICE), 99990);
}

#[test]
fn propose_refuses_disallowed_action() {
    let d = dao::Pallet::create_dao(ALICE, DAO_ID, DAO_ACCOUNT, vec![], vec![], vec![], 0).unwrap();
    let mut g: Pallet<Vote> = Pallet::new(d, assets::Pallet::new(DAO_ID));
    assert!(matches!(
        g.create_propose(ALICE, MemmberData::GLOBAL, proposal(), 0, 0),
        Err(DispatchError::Dao(dao::Error::InVailCall))
    ));
}

#[test]
fn recreate_missing_proposal() {
    let mut g: Pallet<Vote> = create_dao();
    assert!(matches!(
        g.recreate(BOB, 3, 0),
        Err(DispatchError::Gov(gov::Error::ProposalMissing))
    ));
}

#[test]
fn start_referendum_errors() {
    let mut g = propose();
    assert!(matches!(
        g.start_referendum(ALICE, 0, 0),
        Err(DispatchError::Gov(gov::Error::NotTableTime))
    ));
    assert!(matches!(
        g.start_referendum(ALICE, 5, 10),
        Err(DispatchError::Gov(gov::Error::ProposalMissing))
    ));
    match g.start_referendum(ALICE, 0, 10) {
        Ok(Event::StartTable(dao_id, index)) => {
            assert_eq!(dao_id, DAO_ID);
            assert_eq!(index, 0);
        }
        _ => panic!("the referendum should open"),
    }
    assert!(g.deposit_of.is_empty());
}

#[test]
fn start_referendum_takes_slot_by_swap() {
    let mut g: Pallet<Vote> = create_dao();
    for k in 0..3u64 {
        g.create_propose(ALICE, MemmberData::GLOBAL, Call::SetLaunchPeriod { period: k }, 0, 0)
            .unwrap();
    }
    g.start_referendum(ALICE, 0, 10).unwrap();
    let left: Vec<u32> = g.public_props.iter().map(|p| p.index).collect();
    assert_eq!(left, vec![2, 1]);
}

#[test]
fn vote_errors() {
    let mut g = start_referendum();
    assert!(matches!(
        g.vote_for_referendum(ALICE, 9, Vote(1), 0, Opinion::YES, 10000),
        Err(DispatchError::Gov(gov::Error::ReferendumNotExists))
    ));
    assert!(matches!(
        g.vote_for_referendum(ALICE, 0, Vote(1), 0, Opinion::YES, 10900),
        Err(DispatchError::Gov(gov::Error::VoteEnd))
    ));
    assert!(g.votes_of.is_empty());
    let mut s: Pallet<Stuck> = create_dao();
    s.create_propose(ALICE, MemmberData::GLOBAL, proposal(), 0, 0).unwrap();
    s.start_referendum(ALICE, 0, 10).unwrap();
    assert!(matches!(
        s.vote_for_referendum(ALICE, 0, Stuck, 0, Opinion::YES, 10),
        Err(DispatchError::Gov(gov::Error::PledgeNotEnough))
    ));
    assert!(s.votes_of.is_empty());
}

#[test]
fn apply_vote_adds_weight_and_records() {
    let mut g = start_referendum();
    assert!(g.apply_vote(BOB, 0, Vote(1), Opinion::NO, 10000, 70, 5).is_ok());
    match g.referenda[0] {
        ReferendumInfo::Ongoing(s) => {
            assert_eq!(s.tally.yes, 0);
            assert_eq!(s.tally.no, 70);
        }
        _ => panic!("the referendum should be open"),
    }
    assert_eq!(g.votes_of[0].voter, BOB);
    assert_eq!(g.votes_of[0].vote_weight, 70);
    assert_eq!(g.votes_of[0].unlock_block, 10005);
    assert!(matches!(
        g.apply_vote(BOB, 0, Vote(1), Opinion::NO, 10000, u64::MAX, 5),
        Err(DispatchError::Gov(gov::Error::Overflow))
    ));
    assert!(matches!(
        g.apply_vote(BOB, 0, Vote(1), Opinion::YES, 10000, 1, u64::MAX),
        Err(DispatchError::Gov(gov::Error::Overflow))
    ));
}

#[test]
fn cancel_takes_off_exact_weight_and_saturates() {
    let mut g = start_referendum();
    g.apply_vote(ALICE, 0, Vote(1), Opinion::YES, 10000, 30, 5).unwrap();
    g.apply_vote(BOB, 0, Vote(1), Opinion::NO, 10000, 50, 5).unwrap();
    g.apply_vote(ALICE, 0, Vote(1), Opinion::NO, 10000, 20, 5).unwrap();
    // Only ALICE's first vote is marked as releasable.
    g.cancel_vote_marked(ALICE, 0, 10000, &vec![true, true, false]).unwrap();
    match g.referenda[0] {
        ReferendumInfo::Ongoing(s) => {
            assert_eq!(s.tally.yes, 0);
            assert_eq!(s.tally.no, 70);
        }
        _ => panic!("the referendum should be open"),
    }
    assert_eq!(g.votes_of.len(), 2);
    assert_eq!(g.votes_of[0].voter, BOB);
    assert_eq!(g.votes_of[1].vote_weight, 20);
}

#[test]
fn cancel_keeps_votes_whose_pledge_refuses() {
    let mut g: Pallet<Stuck> = create_dao();
    g.create_propose(ALICE, MemmberData::GLOBAL, proposal(), 0, 0).unwrap();
    g.start_referendum(ALICE, 0, 10).unwrap();
    g.apply_vote(ALICE, 0, Stuck, Opinion::YES, 10, 40, 5).unwrap();
    assert!(g.cancel_vote(ALICE, 0, 10).is_ok());
    assert_eq!(g.votes_of.len(), 1);
    match g.referenda[0] {
        ReferendumInfo::Ongoing(s) => assert_eq!(s.tally.yes, 40),
        _ => panic!("the referendum should be open"),
    }
    assert!(matches!(
        g.cancel_vote(ALICE, 3, 10),
        Err(DispatchError::Gov(gov::Error::ReferendumNotExists))
    ));
}

#[test]
fn run_rejects_when_against_outweighs() {
    let mut g = start_referendum();
    g.apply_vote(ALICE, 0, Vote(1), Opinion::YES, 10000, 10, 5).unwrap();
    g.apply_vote(BOB, 0, Vote(1), Opinion::NO, 10000, 11, 5).unwrap();
    match g.run_proposal(ALICE, 0, 20000) {
        Ok(Event::EnactProposal { result, .. }) => {
            assert!(matches!(result, Err(DispatchError::Gov(gov::Error::VoteEndButNotPass))));
        }
        _ => panic!("the referendum should be decided"),
    }
    assert_eq!(g.referenda[0], ReferendumInfo::Finished { approved: false, end: 20000 });
    assert_eq!(g.min_vote_weight(0), 0);
    assert!(matches!(
        g.run_proposal(ALICE, 0, 99999),
        Err(DispatchError::Gov(gov::Error::ReferendumFinished))
    ));
}

#[test]
fn run_tie_approves() {
    let mut g = start_referendum();
    g.apply_vote(ALICE, 0, Vote(1), Opinion::YES, 10000, 10, 5).unwrap();
    g.apply_vote(BOB, 0, Vote(1), Opinion::NO, 10000, 10, 5).unwrap();
    assert!(g.run_proposal(ALICE, 0, 20000).is_ok());
    assert_eq!(g.referenda[0], ReferendumInfo::Finished { approved: true, end: 20000 });
    assert_eq!(g.min_vote_weight(0), 100);
}

#[test]
fn run_threshold_not_met_stays_open() {
    let mut g = start_referendum();
    g.apply_vote(ALICE, 0, Vote(1), Opinion::YES, 10000, 10, 5).unwrap();
    g.set_min_vote_weight_for_every_call(DAO_ACCOUNT, gov::CALL_SET_MIN_VOTE_WEIGHT, 11).unwrap();
    assert!(matches!(
        g.run_proposal(ALICE, 0, 20000),
        Err(DispatchError::Gov(gov::Error::VoteWeightTooLow))
    ));
    assert!(matches!(g.referenda[0], ReferendumInfo::Ongoing(_)));
    assert!(matches!(
        g.run_proposal(ALICE, 4, 20000),
        Err(DispatchError::Gov(gov::Error::ReferendumNotExists))
    ));
}

#[test]
fn decide_is_a_function_of_tally_and_threshold() {
    let t = gov::Tally { yes: 5, no: 5 };
    assert_eq!(gov::decide(t, 10), Some(true));
    assert_eq!(gov::decide(t, 11), None);
    assert_eq!(gov::decide(gov::Tally { yes: 4, no: 6 }, 10), Some(false));
    assert_eq!(gov::decide(gov::Tally { yes: u64::MAX, no: 1 }, u64::MAX), Some(true));
    assert_eq!(gov::decide(t, 10), gov::decide(t, 10));
}

#[test]
fn enactment_adds_member() {
    let mut g: Pallet<Vote> = create_dao();
    g.create_propose(ALICE, MemmberData::GLOBAL, Call::AddMember { who: BOB }, 0, 0).unwrap();
    g.start_referendum(ALICE, 0, 10).unwrap();
    g.apply_vote(ALICE, 0, Vote(1), Opinion::YES, 10, 1, 5).unwrap();
    assert!(g.run_proposal(ALICE, 0, 2000).is_ok());
    assert_eq!(g.dao.members, vec![ALICE, BOB]);
}

#[test]
fn enactment_inner_failure_still_finishes() {
    let mut g: Pallet<Vote> = create_dao();
    g.create_propose(ALICE, MemmberData::GLOBAL, Call::AddMember { who: ALICE }, 0, 0).unwrap();
    g.start_referendum(ALICE, 0, 10).unwrap();
    match g.run_proposal(ALICE, 0, 2000) {
        Ok(Event::EnactProposal { result, .. }) => {
            assert!(matches!(result, Err(DispatchError::Dao(dao::Error::InVailCall))));
        }
        _ => panic!("the referendum should be decided"),
    }
    assert_eq!(g.referenda[0], ReferendumInfo::Finished { approved: true, end: 2000 });
}

#[test]
fn unlock_releases_due_stake_once() {
    let mut g: Pallet<Vote> = create_dao();
    g.create_propose(ALICE, MemmberData::GLOBAL, proposal(), 300, 0).unwrap();
    g.create_propose(ALICE, MemmberData::GLOBAL, proposal(), 200, 500).unwrap();
    let events = g.unlock(ALICE, 900).unwrap();
    assert!(matches!(events[0], Event::Unreserved(ALICE, 300)));
    assert_eq!(events.len(), 1);
    assert_eq!(g.assets.free_balance(ALICE), 99800);
    assert_eq!(g.assets.reserved_balance(ALICE), 200);
    assert_eq!(g.reserve_of.len(), 1);
    // A second call at the same block releases nothing.
    let again = g.unlock(ALICE, 900).unwrap();
    assert!(matches!(again[0], Event::Unreserved(ALICE, 0)));
    assert_eq!(again.len(), 1);
    assert_eq!(g.assets.free_balance(ALICE), 99800);
    assert_eq!(g.reserve_of.len(), 1);
    let later = g.unlock(ALICE, 1400).unwrap();
    assert!(matches!(later[0], Event::Unreserved(ALICE, 200)));
    assert_eq!(g.assets.free_balance(ALICE), 100000);
    assert!(g.reserve_of.is_empty());
}

#[test]
fn unlock_releases_votes_after_lock() {
    let mut g = start_referendum();
    g.apply_vote(ALICE, 0, Vote(1), Opinion::YES, 10000, 10, 50).unwrap();
    g.apply_vote(BOB, 0, Vote(1), Opinion::YES, 10000, 10, 50).unwrap();
    let early = g.unlock(ALICE, 10049).unwrap();
    assert_eq!(early.len(), 1);
    assert_eq!(g.votes_of.len(), 2);
    let events = g.unlock(ALICE, 10050).unwrap();
    assert_eq!(events.len(), 2);
    assert!(matches!(events[1], Event::Unlock(ALICE, DAO_ID, Vote(1))));
    assert_eq!(g.votes_of.len(), 1);
    assert_eq!(g.votes_of[0].voter, BOB);
    let again = g.unlock(ALICE, 10050).unwrap();
    assert_eq!(again.len(), 1);
    assert_eq!(g.votes_of.len(), 1);
}

#[test]
fn unlock_keeps_votes_whose_pledge_refuses() {
    let mut g: Pallet<Stuck> = create_dao();
    g.create_propose(ALICE, MemmberData::GLOBAL, proposal(), 0, 0).unwrap();
    g.start_referendum(ALICE, 0, 10).unwrap();
    g.apply_vote(ALICE, 0, Stuck, Opinion::YES, 10, 40, 5).unwrap();
    let events = g.unlock(ALICE, 100).unwrap();
    assert_eq!(events.len(), 1);
    assert_eq!(g.votes_of.len(), 1);
}

#[test]
fn setters_need_root() {
    let mut g: Pallet<Vote> = create_dao();
    assert!(matches!(
        g.set_max_public_props(ALICE, 5),
        Err(DispatchError::Dao(dao::Error::BadOrigin))
    ));
    assert!(g.set_launch_period(ALICE, 5).is_err());
    assert!(g.set_rerserve_period(ALICE, 5).is_err());
    assert_eq!(g.config.max_public_props, 100);
    assert!(g.set_max_public_props(DAO_ACCOUNT, 5).is_ok());
    assert!(g.set_launch_period(DAO_ACCOUNT, 6).is_ok());
    assert!(g.set_rerserve_period(DAO_ACCOUNT, 7).is_ok());
    assert_eq!(g.config.max_public_props, 5);
    assert_eq!(g.config.launch_period, 6);
    assert_eq!(g.config.reserve_period, 7);
}

#[test]
fn defaults_on_empty() {
    assert_eq!(gov::MaxPublicPropsOnEmpty(), 100);
    assert_eq!(gov::LaunchPeriodOnEmpty(), 900);
    assert_eq!(gov::VotingPeriodOnEmpty(), 900);
    assert_eq!(gov::ReservePeriodOnEmpty(), 900);
    assert_eq!(gov::EnactmentPeriodOnEmpty(), 900);
}

#[test]
fn members_and_auth() {
    let mut g: Pallet<Vote> = create_dao();
    assert_eq!(g.check_auth_for_proposal(ALICE).ok(), Some(0));
    assert!(g.check_auth_for_proposal(BOB).is_err());
    assert_eq!(g.check_auth_for_vote(MemmberData::GUILD(0), ALICE).ok(), Some(0));
    assert!(g.check_auth_for_vote(MemmberData::PROJECT(1), ALICE).is_err());
    g.dao.try_add_project_member(1, BOB).unwrap();
    assert_eq!(g.try_get_members(MemmberData::PROJECT(1)).unwrap(), vec![BOB]);
    assert_eq!(g.try_get_members(MemmberData::GLOBAL).unwrap(), vec![ALICE]);
}
