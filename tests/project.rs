use daoent::assets;
use daoent::dao;
use daoent::gov;
use daoent::gov::{Call, MemmberData, Opinion, Pallet, Pledge};
use daoent::{AccountId, Balance, BlockNumber, DaoAssetId, DispatchError};

const ALICE: AccountId = 1;
const BOB: AccountId = 2;
const DAO_ID: DaoAssetId = 1;
const DAO_ACCOUNT: AccountId = 1000;
const PROJECT_INDEX: u64 = 1;

#[derive(Clone, Copy, Debug)]
struct Vote(u64);

impl Pledge for Vote {
    fn try_vote(
        &self,
        _who: &AccountId,
        _dao_id: &DaoAssetId,
        _conviction: &u64,
    ) -> Result<(Balance, BlockNumber), DispatchError> {
        Ok((self.0, 100))
    }

    fn vote_end_do(&self, _who: &AccountId, _dao_id: &DaoAssetId) -> Result<(), DispatchError> {
        Ok(())
    }
}

fn create_asset() -> Pallet<Vote> {
    let d = dao::Pallet::create_dao(
        ALICE,
        DAO_ID,
        DAO_ACCOUNT,
        vec![1; 4],
        vec![1; 4],
        vec![gov::CALL_PROJECT_JOIN_REQUEST],
        0,
    )
    .unwrap();
    let mut a = assets::Pallet::new(DAO_ID);
    a.deposit(ALICE, 10000).unwrap();
    let mut g = Pallet::new(d, a);
    // The project's creator is its first member.
    g.dao.try_add_project_member(PROJECT_INDEX, ALICE).unwrap();
    g
}

fn project_join_reques() -> Pallet<Vote> {
    let mut g = create_asset();
    assert!(g.dao.project_join_request(BOB, PROJECT_INDEX, BOB).is_err());

    let proposal = Call::ProjectJoinRequest { project_id: PROJECT_INDEX, who: BOB };

    // BOB joins the organization.
    g.dao.try_add_member(BOB).unwrap();
    g.assets.deposit(BOB, 100).unwrap();

    assert!(g.create_propose(BOB, MemmberData::GLOBAL, proposal, 0u64, 0).is_ok());

    assert!(g.start_referendum(ALICE, 0u32, 10000).is_ok());

    assert!(g.vote_for_referendum(ALICE, 0u32, Vote(100000), 0, Opinion::YES, 10000).is_ok());

    assert!(g.run_proposal(ALICE, 0u32, 10000).is_err());

    assert!(g.run_proposal(ALICE, 0u32, 20000).is_ok());

    let ms = g.try_get_members(MemmberData::PROJECT(PROJECT_INDEX)).unwrap();
    assert!(ms.len() == 2);
    g
}

#[test]
fn test_project_join_request() {
    project_join_reques();
}

#[test]
fn project_join_request_by_root() {
    let mut g = create_asset();
    assert!(g.dao.project_join_request(DAO_ACCOUNT, PROJECT_INDEX, BOB).is_ok());
    assert!(matches!(
        g.dao.project_join_request(DAO_ACCOUNT, PROJECT_INDEX, BOB),
        Err(DispatchError::Dao(dao::Error::InVailCall))
    ));
    assert_eq!(g.dao.project_members.get(&PROJECT_INDEX).unwrap(), &vec![ALICE, BOB]);
}
