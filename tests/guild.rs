use daoent::assets;
use daoent::dao;
use daoent::gov;
use daoent::gov::{Call, MemmberData, Opinion, Pallet, Pledge};
use daoent::{AccountId, Balance, BlockNumber, DaoAssetId, DispatchError};

const ALICE: AccountId = 1;
const BOB: AccountId = 2;
const DAO_ID: DaoAssetId = 1;
const DAO_ACCOUNT: AccountId = 1000;

#[derive(Clone, Copy, Debug)]
struct Vote(u64);

impl Pledge for Vote {
    fn try_vote(
        &self,
        _who: &AccountId,
        _dao_id: &DaoAssetId,
        _conviction: &u64,
    ) -> Result<(Balance, BlockNumber), DispatchError> {
        Ok((self.0, 100))
    }

    fn vote_end_do(&self, _who: &AccountId, _dao_id: &DaoAssetId) -> Result<(), DispatchError> {
        Ok(())
    }
}

fn create_asset() -> Pallet<Vote> {
    let d = dao::Pallet::create_dao(
        ALICE,
        DAO_ID,
        DAO_ACCOUNT,
        vec![1; 4],
        vec![1; 4],
        vec![gov::CALL_GUILD_JOIN_REQUEST],
        0,
    )
    .unwrap();
    let mut a = assets::Pallet::new(DAO_ID);
    a.deposit(ALICE, 10000).unwrap();
    Pallet::new(d, a)
}

#[test]
fn test_guild_join_request() {
    let mut g = create_asset();
    assert!(g.dao.guild_join_request(BOB, 0, BOB).is_err());

    let proposal = Call::GuildJoinRequest { guild_id: 0, who: BOB };

    // Not yet a member: the proposal is refused.
    assert!(g.create_propose(BOB, MemmberData::GLOBAL, proposal, 0u64, 0).is_err());

    // BOB joins the organization.
    g.dao.try_add_member(BOB).unwrap();
    g.assets.deposit(BOB, 100).unwrap();

    assert!(g.create_propose(BOB, MemmberData::GLOBAL, proposal, 0u64, 0).is_ok());

    assert!(g.start_referendum(ALICE, 0u32, 10000).is_ok());

    assert!(g.vote_for_referendum(ALICE, 0u32, Vote(100000), 0, Opinion::YES, 10000).is_ok());

    assert!(g.run_proposal(ALICE, 0u32, 10000).is_err());

    assert!(g.run_proposal(ALICE, 0u32, 20000).is_ok());

    let ms = g.try_get_members(MemmberData::GUILD(0)).unwrap();
    assert!(ms.len() == 2);
}

#[test]
fn create_guild_by_root() {
    let mut g = create_asset();
    assert!(matches!(
        g.dao.create_guild(ALICE, vec![1], vec![2], vec![3], 5),
        Err(DispatchError::Dao(dao::Error::BadOrigin))
    ));
    assert!(matches!(
        g.dao.create_guild(DAO_ACCOUNT, vec![1], vec![0; 51], vec![3], 5),
        Err(DispatchError::Dao(dao::Error::PurposeTooLong))
    ));
    assert_eq!(g.dao.create_guild(DAO_ACCOUNT, vec![1], vec![2], vec![3], 5).ok(), Some(1));
    assert_eq!(g.dao.guilds.len(), 2);
    assert_eq!(g.dao.guilds[1].creator, DAO_ACCOUNT);
    assert_eq!(g.dao.guilds[1].start_block, 5);
    assert_eq!(g.dao.guild_members.get(&0).unwrap(), &vec![ALICE, DAO_ACCOUNT]);
    assert_eq!(g.dao.create_guild(DAO_ACCOUNT, vec![4], vec![], vec![], 6).ok(), Some(2));
    assert_eq!(g.dao.guild_members.get(&0).unwrap(), &vec![ALICE, DAO_ACCOUNT]);
}
