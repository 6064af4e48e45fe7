use daoent::assets;
use daoent::dao;
use daoent::gov;
use daoent::gov::{Call, Pallet};
use daoent::sudo;
use daoent::{AccountId, DaoAssetId, DispatchError};

const ALICE: AccountId = 1;
const BOB: AccountId = 2;
const DAO_ID: DaoAssetId = 1;
const DAO_ACCOUNT: AccountId = 1000;

fn create_dao() -> (sudo::Pallet, Pallet<u64>) {
    let d = dao::Pallet::create_dao(
        ALICE,
        DAO_ID,
        DAO_ACCOUNT,
        vec![1; 4],
        vec![1; 4],
        vec![gov::CALL_ADD_MEMBER, gov::CALL_SET_LAUNCH_PERIOD],
        0,
    )
    .unwrap();
    let g = Pallet::new(d, assets::Pallet::new(DAO_ID));
    (sudo::Pallet::new(ALICE), g)
}

#[test]
fn tests_set_sudo() {
    let (mut s, _g) = create_dao();
    assert!(s.set_sudo_account(ALICE, BOB).is_ok());
    assert_eq!(s.account, Some(BOB));
}

#[test]
fn sudo_should_work() {
    let (s, mut g) = create_dao();
    let proposal = Call::AddMember { who: BOB };
    match s.sudo(ALICE, &mut g, proposal) {
        Ok(sudo::Event::SudoDone { sudo, sudo_result }) => {
            assert_eq!(sudo, ALICE);
            assert!(sudo_result.is_ok());
        }
        _ => panic!("sudo should carry out the action"),
    }
    assert_eq!(g.dao.members, vec![ALICE, BOB]);
}

#[test]
fn close_sudo_should_work() {
    let (mut s, mut g) = create_dao();
    assert!(s.close_sudo(ALICE).is_ok());
    assert!(s.closed);
    assert!(matches!(
        s.sudo(ALICE, &mut g, Call::SetLaunchPeriod { period: 3 }),
        Err(DispatchError::Sudo(sudo::Error::RootNotExists))
    ));
    assert!(s.set_sudo_account(ALICE, BOB).is_err());
}

#[test]
fn sudo_refusals() {
    let (s, mut g) = create_dao();
    assert!(matches!(
        s.sudo(BOB, &mut g, Call::SetLaunchPeriod { period: 3 }),
        Err(DispatchError::Sudo(sudo::Error::NotSudo))
    ));
    assert!(matches!(
        s.sudo(ALICE, &mut g, Call::SetVotingPeriod { period: 3 }),
        Err(DispatchError::Dao(dao::Error::InVailCall))
    ));
    assert!(s.sudo(ALICE, &mut g, Call::SetLaunchPeriod { period: 3 }).is_ok());
    assert_eq!(g.config.launch_period, 3);
    let none = sudo::Pallet { account: None, closed: false };
    assert!(matches!(
        none.sudo(ALICE, &mut g, Call::SetLaunchPeriod { period: 4 }),
        Err(DispatchError::Sudo(sudo::Error::RootNotExists))
    ));
}
