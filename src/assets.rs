//! The ledger of one organization's asset: a free and a reserved balance for
//! every account, and the total issued.

use std::collections::HashMap;
use vstd::prelude::*;

use crate::{AccountId, Balance, DaoAssetId, DispatchError};

verus! {

broadcast use vstd::std_specs::hash::group_hash_axioms;

/// The balances of one account.
#[derive(Clone, Copy, Debug, PartialEq, Eq, Structural)]
pub struct AccountData {
    /// What the account can spend.
    pub free: Balance,
    /// What is held as stake and cannot be spent until it is released.
    pub reserved: Balance,
}

/// Why the ledger refused an operation.
#[derive(Clone, Copy, Debug, PartialEq, Eq, Structural)]
pub enum Error {
    /// The free balance is smaller than the amount asked for.
    BalanceTooLow,
    /// A balance or the total issuance would exceed what a `Balance` holds.
    Overflow,
}

/// The ledger of one asset.
#[derive(Clone, Debug)]
pub struct Pallet {
    /// The asset that this ledger keeps.
    pub asset_id: DaoAssetId,
    /// The balances of the accounts that have ever held some of the asset.
    pub accounts: HashMap<AccountId, AccountData>,
    /// How much of the asset exists.
    pub issuance: Balance,
}

/// The balances of an account that the ledger has never seen.
pub open spec fn empty_account() -> AccountData {
    AccountData { free: 0, reserved: 0 }
}

impl Pallet {
    /// The balances of `who`.
    pub open spec fn account(&self, who: AccountId) -> AccountData {
        if self.accounts@.contains_key(who) {
            self.accounts@[who]
        } else {
            empty_account()
        }
    }

    /// What `who` holds in all, free and reserved.
    pub open spec fn total_of(&self, who: AccountId) -> int {
        self.account(who).free + self.account(who).reserved
    }

    /// Every account's total fits in a `Balance`.
    pub open spec fn wf(&self) -> bool {
        forall|a: AccountId| #[trigger] self.accounts@.contains_key(a) ==> self.total_of(a) <= u64::MAX
    }

    /// An empty ledger for `asset_id`.
    pub fn new(asset_id: DaoAssetId) -> (r: Self)
        ensures
            r.wf(),
            r.asset_id == asset_id,
            r.accounts@ == Map::<AccountId, AccountData>::empty(),
            r.issuance == 0,
    {
        Pallet { asset_id, accounts: HashMap::new(), issuance: 0 }
    }

    fn get_account(&self, who: AccountId) -> (r: AccountData)
        ensures
            r == self.account(who),
    {
        match self.accounts.get(&who) {
            Some(a) => *a,
            None => AccountData { free: 0, reserved: 0 },
        }
    }

    fn put_account(&mut self, who: AccountId, data: AccountData)
        requires
            old(self).wf(),
            data.free + data.reserved <= u64::MAX,
        ensures
            final(self).wf(),
            final(self).accounts@ == old(self).accounts@.insert(who, data),
            final(self).asset_id == old(self).asset_id,
            final(self).issuance == old(self).issuance,
    {
        self.accounts.insert(who, data);
        assert forall|a: AccountId| #[trigger] self.accounts@.contains_key(a) implies self.total_of(
            a,
        ) <= u64::MAX by {
            if a != who {
                assert(old(self).accounts@.contains_key(a));
            }
        }
    }

    /// What `who` can spend.
    pub fn free_balance(&self, who: AccountId) -> (r: Balance)
        ensures
            r == self.account(who).free,
    {
        self.get_account(who).free
    }

    /// What `who` holds as stake.
    pub fn reserved_balance(&self, who: AccountId) -> (r: Balance)
        ensures
            r == self.account(who).reserved,
    {
        self.get_account(who).reserved
    }

    /// What `who` holds in all.
    pub fn total_balance(&self, who: AccountId) -> (r: Balance)
        requires
            self.wf(),
        ensures
            r == self.total_of(who),
    {
        let a = self.get_account(who);
        a.free + a.reserved
    }

    /// How much of the asset exists.
    pub fn total_issuance(&self) -> (r: Balance)
        ensures
            r == self.issuance,
    {
        self.issuance
    }

    /// The same as `total_balance`.
    pub fn get_balance(&self, who: AccountId) -> (r: Balance)
        requires
            self.wf(),
        ensures
            r == self.total_of(who),
    {
        self.total_balance(who)
    }

    /// Creates `value` of the asset in `who`'s free balance.
    pub fn deposit(&mut self, who: AccountId, value: Balance) -> (r: Result<(), DispatchError>)
        requires
            old(self).wf(),
        ensures
            final(self).wf(),
            final(self).asset_id == old(self).asset_id,
            r is Ok <==> old(self).issuance + value <= u64::MAX && old(self).total_of(who) + value
                <= u64::MAX,
            r is Ok ==> final(self).issuance == old(self).issuance + value
                && final(self).accounts@ == old(self).accounts@.insert(
                who,
                AccountData {
                    free: (old(self).account(who).free + value) as u64,
                    reserved: old(self).account(who).reserved,
                },
            ),
            r is Err ==> r == Err::<(), DispatchError>(DispatchError::Assets(Error::Overflow))
                && *final(self) == *old(self),
    {
        let a = self.get_account(who);
        if value > u64::MAX - self.issuance || value > u64::MAX - a.free - a.reserved {
            return Err(DispatchError::Assets(Error::Overflow));
        }
        self.put_account(who, AccountData { free: a.free + value, reserved: a.reserved });
        self.issuance = self.issuance + value;
        Ok(())
    }

    /// Destroys `value` of `who`'s free balance. The total issuance goes down
    /// by as much, and stops at zero.
    pub fn withdraw(&mut self, who: AccountId, value: Balance) -> (r: Result<(), DispatchError>)
        requires
            old(self).wf(),
        ensures
            final(self).wf(),
            final(self).asset_id == old(self).asset_id,
            r is Ok <==> value <= old(self).account(who).free,
            r is Ok ==> final(self).issuance == (if old(self).issuance >= value {
                old(self).issuance - value
            } else {
                0
            }) && final(self).accounts@ == old(self).accounts@.insert(
                who,
                AccountData {
                    free: (old(self).account(who).free - value) as u64,
                    reserved: old(self).account(who).reserved,
                },
            ),
            r is Err ==> r == Err::<(), DispatchError>(DispatchError::Assets(Error::BalanceTooLow))
                && *final(self) == *old(self),
    {
        let a = self.get_account(who);
        if value > a.free {
            return Err(DispatchError::Assets(Error::BalanceTooLow));
        }
        self.put_account(who, AccountData { free: a.free - value, reserved: a.reserved });
        self.issuance = self.issuance.saturating_sub(value);
        Ok(())
    }

    /// Destroys `value` of `who`'s own free balance, as `withdraw` does.
    pub fn burn(&mut self, who: AccountId, value: Balance) -> (r: Result<(), DispatchError>)
        requires
            old(self).wf(),
        ensures
            final(self).wf(),
            final(self).asset_id == old(self).asset_id,
            r is Ok <==> value <= old(self).account(who).free,
            r is Ok ==> final(self).issuance == (if old(self).issuance >= value {
                old(self).issuance - value
            } else {
                0
            }) && final(self).accounts@ == old(self).accounts@.insert(
                who,
                AccountData {
                    free: (old(self).account(who).free - value) as u64,
                    reserved: old(self).account(who).reserved,
                },
            ),
            r is Err ==> r == Err::<(), DispatchError>(DispatchError::Assets(Error::BalanceTooLow))
                && *final(self) == *old(self),
    {
        self.withdraw(who, value)
    }

    /// Moves `value` from `from`'s free balance to `to`'s. A transfer of
    /// nothing, or to oneself, succeeds at once and changes nothing.
    pub fn transfer(&mut self, from: AccountId, to: AccountId, value: Balance) -> (r: Result<
        (),
        DispatchError,
    >)
        requires
            old(self).wf(),
        ensures
            final(self).wf(),
            final(self).asset_id == old(self).asset_id,
            final(self).issuance == old(self).issuance,
            value != 0 && from != to && value > old(self).account(from).free ==> r == Err::<
                (),
                DispatchError,
            >(DispatchError::Assets(Error::BalanceTooLow)),
            value != 0 && from != to && value <= old(self).account(from).free && old(self).total_of(to)
                + value > u64::MAX ==> r == Err::<(), DispatchError>(
                DispatchError::Assets(Error::Overflow),
            ),
            r is Ok <==> value == 0 || from == to || (value <= old(self).account(from).free
                && old(self).total_of(to) + value <= u64::MAX),
            r is Ok && value != 0 && from != to ==> final(self).accounts@ == old(self).accounts@.insert(
                from,
                AccountData {
                    free: (old(self).account(from).free - value) as u64,
                    reserved: old(self).account(from).reserved,
                },
            ).insert(
                to,
                AccountData {
                    free: (old(self).account(to).free + value) as u64,
                    reserved: old(self).account(to).reserved,
                },
            ),
            r is Err || value == 0 || from == to ==> *final(self) == *old(self),
    {
        if value == 0 || from == to {
            return Ok(());
        }
        let a = self.get_account(from);
        if value > a.free {
            return Err(DispatchError::Assets(Error::BalanceTooLow));
        }
        let b = self.get_account(to);
        if value > u64::MAX - b.free - b.reserved {
            return Err(DispatchError::Assets(Error::Overflow));
        }
        self.put_account(from, AccountData { free: a.free - value, reserved: a.reserved });
        self.put_account(to, AccountData { free: b.free + value, reserved: b.reserved });
        Ok(())
    }

    /// The same as `transfer`.
    pub fn try_transfer(&mut self, from: AccountId, to: AccountId, value: Balance) -> (r: Result<
        (),
        DispatchError,
    >)
        requires
            old(self).wf(),
        ensures
            final(self).wf(),
            final(self).asset_id == old(self).asset_id,
            final(self).issuance == old(self).issuance,
            r is Ok <==> value == 0 || from == to || (value <= old(self).account(from).free
                && old(self).total_of(to) + value <= u64::MAX),
            r is Ok && value != 0 && from != to ==> final(self).accounts@ == old(self).accounts@.insert(
                from,
                AccountData {
                    free: (old(self).account(from).free - value) as u64,
                    reserved: old(self).account(from).reserved,
                },
            ).insert(
                to,
                AccountData {
                    free: (old(self).account(to).free + value) as u64,
                    reserved: old(self).account(to).reserved,
                },
            ),
            r is Err || value == 0 || from == to ==> *final(self) == *old(self),
    {
        self.transfer(from, to, value)
    }

    /// Moves `value` from `who`'s free balance to its reserved balance.
    pub fn reserve(&mut self, who: AccountId, value: Balance) -> (r: Result<(), DispatchError>)
        requires
            old(self).wf(),
        ensures
            final(self).wf(),
            final(self).asset_id == old(self).asset_id,
            final(self).issuance == old(self).issuance,
            r is Ok <==> value <= old(self).account(who).free,
            r is Ok ==> final(self).accounts@ == old(self).accounts@.insert(
                who,
                AccountData {
                    free: (old(self).account(who).free - value) as u64,
                    reserved: (old(self).account(who).reserved + value) as u64,
                },
            ),
            r is Err ==> r == Err::<(), DispatchError>(DispatchError::Assets(Error::BalanceTooLow))
                && *final(self) == *old(self),
    {
        let a = self.get_account(who);
        if value > a.free {
            return Err(DispatchError::Assets(Error::BalanceTooLow));
        }
        self.put_account(who, AccountData { free: a.free - value, reserved: a.reserved + value });
        Ok(())
    }

    /// Moves back to `who`'s free balance as much of `value` as it holds
    /// reserved, and returns what could not be moved.
    pub fn unreserve(&mut self, who: AccountId, value: Balance) -> (left: Balance)
        requires
            old(self).wf(),
        ensures
            final(self).wf(),
            final(self).asset_id == old(self).asset_id,
            final(self).issuance == old(self).issuance,
            value <= old(self).account(who).reserved ==> left == 0,
            value > old(self).account(who).reserved ==> left == value - old(self).account(
                who,
            ).reserved,
            final(self).account(who) == (AccountData {
                free: (old(self).account(who).free + (value - left)) as u64,
                reserved: (old(self).account(who).reserved - (value - left)) as u64,
            }),
            forall|a: AccountId| a != who ==> final(self).account(a) == old(self).account(a),
            left == value ==> *final(self) == *old(self),
    {
        let a = self.get_account(who);
        let actual = if value <= a.reserved {
            value
        } else {
            a.reserved
        };
        if actual == 0 {
            return value;
        }
        self.put_account(who, AccountData { free: a.free + actual, reserved: a.reserved - actual });
        value - actual
    }
}

} // verus!
