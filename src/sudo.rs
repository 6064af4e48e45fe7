//! The sudo capability of one organization: a designated account that may
//! carry out admitted actions with the organization's authority, without a
//! referendum, until the capability is closed.

use vstd::prelude::*;

use crate::dao;
use crate::gov;
use crate::gov::Call;
use crate::{AccountId, DispatchError};

verus! {

/// Why the sudo capability refused an operation.
#[derive(Clone, Copy, Debug, PartialEq, Eq, Structural)]
pub enum Error {
    /// The caller is not the sudo account.
    NotSudo,
    /// There is no sudo account, or the capability is closed.
    RootNotExists,
}

/// What a successful operation reports.
#[derive(Debug)]
pub enum Event {
    /// `sudo` carried out an action, which gave `sudo_result`.
    SudoDone { sudo: AccountId, sudo_result: Result<(), DispatchError> },
    /// The sudo account became `sudo_account`.
    SetSudo { sudo_account: AccountId },
    /// The capability was closed.
    CloseSudo,
}

/// The sudo capability of one organization.
#[derive(Clone, Copy, Debug, PartialEq, Eq, Structural)]
pub struct Pallet {
    /// The account that holds the capability, if any.
    pub account: Option<AccountId>,
    /// Whether the capability is closed for good.
    pub closed: bool,
}

impl Pallet {
    /// A capability held by `root`.
    pub fn new(root: AccountId) -> (r: Self)
        ensures
            r == (Pallet { account: Some(root), closed: false }),
    {
        Pallet { account: Some(root), closed: false }
    }

    /// Why `who` may not use the capability, ignoring whether it is closed.
    pub open spec fn sudo_error(&self, who: AccountId) -> Option<DispatchError> {
        match self.account {
            None => Some(DispatchError::Sudo(Error::RootNotExists)),
            Some(a) => if a != who {
                Some(DispatchError::Sudo(Error::NotSudo))
            } else {
                None
            },
        }
    }

    /// Why `who` may not use the capability, if it may not.
    pub open spec fn enabled_sudo_error(&self, who: AccountId) -> Option<DispatchError> {
        if self.closed {
            Some(DispatchError::Sudo(Error::RootNotExists))
        } else {
            self.sudo_error(who)
        }
    }

    /// Refuses a closed capability.
    pub fn check_enable(&self) -> (r: Result<(), DispatchError>)
        ensures
            self.closed ==> r == Err::<(), DispatchError>(DispatchError::Sudo(Error::RootNotExists)),
            !self.closed ==> r is Ok,
    {
        if self.closed {
            Err(DispatchError::Sudo(Error::RootNotExists))
        } else {
            Ok(())
        }
    }

    /// Accepts `who` only if it holds the capability.
    pub fn check_sudo(&self, who: AccountId) -> (r: Result<AccountId, DispatchError>)
        ensures
            self.sudo_error(who) matches Some(e) ==> r == Err::<AccountId, DispatchError>(e),
            self.sudo_error(who) is None ==> r == Ok::<AccountId, DispatchError>(who),
    {
        match self.account {
            None => Err(DispatchError::Sudo(Error::RootNotExists)),
            Some(a) => if a != who {
                Err(DispatchError::Sudo(Error::NotSudo))
            } else {
                Ok(who)
            },
        }
    }

    /// `who`, holding the capability, carries out `call` in organization
    /// `g` with the organization's authority. The action must be admitted by
    /// the organization; whether it then succeeds is reported.
    pub fn sudo<P: Copy>(&self, who: AccountId, g: &mut gov::Pallet<P>, call: Call) -> (r: Result<
        Event,
        DispatchError,
    >)
        requires
            old(g).wf(),
        ensures
            final(g).wf(),
            self.enabled_sudo_error(who) matches Some(e) ==> r == Err::<Event, DispatchError>(e),
            self.enabled_sudo_error(who) is None && !old(g).dao.allowed_calls@.contains(gov::call_id_of(call))
                ==> r == Err::<Event, DispatchError>(DispatchError::Dao(dao::Error::InVailCall)),
            r is Ok <==> self.enabled_sudo_error(who) is None && old(g).dao.allowed_calls@.contains(
                gov::call_id_of(call),
            ),
            r is Err ==> *final(g) == *old(g),
            r matches Ok(ev) ==> ev matches Event::SudoDone { sudo, sudo_result } && sudo == who
                && gov::Pallet::call_applied(*final(g), *old(g), old(g).dao.info.dao_account_id, call, sudo_result),
    {
        if let Err(e) = self.check_enable() {
            return Err(e);
        }
        let sudo = match self.check_sudo(who) {
            Ok(s) => s,
            Err(e) => {
                return Err(e);
            },
        };
        if !g.dao.call_allowed(call.call_id()) {
            return Err(DispatchError::Dao(dao::Error::InVailCall));
        }
        let origin = g.dao.info.dao_account_id;
        let sudo_result = g.dispatch(origin, call);
        Ok(Event::SudoDone { sudo, sudo_result })
    }

    /// `who`, holding the capability, hands it to `sudo_account`.
    pub fn set_sudo_account(&mut self, who: AccountId, sudo_account: AccountId) -> (r: Result<
        Event,
        DispatchError,
    >)
        ensures
            old(self).enabled_sudo_error(who) matches Some(e) ==> r == Err::<Event, DispatchError>(e)
                && *final(self) == *old(self),
            old(self).enabled_sudo_error(who) is None ==> r == Ok::<Event, DispatchError>(
                Event::SetSudo { sudo_account },
            ) && *final(self) == (Pallet { account: Some(sudo_account), ..*old(self) }),
    {
        if let Err(e) = self.check_enable() {
            return Err(e);
        }
        if let Err(e) = self.check_sudo(who) {
            return Err(e);
        }
        self.account = Some(sudo_account);
        Ok(Event::SetSudo { sudo_account })
    }

    /// `who`, holding the capability, closes it for good.
    pub fn close_sudo(&mut self, who: AccountId) -> (r: Result<Event, DispatchError>)
        ensures
            old(self).sudo_error(who) matches Some(e) ==> r == Err::<Event, DispatchError>(e)
                && *final(self) == *old(self),
            old(self).sudo_error(who) is None ==> r == Ok::<Event, DispatchError>(Event::CloseSudo)
                && *final(self) == (Pallet { closed: true, ..*old(self) }),
    {
        if let Err(e) = self.check_sudo(who) {
            return Err(e);
        }
        self.closed = true;
        Ok(Event::CloseSudo)
    }
}

} // verus!
