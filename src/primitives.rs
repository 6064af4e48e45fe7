//! Small types and hooks shared by the organization's components.

use vstd::prelude::*;
use vstd::slice::slice_subrange;

use crate::dao;
use crate::gov;
use crate::{AccountId, DaoAssetId, DispatchError};

verus! {

/// The id of an organization.
#[derive(Clone, Copy, Debug, Default, PartialEq, Eq, Structural)]
pub struct DaoId(pub u64);

impl From<u64> for DaoId {
    fn from(x: u64) -> (r: DaoId) {
        DaoId(x)
    }
}

impl vstd::std_specs::convert::FromSpecImpl<u64> for DaoId {
    open spec fn obeys_from_spec() -> bool {
        true
    }

    open spec fn from_spec(x: u64) -> DaoId {
        DaoId(x)
    }
}

impl From<DaoId> for u64 {
    fn from(x: DaoId) -> (r: u64) {
        x.0
    }
}

impl vstd::std_specs::convert::FromSpecImpl<DaoId> for u64 {
    open spec fn obeys_from_spec() -> bool {
        true
    }

    open spec fn from_spec(x: DaoId) -> u64 {
        x.0
    }
}

impl DaoId {
    /// The id one.
    pub fn one() -> (r: DaoId)
        ensures
            r == DaoId(1),
    {
        DaoId(1)
    }

    /// The product of two ids, which must fit.
    pub fn mul(self, d: DaoId) -> (r: DaoId)
        requires
            self.0 * d.0 <= u64::MAX,
        ensures
            r.0 == self.0 * d.0,
    {
        DaoId(self.0 * d.0)
    }

    /// The sum of two ids, which must fit.
    pub fn add(self, d: DaoId) -> (r: DaoId)
        requires
            self.0 + d.0 <= u64::MAX,
        ensures
            r.0 == self.0 + d.0,
    {
        DaoId(self.0 + d.0)
    }

    /// The sum of two ids, or `None` where it does not fit.
    pub fn checked_add(&self, d: &DaoId) -> (r: Option<DaoId>)
        ensures
            self.0 + d.0 <= u64::MAX ==> r == Some(DaoId((self.0 + d.0) as u64)),
            self.0 + d.0 > u64::MAX ==> r is None,
    {
        match self.0.checked_add(d.0) {
            Some(x) => Some(DaoId(x)),
            None => None,
        }
    }
}

/// A share of the members: `MoreThan(n, d)` asks for more than `n / d` of
/// them, `AtLeast(n, d)` for at least `n / d`.
#[derive(Clone, Copy, Debug, PartialEq, Eq, Structural)]
pub enum Proportion {
    /// More than the first number over the second.
    MoreThan(u32, u32),
    /// At least the first number over the second.
    AtLeast(u32, u32),
}

impl Default for Proportion {
    fn default() -> (r: Proportion)
        ensures
            r == Proportion::MoreThan(1, 1),
    {
        Proportion::MoreThan(1, 1)
    }
}

/// Who may act for an organization.
#[derive(Clone, Copy, Debug, PartialEq, Eq, Structural)]
pub enum DoAsEnsureOrigin<Pro, C> {
    /// A share of the members.
    Proportion(Pro),
    /// Any member.
    Member,
    /// A given number of members.
    Members(C),
    /// The organization's account.
    Root,
}

impl<Pro, C> Default for DoAsEnsureOrigin<Pro, C> {
    fn default() -> (r: DoAsEnsureOrigin<Pro, C>)
        ensures
            r == DoAsEnsureOrigin::<Pro, C>::Root,
    {
        DoAsEnsureOrigin::Root
    }
}

/// A caller that may not act.
#[derive(Clone, Copy, Debug, PartialEq, Eq, Structural)]
pub struct BadOrigin;

impl BadOrigin {
    /// What the refusal says.
    pub fn as_str(&self) -> (r: &'static str)
        ensures
            r@ == "invalid user"@,
    {
        "invalid user"
    }
}

/// Sets the members of an organization's collective, given in order.
pub trait SetCollectiveMembers<A, E> {
    /// Replaces the members of `dao_id`'s collective, with `prime` as its prime member.
    fn set_members_sorted(dao_id: DaoAssetId, members: &[A], prime: Option<A>) -> Result<(), E>;
}

impl SetCollectiveMembers<AccountId, DispatchError> for () {
    fn set_members_sorted(_dao_id: DaoAssetId, _members: &[AccountId], _prime: Option<AccountId>) -> Result<
        (),
        DispatchError,
    > {
        Ok(())
    }
}

/// What happens once an organization is created.
pub trait AfterCreate<A> {
    /// Runs after `a` created organization `b`.
    fn run_hook(a: A, b: DaoAssetId);
}

impl AfterCreate<AccountId> for () {
    fn run_hook(_a: AccountId, _b: DaoAssetId) {
    }
}

/// A check of a caller against an argument.
pub trait EnsureOriginWithArg<OuterOrigin, Argument> {
    /// The check, with the caller handed back where it fails.
    fn try_origin(o: OuterOrigin, a: &Argument) -> Result<u64, OuterOrigin>;

    /// The check, with `BadOrigin` where it fails.
    fn ensure_origin(o: OuterOrigin, a: &Argument) -> Result<u64, BadOrigin>;
}

impl<OuterOrigin, Argument> EnsureOriginWithArg<OuterOrigin, Argument> for () {
    fn try_origin(_o: OuterOrigin, _a: &Argument) -> Result<u64, OuterOrigin> {
        Ok(0)
    }

    fn ensure_origin(o: OuterOrigin, a: &Argument) -> Result<u64, BadOrigin> {
        match <() as EnsureOriginWithArg<OuterOrigin, Argument>>::try_origin(o, a) {
            Ok(s) => Ok(s),
            Err(_) => Err(BadOrigin),
        }
    }
}

/// Which actions an organization admits in its proposals.
pub trait BaseCallFilter<Call> {
    /// Whether `call` is admitted.
    fn contains(&self, call: Call) -> bool;
}

impl BaseCallFilter<gov::Call> for dao::Pallet {
    fn contains(&self, call: gov::Call) -> bool {
        self.call_allowed(call.call_id())
    }
}

/// A value that stands for an account.
pub trait AccountIdType<A>: Sized {
    /// The account it stands for.
    fn into_account(&self) -> A;

    /// The value that stands for `a`, if any.
    fn try_from_account(a: &A) -> Option<Self>;
}

/// `n` bytes read from `src`, with zeros where `src` runs out.
pub open spec fn trailing_read(src: Seq<u8>, n: nat) -> Seq<u8> {
    Seq::new(n, |i: int| if i < src.len() { src[i] } else { 0u8 })
}

/// A byte source that yields zeros once its bytes run out.
pub struct TrailingZeroInput<'a>(pub &'a [u8]);

impl<'a> TrailingZeroInput<'a> {
    /// How many bytes remain: unknown, as the zeros never end.
    pub fn remaining_len(&mut self) -> (r: Option<usize>)
        ensures
            r is None,
            final(self).0@ == old(self).0@,
    {
        None
    }

    /// Fills `into` with the next bytes, zeros past the end of the source.
    pub fn read(&mut self, into: &mut [u8])
        ensures
            final(into)@ == trailing_read(old(self).0@, old(into)@.len()),
            final(self).0@ == old(self).0@.subrange(
                if old(into)@.len() < old(self).0@.len() { old(into)@.len() as int } else { old(self).0@.len() as int },
                old(self).0@.len() as int,
            ),
    {
        let n = into.len();
        let len = if n < self.0.len() {
            n
        } else {
            self.0.len()
        };
        let mut i: usize = 0;
        while i < n
            invariant
                n == into@.len(),
                len <= n,
                len <= self.0@.len(),
                len == n || len == self.0@.len(),
                i <= n,
                self.0@ == old(self).0@,
                old(into)@.len() == n,
                forall|k: int| 0 <= k < i ==> into@[k] == trailing_read(self.0@, n as nat)[k],
            decreases n - i,
        {
            if i < len {
                into[i] = self.0[i];
            } else {
                into[i] = 0;
            }
            i = i + 1;
        }
        assert(into@ =~= trailing_read(self.0@, n as nat));
        self.0 = slice_subrange(self.0, len, self.0.len());
    }
}

/// What an organization is created from.
#[derive(Clone, Debug, Default)]
pub struct DaoPayload {
    /// Its name.
    pub name: Vec<u8>,
    /// What it is for.
    pub purpose: Vec<u8>,
    /// Further data.
    pub metadata: Vec<u8>,
    /// The id of its governance token, if it has one.
    pub token_id: Option<u32>,
    /// The address of its governance token, if it has one.
    pub token_address: Option<Vec<u8>>,
}

} // verus!
