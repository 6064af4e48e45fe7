//! The directory of one organization: who created it, its on-chain account,
//! its guilds, and the member sets that decide who may propose and vote.
//!
//! Each member set is kept as a strictly increasing list of accounts, so that
//! membership is a binary search.

use std::collections::HashMap;
use vstd::prelude::*;

use crate::{AccountId, BlockNumber, CallId, DaoAssetId, DispatchError};

verus! {

broadcast use vstd::std_specs::hash::group_hash_axioms;

/// The longest purpose an organization may state, in bytes.
pub const MAX_PURPOSE_LEN: usize = 50;

/// The longest metadata an organization may carry, in bytes.
pub const MAX_META_DATA_LEN: usize = 1024;

/// Whether an organization or a guild is in use.
#[derive(Clone, Copy, Debug, PartialEq, Eq, Structural)]
pub enum Status {
    /// In use.
    Active,
    /// Not in use.
    InActive,
}

/// What is known of an organization.
#[derive(Clone, Debug)]
pub struct DaoInfo {
    /// The account that created it.
    pub creator: AccountId,
    /// The block at which it was created.
    pub start_block: BlockNumber,
    /// The account that acts for the organization; it is the organization's root.
    pub dao_account_id: AccountId,
    /// What the organization is for.
    pub purpose: Vec<u8>,
    /// Further data, such as images.
    pub meta_data: Vec<u8>,
    /// Whether it is in use.
    pub status: Status,
}

/// What is known of a guild.
#[derive(Clone, Debug)]
pub struct GuildInfo {
    /// The account that created it.
    pub creator: AccountId,
    /// The block at which it was created.
    pub start_block: BlockNumber,
    /// Its name.
    pub name: Vec<u8>,
    /// What it does.
    pub desc: Vec<u8>,
    /// Further data.
    pub meta_data: Vec<u8>,
    /// Whether it is in use.
    pub status: Status,
}

/// Why the directory refused an operation.
#[derive(Clone, Copy, Debug, PartialEq, Eq, Structural)]
pub enum Error {
    /// The organization, or the guild asked for, does not exist.
    DaoNotExists,
    /// The caller is not the organization's account, or the organization has no guild.
    BadOrigin,
    /// The account is already in the set it is added to, or not in the set it is removed from.
    InVailCall,
    /// The purpose is longer than `MAX_PURPOSE_LEN`.
    PurposeTooLong,
    /// The metadata is longer than `MAX_META_DATA_LEN`.
    MetaDataTooLong,
    /// A counter would pass its largest value.
    Overflow,
}

/// The entries of `s` increase strictly.
pub open spec fn sorted(s: Seq<AccountId>) -> bool {
    forall|i: int, j: int| 0 <= i < j < s.len() ==> s[i] < s[j]
}

/// The members of set `k` of a keyed family of sets; a set never written is empty.
pub open spec fn set_of(m: Map<u64, Vec<AccountId>>, k: u64) -> Seq<AccountId> {
    if m.contains_key(k) {
        m[k]@
    } else {
        Seq::empty()
    }
}

/// Every set of the family is sorted.
pub open spec fn all_sorted(m: Map<u64, Vec<AccountId>>) -> bool {
    forall|k: u64| #[trigger] m.contains_key(k) ==> sorted(m[k]@)
}

/// Finds `x` in the sorted `v`: `Ok` with its position, or `Err` with the
/// position at which it would be inserted.
pub fn search(v: &Vec<AccountId>, x: AccountId) -> (r: Result<usize, usize>)
    requires
        sorted(v@),
    ensures
        r matches Ok(i) ==> i < v@.len() && v@[i as int] == x,
        r matches Err(i) ==> i <= v@.len() && !v@.contains(x) && (forall|k: int|
            0 <= k < i ==> v@[k] < x) && (forall|k: int| i <= k < v@.len() ==> v@[k] > x),
        r is Ok <==> v@.contains(x),
{
    let mut lo: usize = 0;
    let mut hi: usize = v.len();
    while lo < hi
        invariant
            sorted(v@),
            lo <= hi <= v@.len(),
            forall|k: int| 0 <= k < lo ==> v@[k] < x,
            forall|k: int| hi <= k < v@.len() ==> v@[k] > x,
        decreases hi - lo,
    {
        let mid = lo + (hi - lo) / 2;
        if v[mid] == x {
            return Ok(mid);
        } else if v[mid] < x {
            lo = mid + 1;
        } else {
            hi = mid;
        }
    }
    assert(!v@.contains(x)) by {
        if v@.contains(x) {
            let k = choose|k: int| 0 <= k < v@.len() && v@[k] == x;
            assert(v@[k] == x);
        }
    }
    Err(lo)
}

/// Adds `x` to the sorted `v`, and returns where it now stands; refuses an
/// `x` that is there already.
pub fn insert_sorted(v: &mut Vec<AccountId>, x: AccountId) -> (r: Result<usize, DispatchError>)
    requires
        sorted(old(v)@),
    ensures
        sorted(final(v)@),
        r is Ok <==> !old(v)@.contains(x),
        r matches Ok(i) ==> final(v)@ == old(v)@.insert(i as int, x),
        r is Err ==> r == Err::<usize, DispatchError>(DispatchError::Dao(Error::InVailCall))
            && *final(v) == *old(v),
        forall|y: AccountId| final(v)@.contains(y) <==> (old(v)@.contains(y) || (r is Ok && y == x)),
{
    match search(v, x) {
        Ok(_) => Err(DispatchError::Dao(Error::InVailCall)),
        Err(i) => {
            v.insert(i, x);
            assert forall|y: AccountId| v@.contains(y) <==> (old(v)@.contains(y) || y == x) by {
                if v@.contains(y) {
                    let k = choose|k: int| 0 <= k < v@.len() && v@[k] == y;
                    if k < i {
                        assert(old(v)@[k] == y);
                    } else if k > i {
                        assert(old(v)@[k - 1] == y);
                    }
                }
                if old(v)@.contains(y) {
                    let k = choose|k: int| 0 <= k < old(v)@.len() && old(v)@[k] == y;
                    if k < i {
                        assert(v@[k] == y);
                    } else {
                        assert(v@[k + 1] == y);
                    }
                }
                if y == x {
                    assert(v@[i as int] == y);
                }
            }
            Ok(i)
        },
    }
}

/// Takes `x` out of the sorted `v`, and returns where it stood; refuses an
/// `x` that is not there.
pub fn remove_sorted(v: &mut Vec<AccountId>, x: AccountId) -> (r: Result<usize, DispatchError>)
    requires
        sorted(old(v)@),
    ensures
        sorted(final(v)@),
        r is Ok <==> old(v)@.contains(x),
        r matches Ok(i) ==> i < old(v)@.len() && old(v)@[i as int] == x && final(v)@ == old(
            v,
        )@.remove(i as int),
        r is Err ==> r == Err::<usize, DispatchError>(DispatchError::Dao(Error::InVailCall))
            && *final(v) == *old(v),
        forall|y: AccountId| final(v)@.contains(y) <==> (old(v)@.contains(y) && y != x),
{
    match search(v, x) {
        Ok(i) => {
            v.remove(i);
            assert forall|y: AccountId| v@.contains(y) <==> (old(v)@.contains(y) && y != x) by {
                if v@.contains(y) {
                    let k = choose|k: int| 0 <= k < v@.len() && v@[k] == y;
                    if k < i {
                        assert(old(v)@[k] == y);
                    } else {
                        assert(old(v)@[k + 1] == y);
                    }
                }
                if old(v)@.contains(y) && y != x {
                    let k = choose|k: int| 0 <= k < old(v)@.len() && old(v)@[k] == y;
                    if k < i {
                        assert(v@[k] == y);
                    } else {
                        assert(v@[k - 1] == y);
                    }
                }
            }
            Ok(i)
        },
        Err(_) => Err(DispatchError::Dao(Error::InVailCall)),
    }
}

/// Adds `x` to set `k` of the family `m`.
fn add_to_family(m: &mut HashMap<u64, Vec<AccountId>>, k: u64, x: AccountId) -> (r: Result<
    usize,
    DispatchError,
>)
    requires
        all_sorted(old(m)@),
    ensures
        all_sorted(final(m)@),
        r is Ok <==> !set_of(old(m)@, k).contains(x),
        r matches Ok(i) ==> set_of(final(m)@, k) == set_of(old(m)@, k).insert(i as int, x),
        forall|y: AccountId| #[trigger] set_of(final(m)@, k).contains(y) <==> (set_of(old(m)@, k).contains(y) || (r is Ok && y == x)),
        r is Err ==> r == Err::<usize, DispatchError>(DispatchError::Dao(Error::InVailCall))
            && *final(m) == *old(m),
        forall|j: u64| j != k ==> set_of(final(m)@, j) == set_of(old(m)@, j),
{
    let mut v = match m.get(&k) {
        Some(v) => v.clone(),
        None => Vec::new(),
    };
    assert(v@ =~= set_of(old(m)@, k));
    let r = insert_sorted(&mut v, x);
    if r.is_ok() {
        m.insert(k, v);
        assert forall|j: u64| #[trigger] m@.contains_key(j) implies sorted(m@[j]@) by {
            if j != k {
                assert(old(m)@.contains_key(j));
            }
        }
    }
    r
}

/// Takes `x` out of set `k` of the family `m`.
fn remove_from_family(m: &mut HashMap<u64, Vec<AccountId>>, k: u64, x: AccountId) -> (r: Result<
    usize,
    DispatchError,
>)
    requires
        all_sorted(old(m)@),
    ensures
        all_sorted(final(m)@),
        r is Ok <==> set_of(old(m)@, k).contains(x),
        r matches Ok(i) ==> i < set_of(old(m)@, k).len() && set_of(old(m)@, k)[i as int] == x
            && set_of(final(m)@, k) == set_of(old(m)@, k).remove(i as int),
        r is Err ==> r == Err::<usize, DispatchError>(DispatchError::Dao(Error::InVailCall))
            && *final(m) == *old(m),
        forall|j: u64| j != k ==> set_of(final(m)@, j) == set_of(old(m)@, j),
{
    let mut v = match m.get(&k) {
        Some(v) => v.clone(),
        None => Vec::new(),
    };
    assert(v@ =~= set_of(old(m)@, k));
    let r = remove_sorted(&mut v, x);
    if r.is_ok() {
        m.insert(k, v);
        assert forall|j: u64| #[trigger] m@.contains_key(j) implies sorted(m@[j]@) by {
            if j != k {
                assert(old(m)@.contains_key(j));
            }
        }
    }
    r
}

/// The directory of one organization.
#[derive(Clone, Debug)]
pub struct Pallet {
    /// The organization's id.
    pub dao_id: DaoAssetId,
    /// What is known of it.
    pub info: DaoInfo,
    /// Its guilds; the first is the core team.
    pub guilds: Vec<GuildInfo>,
    /// Its members, strictly increasing.
    pub members: Vec<AccountId>,
    /// The members of each guild, by guild id, each strictly increasing.
    pub guild_members: HashMap<u64, Vec<AccountId>>,
    /// The members of each project, by project id, each strictly increasing.
    pub project_members: HashMap<u64, Vec<AccountId>>,
    /// The points each member has earned.
    pub member_points: HashMap<AccountId, u32>,
    /// The kinds of action that proposals of this organization may carry.
    pub allowed_calls: Vec<CallId>,
}

impl Pallet {
    /// Every member set is strictly increasing.
    pub open spec fn wf(&self) -> bool {
        &&& sorted(self.members@)
        &&& all_sorted(self.guild_members@)
        &&& all_sorted(self.project_members@)
    }

    /// The members of guild `guild_id`.
    pub open spec fn guild_set(&self, guild_id: u64) -> Seq<AccountId> {
        set_of(self.guild_members@, guild_id)
    }

    /// The members of project `project_id`.
    pub open spec fn project_set(&self, project_id: u64) -> Seq<AccountId> {
        set_of(self.project_members@, project_id)
    }

    /// The points of `who`.
    pub open spec fn points_of(&self, who: AccountId) -> u32 {
        if self.member_points@.contains_key(who) {
            self.member_points@[who]
        } else {
            0
        }
    }

    /// Creates organization `dao_id` at block `now`, acting through
    /// `dao_account`. Its creator becomes its first member and the first
    /// member of its core team, guild 0.
    pub fn create_dao(
        creator: AccountId,
        dao_id: DaoAssetId,
        dao_account: AccountId,
        purpose: Vec<u8>,
        meta_data: Vec<u8>,
        allowed_calls: Vec<CallId>,
        now: BlockNumber,
    ) -> (r: Result<Self, DispatchError>)
        ensures
            purpose@.len() > MAX_PURPOSE_LEN ==> r == Err::<Self, DispatchError>(
                DispatchError::Dao(Error::PurposeTooLong),
            ),
            purpose@.len() <= MAX_PURPOSE_LEN && meta_data@.len() > MAX_META_DATA_LEN ==> r
                == Err::<Self, DispatchError>(DispatchError::Dao(Error::MetaDataTooLong)),
            r is Ok <==> purpose@.len() <= MAX_PURPOSE_LEN && meta_data@.len() <= MAX_META_DATA_LEN,
            r matches Ok(d) ==> {
                &&& d.wf()
                &&& d.dao_id == dao_id
                &&& d.info.creator == creator
                &&& d.info.start_block == now
                &&& d.info.dao_account_id == dao_account
                &&& d.info.purpose@ == purpose@
                &&& d.info.meta_data@ == meta_data@
                &&& d.info.status == Status::Active
                &&& d.guilds@.len() == 1
                &&& d.guilds@[0].creator == creator
                &&& d.members@ == seq![creator]
                &&& d.guild_members@ == Map::<u64, Vec<AccountId>>::empty().insert(0, d.guild_members@[0])
                &&& d.guild_members@[0]@ == seq![creator]
                &&& d.project_members@ == Map::<u64, Vec<AccountId>>::empty()
                &&& d.member_points@ == Map::<AccountId, u32>::empty()
                &&& d.allowed_calls@ == allowed_calls@
            },
    {
        if purpose.len() > MAX_PURPOSE_LEN {
            return Err(DispatchError::Dao(Error::PurposeTooLong));
        }
        if meta_data.len() > MAX_META_DATA_LEN {
            return Err(DispatchError::Dao(Error::MetaDataTooLong));
        }
        let core_team = GuildInfo {
            creator,
            start_block: now,
            name: vec![99u8, 111, 114, 101, 32, 116, 101, 97, 109],
            desc: Vec::new(),
            meta_data: vec![123u8, 125],
            status: Status::Active,
        };
        let mut guilds = Vec::new();
        guilds.push(core_team);
        let mut members = Vec::new();
        members.push(creator);
        let mut core_members = Vec::new();
        core_members.push(creator);
        let mut guild_members = HashMap::new();
        guild_members.insert(0u64, core_members);
        let d = Pallet {
            dao_id,
            info: DaoInfo {
                creator,
                start_block: now,
                dao_account_id: dao_account,
                purpose,
                meta_data,
                status: Status::Active,
            },
            guilds,
            members,
            guild_members,
            project_members: HashMap::new(),
            member_points: HashMap::new(),
            allowed_calls,
        };
        assert(d.members@ =~= seq![creator]);
        assert(d.guild_members@[0]@ =~= seq![creator]);
        assert(d.guild_members@ =~= Map::<u64, Vec<AccountId>>::empty().insert(0, d.guild_members@[0]));
        Ok(d)
    }

    /// The account that created the organization.
    pub fn try_get_creator(&self) -> (r: Result<AccountId, DispatchError>)
        ensures
            r == Ok::<AccountId, DispatchError>(self.info.creator),
    {
        Ok(self.info.creator)
    }

    /// What is known of the organization.
    pub fn try_get_dao(&self) -> (r: Result<&DaoInfo, DispatchError>)
        ensures
            r == Ok::<&DaoInfo, DispatchError>(&self.info),
    {
        Ok(&self.info)
    }

    /// What is known of guild `guild_index`.
    pub fn try_get_guild(&self, guild_index: u32) -> (r: Result<&GuildInfo, DispatchError>)
        ensures
            guild_index < self.guilds@.len() ==> r == Ok::<&GuildInfo, DispatchError>(
                &self.guilds@[guild_index as int],
            ),
            guild_index >= self.guilds@.len() ==> r == Err::<&GuildInfo, DispatchError>(
                DispatchError::Dao(Error::DaoNotExists),
            ),
    {
        if (guild_index as usize) < self.guilds.len() {
            Ok(&self.guilds[guild_index as usize])
        } else {
            Err(DispatchError::Dao(Error::DaoNotExists))
        }
    }

    /// The account that acts for the organization.
    pub fn try_get_dao_account_id(&self) -> (r: Result<AccountId, DispatchError>)
        ensures
            r == Ok::<AccountId, DispatchError>(self.info.dao_account_id),
    {
        Ok(self.info.dao_account_id)
    }

    /// Accepts `who` only if it is the organization's own account.
    pub fn ensrue_dao_root(&self, who: AccountId) -> (r: Result<AccountId, DispatchError>)
        ensures
            who == self.info.dao_account_id ==> r == Ok::<AccountId, DispatchError>(who),
            who != self.info.dao_account_id ==> r == Err::<AccountId, DispatchError>(
                DispatchError::Dao(Error::BadOrigin),
            ),
    {
        if who == self.info.dao_account_id {
            Ok(who)
        } else {
            Err(DispatchError::Dao(Error::BadOrigin))
        }
    }

    /// Whether proposals may carry actions of kind `call_id`.
    pub fn call_allowed(&self, call_id: CallId) -> (r: bool)
        ensures
            r == self.allowed_calls@.contains(call_id),
    {
        let mut i: usize = 0;
        while i < self.allowed_calls.len()
            invariant
                i <= self.allowed_calls@.len(),
                forall|k: int| 0 <= k < i ==> self.allowed_calls@[k] != call_id,
            decreases self.allowed_calls@.len() - i,
        {
            if self.allowed_calls[i] == call_id {
                return true;
            }
            i = i + 1;
        }
        false
    }

    /// Whether `who` is a member of the organization.
    pub fn is_member(&self, who: AccountId) -> (r: bool)
        requires
            self.wf(),
        ensures
            r == self.members@.contains(who),
    {
        search(&self.members, who).is_ok()
    }

    /// Adds `who` to the organization's members, and returns where it stands
    /// in the set.
    pub fn try_add_member(&mut self, who: AccountId) -> (r: Result<usize, DispatchError>)
        requires
            old(self).wf(),
        ensures
            final(self).wf(),
            r is Ok <==> !old(self).members@.contains(who),
            r matches Ok(i) ==> final(self).members@ == old(self).members@.insert(i as int, who),
            forall|y: AccountId| #[trigger] final(self).members@.contains(y) <==> (old(self).members@.contains(y) || (r is Ok && y == who)),
            r is Err ==> r == Err::<usize, DispatchError>(DispatchError::Dao(Error::InVailCall)),
            r is Err ==> *final(self) == *old(self),
            final(self).info == old(self).info && final(self).guilds == old(self).guilds,
            final(self).guild_members == old(self).guild_members,
            final(self).project_members == old(self).project_members,
            final(self).member_points == old(self).member_points,
            final(self).allowed_calls == old(self).allowed_calls,
            final(self).dao_id == old(self).dao_id,
    {
        insert_sorted(&mut self.members, who)
    }

    /// Takes `who` out of the organization's members, and returns where it stood.
    pub fn try_remove_member(&mut self, who: AccountId) -> (r: Result<usize, DispatchError>)
        requires
            old(self).wf(),
        ensures
            final(self).wf(),
            r is Ok <==> old(self).members@.contains(who),
            r matches Ok(i) ==> old(self).members@[i as int] == who && final(self).members@ == old(
                self,
            ).members@.remove(i as int),
            forall|y: AccountId| #[trigger] final(self).members@.contains(y) <==> (old(self).members@.contains(y) && y != who),
            r is Err ==> r == Err::<usize, DispatchError>(DispatchError::Dao(Error::InVailCall)),
            r is Err ==> *final(self) == *old(self),
            final(self).info == old(self).info && final(self).guilds == old(self).guilds,
            final(self).guild_members == old(self).guild_members,
            final(self).project_members == old(self).project_members,
            final(self).member_points == old(self).member_points,
            final(self).allowed_calls == old(self).allowed_calls,
            final(self).dao_id == old(self).dao_id,
    {
        remove_sorted(&mut self.members, who)
    }
    /// Adds `who` to guild `guild_id`; refused while the organization has no guild.
    pub fn try_add_guild_member(&mut self, guild_id: u64, who: AccountId) -> (r: Result<
        usize,
        DispatchError,
    >)
        requires
            old(self).wf(),
        ensures
            final(self).wf(),
            old(self).guilds@.len() == 0 ==> r == Err::<usize, DispatchError>(
                DispatchError::Dao(Error::BadOrigin),
            ),
            r is Ok <==> old(self).guilds@.len() > 0 && !old(self).guild_set(guild_id).contains(who),
            r matches Ok(i) ==> final(self).guild_set(guild_id) == old(self).guild_set(
                guild_id,
            ).insert(i as int, who),
            r is Err ==> *final(self) == *old(self),
            forall|j: u64| j != guild_id ==> final(self).guild_set(j) == old(self).guild_set(j),
            final(self).members == old(self).members && final(self).info == old(self).info,
            final(self).guilds == old(self).guilds,
            final(self).project_members == old(self).project_members,
            final(self).member_points == old(self).member_points,
            final(self).allowed_calls == old(self).allowed_calls,
            final(self).dao_id == old(self).dao_id,
    {
        if self.guilds.len() == 0 {
            return Err(DispatchError::Dao(Error::BadOrigin));
        }
        add_to_family(&mut self.guild_members, guild_id, who)
    }

    /// Takes `who` out of guild `guild_id`; refused while the organization has no guild.
    pub fn try_remove_guild_member(&mut self, guild_id: u64, who: AccountId) -> (r: Result<
        usize,
        DispatchError,
    >)
        requires
            old(self).wf(),
        ensures
            final(self).wf(),
            old(self).guilds@.len() == 0 ==> r == Err::<usize, DispatchError>(
                DispatchError::Dao(Error::BadOrigin),
            ),
            r is Ok <==> old(self).guilds@.len() > 0 && old(self).guild_set(guild_id).contains(who),
            r matches Ok(i) ==> final(self).guild_set(guild_id) == old(self).guild_set(
                guild_id,
            ).remove(i as int),
            r is Err ==> *final(self) == *old(self),
            forall|j: u64| j != guild_id ==> final(self).guild_set(j) == old(self).guild_set(j),
            final(self).members == old(self).members && final(self).info == old(self).info,
            final(self).guilds == old(self).guilds,
            final(self).project_members == old(self).project_members,
            final(self).member_points == old(self).member_points,
            final(self).allowed_calls == old(self).allowed_calls,
            final(self).dao_id == old(self).dao_id,
    {
        if self.guilds.len() == 0 {
            return Err(DispatchError::Dao(Error::BadOrigin));
        }
        remove_from_family(&mut self.guild_members, guild_id, who)
    }

    /// Adds `who` to project `project_id`.
    pub fn try_add_project_member(&mut self, project_id: u64, who: AccountId) -> (r: Result<
        usize,
        DispatchError,
    >)
        requires
            old(self).wf(),
        ensures
            final(self).wf(),
            r is Ok <==> !old(self).project_set(project_id).contains(who),
            r matches Ok(i) ==> final(self).project_set(project_id) == old(self).project_set(
                project_id,
            ).insert(i as int, who),
            r is Err ==> r == Err::<usize, DispatchError>(DispatchError::Dao(Error::InVailCall)),
            r is Err ==> *final(self) == *old(self),
            forall|j: u64| j != project_id ==> final(self).project_set(j) == old(self).project_set(j),
            final(self).members == old(self).members && final(self).info == old(self).info,
            final(self).guilds == old(self).guilds,
            final(self).guild_members == old(self).guild_members,
            final(self).member_points == old(self).member_points,
            final(self).allowed_calls == old(self).allowed_calls,
            final(self).dao_id == old(self).dao_id,
    {
        add_to_family(&mut self.project_members, project_id, who)
    }

    /// Takes `who` out of project `project_id`.
    pub fn try_remove_project_member(&mut self, project_id: u64, who: AccountId) -> (r: Result<
        usize,
        DispatchError,
    >)
        requires
            old(self).wf(),
        ensures
            final(self).wf(),
            r is Ok <==> old(self).project_set(project_id).contains(who),
            r matches Ok(i) ==> final(self).project_set(project_id) == old(self).project_set(
                project_id,
            ).remove(i as int),
            r is Err ==> r == Err::<usize, DispatchError>(DispatchError::Dao(Error::InVailCall)),
            r is Err ==> *final(self) == *old(self),
            forall|j: u64| j != project_id ==> final(self).project_set(j) == old(self).project_set(j),
            final(self).members == old(self).members && final(self).info == old(self).info,
            final(self).guilds == old(self).guilds,
            final(self).guild_members == old(self).guild_members,
            final(self).member_points == old(self).member_points,
            final(self).allowed_calls == old(self).allowed_calls,
            final(self).dao_id == old(self).dao_id,
    {
        remove_from_family(&mut self.project_members, project_id, who)
    }

    /// Adds `point` to the points of `who`, and returns its new total.
    pub fn try_add_member_point(&mut self, who: AccountId, point: u32) -> (r: Result<
        u32,
        DispatchError,
    >)
        requires
            old(self).wf(),
        ensures
            final(self).wf(),
            r is Ok <==> old(self).points_of(who) + point <= u32::MAX,
            r matches Ok(p) ==> p == old(self).points_of(who) + point
                && final(self).member_points@ == old(self).member_points@.insert(who, p),
            r is Err ==> r == Err::<u32, DispatchError>(DispatchError::Dao(Error::Overflow))
                && *final(self) == *old(self),
            final(self).members == old(self).members && final(self).info == old(self).info,
            final(self).guilds == old(self).guilds,
            final(self).guild_members == old(self).guild_members,
            final(self).project_members == old(self).project_members,
            final(self).allowed_calls == old(self).allowed_calls,
            final(self).dao_id == old(self).dao_id,
    {
        let p: u32 = match self.member_points.get(&who) {
            Some(p) => *p,
            None => 0,
        };
        match p.checked_add(point) {
            Some(n) => {
                self.member_points.insert(who, n);
                Ok(n)
            },
            None => Err(DispatchError::Dao(Error::Overflow)),
        }
    }
    /// Adds `who` to guild `guild_id`; only the organization's account may.
    pub fn guild_join_request(&mut self, me: AccountId, guild_id: u64, who: AccountId) -> (r: Result<
        (),
        DispatchError,
    >)
        requires
            old(self).wf(),
        ensures
            final(self).wf(),
            me != old(self).info.dao_account_id ==> r == Err::<(), DispatchError>(
                DispatchError::Dao(Error::BadOrigin),
            ),
            me == old(self).info.dao_account_id && old(self).guilds@.len() == 0 ==> r == Err::<(), DispatchError>(
                DispatchError::Dao(Error::BadOrigin),
            ),
            me == old(self).info.dao_account_id && old(self).guilds@.len() > 0 && old(self).guild_set(guild_id).contains(who)
                ==> r == Err::<(), DispatchError>(DispatchError::Dao(Error::InVailCall)),
            r is Ok <==> me == old(self).info.dao_account_id && old(self).guilds@.len() > 0
                && !old(self).guild_set(guild_id).contains(who),
            r is Err ==> *final(self) == *old(self),
            r is Ok ==> (forall|y: AccountId| #[trigger] final(self).guild_set(guild_id).contains(y) <==> (old(self).guild_set(guild_id).contains(y) || y == who)),
            forall|j: u64| j != guild_id ==> #[trigger] final(self).guild_set(j) == old(self).guild_set(j),
            *final(self) == (Pallet { guild_members: final(self).guild_members, ..*old(self) }),
    {
        if let Err(e) = self.ensrue_dao_root(me) {
            return Err(e);
        }
        if self.guilds.len() == 0 {
            return Err(DispatchError::Dao(Error::BadOrigin));
        }
        match add_to_family(&mut self.guild_members, guild_id, who) {
            Ok(_) => Ok(()),
            Err(e) => Err(e),
        }
    }

    /// Creates a guild at block `now`; only the organization's account may,
    /// and it joins the core team if it is not in it yet. Returns the new
    /// guild's index.
    pub fn create_guild(
        &mut self,
        me: AccountId,
        name: Vec<u8>,
        desc: Vec<u8>,
        meta_data: Vec<u8>,
        now: BlockNumber,
    ) -> (r: Result<u64, DispatchError>)
        requires
            old(self).wf(),
        ensures
            final(self).wf(),
            me != old(self).info.dao_account_id ==> r == Err::<u64, DispatchError>(
                DispatchError::Dao(Error::BadOrigin),
            ),
            me == old(self).info.dao_account_id && desc@.len() > MAX_PURPOSE_LEN ==> r == Err::<
                u64,
                DispatchError,
            >(DispatchError::Dao(Error::PurposeTooLong)),
            me == old(self).info.dao_account_id && desc@.len() <= MAX_PURPOSE_LEN && meta_data@.len()
                > MAX_META_DATA_LEN ==> r == Err::<u64, DispatchError>(
                DispatchError::Dao(Error::MetaDataTooLong),
            ),
            r is Ok <==> me == old(self).info.dao_account_id && desc@.len() <= MAX_PURPOSE_LEN
                && meta_data@.len() <= MAX_META_DATA_LEN && old(self).guilds@.len() < u64::MAX,
            r is Err ==> *final(self) == *old(self),
            r matches Ok(i) ==> {
                &&& i == old(self).guilds@.len()
                &&& final(self).guilds@.len() == old(self).guilds@.len() + 1
                &&& final(self).guilds@.drop_last() == old(self).guilds@
                &&& final(self).guilds@.last().creator == me
                &&& final(self).guilds@.last().start_block == now
                &&& final(self).guilds@.last().name@ == name@
                &&& final(self).guilds@.last().desc@ == desc@
                &&& final(self).guilds@.last().meta_data@ == meta_data@
                &&& final(self).guilds@.last().status == Status::Active
                &&& forall|y: AccountId| #[trigger] final(self).guild_set(0).contains(y) <==> (old(self).guild_set(0).contains(y) || y == me)
                &&& forall|j: u64| j != 0 ==> #[trigger] final(self).guild_set(j) == old(self).guild_set(j)
                &&& *final(self) == (Pallet { guilds: final(self).guilds, guild_members: final(self).guild_members, ..*old(self) })
            },
    {
        if let Err(e) = self.ensrue_dao_root(me) {
            return Err(e);
        }
        if desc.len() > MAX_PURPOSE_LEN {
            return Err(DispatchError::Dao(Error::PurposeTooLong));
        }
        if meta_data.len() > MAX_META_DATA_LEN {
            return Err(DispatchError::Dao(Error::MetaDataTooLong));
        }
        let index = self.guilds.len();
        if index as u64 == u64::MAX {
            return Err(DispatchError::Dao(Error::Overflow));
        }
        self.guilds.push(GuildInfo { creator: me, start_block: now, name, desc, meta_data, status: Status::Active });
        let _ = add_to_family(&mut self.guild_members, 0, me);
        assert(self.guilds@.drop_last() =~= old(self).guilds@);
        Ok(index as u64)
    }

    /// Adds `who` to project `project_id`; only the organization's account may.
    pub fn project_join_request(&mut self, me: AccountId, project_id: u64, who: AccountId) -> (r: Result<
        (),
        DispatchError,
    >)
        requires
            old(self).wf(),
        ensures
            final(self).wf(),
            me != old(self).info.dao_account_id ==> r == Err::<(), DispatchError>(
                DispatchError::Dao(Error::BadOrigin),
            ),
            me == old(self).info.dao_account_id && old(self).project_set(project_id).contains(who) ==> r
                == Err::<(), DispatchError>(DispatchError::Dao(Error::InVailCall)),
            r is Ok <==> me == old(self).info.dao_account_id && !old(self).project_set(project_id).contains(who),
            r is Err ==> *final(self) == *old(self),
            r is Ok ==> (forall|y: AccountId| #[trigger] final(self).project_set(project_id).contains(y) <==> (old(self).project_set(project_id).contains(y) || y == who)),
            forall|j: u64| j != project_id ==> #[trigger] final(self).project_set(j) == old(self).project_set(j),
            *final(self) == (Pallet { project_members: final(self).project_members, ..*old(self) }),
    {
        if let Err(e) = self.ensrue_dao_root(me) {
            return Err(e);
        }
        match add_to_family(&mut self.project_members, project_id, who) {
            Ok(_) => Ok(()),
            Err(e) => Err(e),
        }
    }
}

/// The organizations created so far, with ids from 1 on.
#[derive(Clone, Debug)]
pub struct Daos {
    /// Organization `k + 1` is `daos[k]`.
    pub daos: Vec<Pallet>,
    /// The id that the next organization gets.
    pub next_dao_id: DaoAssetId,
}

impl Daos {
    /// The position of organization `dao_id`, if it exists.
    pub open spec fn slot(&self, dao_id: DaoAssetId) -> Option<int> {
        if 1 <= dao_id && dao_id - 1 < self.daos@.len() {
            Some(dao_id - 1)
        } else {
            None
        }
    }

    /// Ids are given in order from 1, and every directory is well formed.
    pub open spec fn wf(&self) -> bool {
        &&& self.next_dao_id == self.daos@.len() + 1
        &&& forall|k: int| 0 <= k < self.daos@.len() ==> #[trigger] self.daos@[k].dao_id == k + 1 && self.daos@[k].wf()
    }

    /// No organization yet.
    pub fn new() -> (r: Self)
        ensures
            r.wf(),
            r.daos@.len() == 0,
    {
        Daos { daos: Vec::new(), next_dao_id: 1 }
    }

    /// Creates an organization as `Pallet::create_dao` does, under the next
    /// id, and returns that id.
    pub fn create_dao(
        &mut self,
        creator: AccountId,
        dao_account: AccountId,
        purpose: Vec<u8>,
        meta_data: Vec<u8>,
        allowed_calls: Vec<CallId>,
        now: BlockNumber,
    ) -> (r: Result<DaoAssetId, DispatchError>)
        requires
            old(self).wf(),
        ensures
            final(self).wf(),
            r is Ok <==> purpose@.len() <= MAX_PURPOSE_LEN && meta_data@.len() <= MAX_META_DATA_LEN
                && old(self).next_dao_id < u64::MAX,
            r matches Ok(id) ==> id == old(self).next_dao_id && final(self).daos@.len() == old(self).daos@.len() + 1
                && final(self).daos@.last().info.creator == creator
                && final(self).daos@.last().info.dao_account_id == dao_account
                && final(self).daos@.last().info.start_block == now
                && final(self).daos@.drop_last() == old(self).daos@,
            r is Err ==> *final(self) == *old(self),
    {
        let dao_id = self.next_dao_id;
        if dao_id == u64::MAX {
            return Err(DispatchError::Dao(Error::Overflow));
        }
        let d = match Pallet::create_dao(creator, dao_id, dao_account, purpose, meta_data, allowed_calls, now) {
            Ok(d) => d,
            Err(e) => {
                return Err(e);
            },
        };
        self.daos.push(d);
        self.next_dao_id = dao_id + 1;
        assert(self.daos@.drop_last() =~= old(self).daos@);
        Ok(dao_id)
    }

    /// The directory of organization `dao_id`.
    pub fn try_get(&self, dao_id: DaoAssetId) -> (r: Result<&Pallet, DispatchError>)
        ensures
            self.slot(dao_id) matches Some(k) ==> r == Ok::<&Pallet, DispatchError>(&self.daos@[k]),
            self.slot(dao_id) is None ==> r == Err::<&Pallet, DispatchError>(DispatchError::Dao(Error::DaoNotExists)),
    {
        if 1 <= dao_id && dao_id - 1 < self.daos.len() as u64 {
            Ok(&self.daos[(dao_id - 1) as usize])
        } else {
            Err(DispatchError::Dao(Error::DaoNotExists))
        }
    }

    /// The account that created organization `dao_id`.
    pub fn try_get_creator(&self, dao_id: DaoAssetId) -> (r: Result<AccountId, DispatchError>)
        ensures
            self.slot(dao_id) matches Some(k) ==> r == Ok::<AccountId, DispatchError>(self.daos@[k].info.creator),
            self.slot(dao_id) is None ==> r == Err::<AccountId, DispatchError>(DispatchError::Dao(Error::DaoNotExists)),
    {
        match self.try_get(dao_id) {
            Ok(d) => Ok(d.info.creator),
            Err(e) => Err(e),
        }
    }

    /// What is known of organization `dao_id`.
    pub fn try_get_dao(&self, dao_id: DaoAssetId) -> (r: Result<&DaoInfo, DispatchError>)
        ensures
            self.slot(dao_id) matches Some(k) ==> r == Ok::<&DaoInfo, DispatchError>(&self.daos@[k].info),
            self.slot(dao_id) is None ==> r == Err::<&DaoInfo, DispatchError>(DispatchError::Dao(Error::DaoNotExists)),
    {
        match self.try_get(dao_id) {
            Ok(d) => Ok(&d.info),
            Err(e) => Err(e),
        }
    }

    /// The account that acts for organization `dao_id`.
    pub fn try_get_dao_account_id(&self, dao_id: DaoAssetId) -> (r: Result<AccountId, DispatchError>)
        ensures
            self.slot(dao_id) matches Some(k) ==> r == Ok::<AccountId, DispatchError>(self.daos@[k].info.dao_account_id),
            self.slot(dao_id) is None ==> r == Err::<AccountId, DispatchError>(DispatchError::Dao(Error::DaoNotExists)),
    {
        match self.try_get(dao_id) {
            Ok(d) => Ok(d.info.dao_account_id),
            Err(e) => Err(e),
        }
    }
}

} // verus!
