//! The digest that identifies a proposal: BLAKE2b-256 over the action's
//! encoding, which is its variant index in one byte followed by its fields in
//! little-endian order.

use vstd::prelude::*;

use crate::gov::{Call, H256};

verus! {

/// The BLAKE2b-256 digest of `data`.
pub uninterp spec fn blake2_256_of(data: Seq<u8>) -> Seq<u8>;

/// Relies on `sp_core_hashing::blake2_256`: the 32-byte BLAKE2b digest of the
/// bytes, which depends on the bytes alone.
#[verifier::external_body]
fn blake2_256(data: &Vec<u8>) -> (r: H256)
    ensures
        r@ == blake2_256_of(data@),
{
    sp_core_hashing::blake2_256(data.as_slice())
}

/// The lowest `n` bytes of `x`, least significant first.
pub open spec fn le_bytes(x: nat, n: nat) -> Seq<u8>
    decreases n,
{
    if n == 0 {
        Seq::empty()
    } else {
        seq![(x % 256) as u8] + le_bytes(x / 256, (n - 1) as nat)
    }
}

/// The encoding of an action.
pub open spec fn encoded_call(c: Call) -> Seq<u8> {
    match c {
        Call::SetMinVoteWeightForEveryCall { call_id, min_vote_weight } => seq![0u8] + le_bytes(
            call_id as nat,
            4,
        ) + le_bytes(min_vote_weight as nat, 8),
        Call::SetMaxPublicProps { max } => seq![1u8] + le_bytes(max as nat, 4),
        Call::SetLaunchPeriod { period } => seq![2u8] + le_bytes(period as nat, 8),
        Call::SetMinimumDeposit { min } => seq![3u8] + le_bytes(min as nat, 8),
        Call::SetVotingPeriod { period } => seq![4u8] + le_bytes(period as nat, 8),
        Call::SetRerservePeriod { period } => seq![5u8] + le_bytes(period as nat, 8),
        Call::SetRunmentPeriod { period } => seq![6u8] + le_bytes(period as nat, 8),
        Call::AddMember { who } => seq![7u8] + le_bytes(who as nat, 8),
        Call::RemoveMember { who } => seq![8u8] + le_bytes(who as nat, 8),
        Call::ProjectJoinRequest { project_id, who } => seq![9u8] + le_bytes(project_id as nat, 8)
            + le_bytes(who as nat, 8),
        Call::GuildJoinRequest { guild_id, who } => seq![10u8] + le_bytes(guild_id as nat, 8)
            + le_bytes(who as nat, 8),
    }
}

/// The digest of an action.
pub open spec fn call_hash(c: Call) -> Seq<u8> {
    blake2_256_of(encoded_call(c))
}

/// Appends the lowest `n` bytes of `x`, least significant first.
fn push_le(v: &mut Vec<u8>, x: u64, n: usize)
    ensures
        final(v)@ == old(v)@ + le_bytes(x as nat, n as nat),
{
    let mut cur: u64 = x;
    let mut i: usize = 0;
    while i < n
        invariant
            i <= n,
            v@ + le_bytes(cur as nat, (n - i) as nat) == old(v)@ + le_bytes(x as nat, n as nat),
        decreases n - i,
    {
        let ghost before = v@;
        v.push((cur % 256) as u8);
        assert(le_bytes(cur as nat, (n - i) as nat) == seq![(cur % 256) as u8] + le_bytes(
            (cur / 256) as nat,
            (n - i - 1) as nat,
        ));
        assert(v@ + le_bytes((cur / 256) as nat, (n - i - 1) as nat) =~= before + le_bytes(
            cur as nat,
            (n - i) as nat,
        ));
        cur = cur / 256;
        i = i + 1;
    }
}

impl Call {
    /// The encoding of this action.
    pub fn encode(&self) -> (r: Vec<u8>)
        ensures
            r@ == encoded_call(*self),
    {
        let mut v: Vec<u8> = Vec::new();
        match *self {
            Call::SetMinVoteWeightForEveryCall { call_id, min_vote_weight } => {
                v.push(0u8);
                push_le(&mut v, call_id as u64, 4);
                push_le(&mut v, min_vote_weight, 8);
            },
            Call::SetMaxPublicProps { max } => {
                v.push(1u8);
                push_le(&mut v, max as u64, 4);
            },
            Call::SetLaunchPeriod { period } => {
                v.push(2u8);
                push_le(&mut v, period, 8);
            },
            Call::SetMinimumDeposit { min } => {
                v.push(3u8);
                push_le(&mut v, min, 8);
            },
            Call::SetVotingPeriod { period } => {
                v.push(4u8);
                push_le(&mut v, period, 8);
            },
            Call::SetRerservePeriod { period } => {
                v.push(5u8);
                push_le(&mut v, period, 8);
            },
            Call::SetRunmentPeriod { period } => {
                v.push(6u8);
                push_le(&mut v, period, 8);
            },
            Call::AddMember { who } => {
                v.push(7u8);
                push_le(&mut v, who, 8);
            },
            Call::RemoveMember { who } => {
                v.push(8u8);
                push_le(&mut v, who, 8);
            },
            Call::ProjectJoinRequest { project_id, who } => {
                v.push(9u8);
                push_le(&mut v, project_id, 8);
                push_le(&mut v, who, 8);
            },
            Call::GuildJoinRequest { guild_id, who } => {
                v.push(10u8);
                push_le(&mut v, guild_id, 8);
                push_le(&mut v, who, 8);
            },
        }
        assert(v@ =~= encoded_call(*self));
        v
    }

    /// The digest of this action.
    pub fn hash_of(&self) -> (r: H256)
        ensures
            r@ == call_hash(*self),
    {
        let bytes = self.encode();
        blake2_256(&bytes)
    }
}

} // verus!
