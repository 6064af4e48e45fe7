//! Governance for on-chain organizations: proposals backed by stake,
//! referenda with pledged votes, time-gated enactment and stake release,
//! together with the asset ledger and member directory that they rely on.
//!
//! Every organization is one value of `gov::Pallet`; the host applies one
//! operation at a time to it and supplies the caller and the block number.

use vstd::prelude::*;

pub mod assets;
pub mod dao;
pub mod gov;
pub mod hashing;
pub mod laws;
pub mod primitives;
pub mod sudo;

verus! {

/// An account on the ledger.
pub type AccountId = u64;

/// An amount of an asset.
pub type Balance = u64;

/// A block height.
pub type BlockNumber = u64;

/// The identifier of an organization, which is also the id of its asset.
pub type DaoAssetId = u64;

/// The identifier of a kind of action, used to look up its vote threshold.
pub type CallId = u32;

/// The index of a proposal within its organization.
pub type PropIndex = u32;

/// The index of a referendum within its organization.
pub type ReferendumIndex = u32;

/// Why an operation was refused. A refused operation changes nothing.
#[derive(Clone, Copy, Debug, PartialEq, Eq, Structural)]
pub enum DispatchError {
    /// The caller may not perform the operation.
    BadOrigin,
    /// Refused by the member directory.
    Dao(dao::Error),
    /// Refused by the asset ledger.
    Assets(assets::Error),
    /// Refused by the governance engine.
    Gov(gov::Error),
    /// Refused by the sudo capability.
    Sudo(sudo::Error),
    /// Refused by a pledge, with a code of its own.
    Other(u32),
}

} // verus!
