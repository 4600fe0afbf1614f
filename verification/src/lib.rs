//! An on-chain "tip box" protocol: a sponsor funds an escrow while a unique
//! collectible token is minted and bound to that escrow by deterministic
//! address derivation; a holder of the collectible may later redeem it once
//! for a fixed payout drawn from the escrow, and the protocol authority may
//! withdraw escrow funds administratively.
//!
//! The modules mirror the protocol's components: address derivation
//! ([`addr`]), token-account and escrow balances ([`token`], [`escrow`]),
//! the collectible's metadata record and its authenticity checks
//! ([`metadata`]), the per-series state and its one-time initialization
//! ([`series`]), the minting orchestrator ([`create`]), the redemption state
//! machine ([`redeem`]), the administrative withdrawal gate ([`withdraw`]),
//! and protocol-level laws proved over the operations' transition functions
//! ([`protocol`]).
use vstd::prelude::*;

pub mod addr;
pub mod create;
pub mod errors;
pub mod escrow;
pub mod metadata;
pub mod protocol;
pub mod redeem;
pub mod series;
pub mod token;
pub mod withdraw;

verus! {

/// Fixed price, in minor units of the payment currency, that a sponsor pays
/// for each minted collectible; the whole amount is credited to the escrow.
pub const MINT_PRICE: u64 = 8000000000;

/// Fixed payout, in minor units of the payment currency, released from the
/// escrow to the holder on a successful redemption.
pub const REDEEM_PAYOUT: u64 = 7000000000;

} // verus!
