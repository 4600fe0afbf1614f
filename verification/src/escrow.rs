//! The escrow funding pool of a series: a balance held at a derived address
//! whose authority is the derived address itself, not any user key.
use vstd::prelude::*;

use crate::addr::Address;

verus! {

/// A series' escrow account. The address and bump are fixed at
/// initialization by deterministic derivation from the series mint; only the
/// balance changes afterwards.
#[derive(Debug)]
pub struct EscrowAccount {
    /// The derived address the pool lives at, which is also its authority.
    pub addr: Address,
    /// The bump byte found by the derivation search for `addr`.
    pub bump: u8,
    /// The balance of the payout currency the pool holds.
    pub balance: u64,
}

/// The mathematical content of an [`EscrowAccount`].
#[verifier::ext_equal]
pub struct EscrowAccountV {
    pub addr: Seq<u8>,
    pub bump: u8,
    pub balance: nat,
}

impl View for EscrowAccount {
    type V = EscrowAccountV;

    open spec fn view(&self) -> EscrowAccountV {
        EscrowAccountV { addr: self.addr@, bump: self.bump, balance: self.balance as nat }
    }
}

impl EscrowAccount {
    pub open spec fn wf(&self) -> bool {
        self.addr.wf()
    }
}

} // verus!
