//! A payment- or collectible-token account as the protocol reads it: its
//! recorded owner, its mint, and the amount it holds.
use vstd::prelude::*;

use crate::addr::Address;

verus! {

/// A token account's recorded state.
#[derive(Debug)]
pub struct TokenAccount {
    /// The wallet or derived authority that owns the account.
    pub owner: Address,
    /// The mint whose units the account holds.
    pub mint: Address,
    /// How many minor units the account holds.
    pub amount: u64,
}

/// The mathematical content of a [`TokenAccount`].
#[verifier::ext_equal]
pub struct TokenAccountV {
    pub owner: Seq<u8>,
    pub mint: Seq<u8>,
    pub amount: nat,
}

impl View for TokenAccount {
    type V = TokenAccountV;

    open spec fn view(&self) -> TokenAccountV {
        TokenAccountV { owner: self.owner@, mint: self.mint@, amount: self.amount as nat }
    }
}

impl TokenAccount {
    pub open spec fn wf(&self) -> bool {
        self.owner.wf() && self.mint.wf()
    }
}

} // verus!
