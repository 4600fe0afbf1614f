//! The administrative withdrawal gate: an authority-only release of escrow
//! funds outside the redemption path.
use vstd::prelude::*;

use crate::addr::Address;
use crate::errors::ErrorCode;
use crate::escrow::EscrowAccountV;
use crate::series::{Series, SeriesV};
use crate::token::TokenAccount;

verus! {

/// The caller-supplied identities of an administrative withdrawal: the
/// signer claiming authority and the mint identifying the series whose
/// escrow is drawn from.
#[derive(Debug)]
pub struct Withdraw {
    pub authority: Address,
    pub token_mint: Address,
}

/// The verdict on a withdrawal: only the protocol's fixed authority may
/// withdraw, and only what the escrow holds — for any attempted amount,
/// including zero.
pub open spec fn withdraw_outcome(s: SeriesV, authority: Seq<u8>, amount: nat) -> Result<
    (),
    ErrorCode,
> {
    if authority != s.cfg.trusted_issuer {
        Err(ErrorCode::Unauthorized)
    } else if amount > s.escrow.balance {
        Err(ErrorCode::InsufficientEscrowFunds)
    } else {
        Ok(())
    }
}

/// The series after a withdrawal attempt: the escrow loses exactly the
/// amount on success and nothing otherwise; nothing else changes.
pub open spec fn withdraw_step(s: SeriesV, authority: Seq<u8>, amount: nat) -> SeriesV {
    if withdraw_outcome(s, authority, amount) is Ok {
        SeriesV {
            escrow: EscrowAccountV {
                balance: (s.escrow.balance - amount) as nat,
                ..s.escrow
            },
            ..s
        }
    } else {
        s
    }
}

/// Releases `amount` from the series escrow to `to_account`, gated on the
/// protocol authority's signature; the escrow signs for itself through its
/// derived authority, so no user key can move these funds.
pub fn withdraw(
    series: &mut Series,
    ctx: &Withdraw,
    amount: u64,
    to_account: &mut TokenAccount,
) -> (r: Result<(), ErrorCode>)
    requires
        old(series)@.wf(),
        old(to_account).amount + amount <= u64::MAX,
    ensures
        r == withdraw_outcome(old(series)@, ctx.authority@, amount as nat),
        final(series)@ == withdraw_step(old(series)@, ctx.authority@, amount as nat),
        final(series)@.wf(),
        r is Ok ==> final(to_account).amount == old(to_account).amount + amount
            && final(to_account).owner == old(to_account).owner
            && final(to_account).mint == old(to_account).mint,
        r is Err ==> *final(to_account) == *old(to_account),
{
    if !ctx.authority.same_as(&series.cfg.trusted_issuer) {
        return Err(ErrorCode::Unauthorized);
    }
    if amount > series.escrow.balance {
        return Err(ErrorCode::InsufficientEscrowFunds);
    }
    series.escrow.balance = series.escrow.balance - amount;
    to_account.amount = to_account.amount + amount;
    proof {
        assert(series@ =~~= withdraw_step(old(series)@, ctx.authority@, amount as nat));
    }
    Ok(())
}

} // verus!
