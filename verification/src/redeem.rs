//! The redemption state machine: a collectible's one-time exchange for the
//! fixed payout. Every precondition is checked before any fund movement, and
//! the use-counter and the payout move together or not at all.
use vstd::prelude::*;

use crate::addr::{derive_address, derive_spec, Address, SeedKind};
use crate::errors::ErrorCode;
use crate::escrow::EscrowAccountV;
use crate::metadata::{
    consumed_record_spec, has_remaining_use, verify, verify_outcome, MetadataSlot, MetadataSlotV,
};
use crate::series::{EntryV, Series, SeriesV};
use crate::token::{TokenAccount, TokenAccountV};
use crate::REDEEM_PAYOUT;

verus! {

/// The caller-supplied accounts of a redemption: the redeeming signer, the
/// series (payment) mint, the collectible mint, the token account said to
/// hold the collectible, and the address said to hold its metadata.
#[derive(Debug)]
pub struct Redeem {
    pub signer: Address,
    pub token_mint: Address,
    pub mint: Address,
    pub token_account: TokenAccount,
    pub metadata_account: Address,
}

/// The mathematical content of a [`Redeem`].
#[verifier::ext_equal]
pub struct RedeemV {
    pub signer: Seq<u8>,
    pub token_mint: Seq<u8>,
    pub mint: Seq<u8>,
    pub token_account: TokenAccountV,
    pub metadata_account: Seq<u8>,
}

impl View for Redeem {
    type V = RedeemV;

    open spec fn view(&self) -> RedeemV {
        RedeemV {
            signer: self.signer@,
            token_mint: self.token_mint@,
            mint: self.mint@,
            token_account: self.token_account@,
            metadata_account: self.metadata_account@,
        }
    }
}

/// The metadata slot a redemption of `mint` reads: the series' record for
/// that mint, or an empty slot when the series never issued it.
pub open spec fn slot_of(s: SeriesV, mint: Seq<u8>) -> MetadataSlotV {
    if s.has_entry(mint) {
        s.entries[s.entry_index(mint)].slot
    } else {
        MetadataSlotV::Empty
    }
}

/// The checks a redemption makes before it even looks at the redemption
/// right: the series binding and bump, the presented token account's owner,
/// mint and exact-one balance, the master-edition address, and the
/// authenticity of the metadata record — in that order.
pub open spec fn redeem_prechecks(s: SeriesV, c: RedeemV, bump: u8) -> Result<(), ErrorCode> {
    if c.token_mint != s.series_mint || bump != s.escrow.bump {
        Err(ErrorCode::AddressMismatch)
    } else if c.token_account.owner != c.signer {
        Err(ErrorCode::OwnerMismatch)
    } else if c.token_account.mint != c.mint {
        Err(ErrorCode::MintMismatch)
    } else if c.token_account.amount != 1 {
        Err(ErrorCode::BalanceInvariantViolated)
    } else {
        match derive_spec(SeedKind::Edition, s.cfg, c.mint) {
            None => Err(ErrorCode::AddressDerivationExhausted),
            Some(ed) => if s.has_entry(c.mint) && s.entries[s.entry_index(c.mint)].edition_addr
                != ed.0 {
                Err(ErrorCode::EditionAddressMismatch)
            } else {
                verify_outcome(s.cfg, c.metadata_account, c.mint, slot_of(s, c.mint))
            },
        }
    }
}

/// The verdict on a redemption, with every check made before any fund
/// movement: the prechecks, then the unconsumed redemption right, then the
/// escrow's funds.
pub open spec fn redeem_outcome(s: SeriesV, c: RedeemV, bump: u8) -> Result<(), ErrorCode> {
    match redeem_prechecks(s, c, bump) {
        Err(e) => Err(e),
        Ok(_) => match slot_of(s, c.mint) {
            MetadataSlotV::Present(rec) => if !has_remaining_use(rec) {
                Err(ErrorCode::AlreadyRedeemed)
            } else if s.escrow.balance < REDEEM_PAYOUT {
                Err(ErrorCode::InsufficientEscrowFunds)
            } else {
                Ok(())
            },
            _ => Err(ErrorCode::NotInitialized),
        },
    }
}

/// The series after a redemption attempt: on success the record's remaining
/// use goes one to zero and the escrow loses exactly the fixed payout,
/// together; on any failure nothing changes.
pub open spec fn redeem_step(s: SeriesV, c: RedeemV, bump: u8) -> SeriesV {
    if redeem_outcome(s, c, bump) is Ok {
        let i = s.entry_index(c.mint);
        let e = s.entries[i];
        let consumed = match e.slot {
            MetadataSlotV::Present(rec) => MetadataSlotV::Present(consumed_record_spec(rec)),
            other => other,
        };
        SeriesV {
            escrow: EscrowAccountV {
                balance: (s.escrow.balance - REDEEM_PAYOUT) as nat,
                ..s.escrow
            },
            entries: s.entries.update(i, EntryV { slot: consumed, ..e }),
            ..s
        }
    } else {
        s
    }
}

/// Redeems a collectible: validates ownership and authenticity, consumes the
/// collectible's one redemption right, and releases the fixed payout from
/// the series escrow to `to_account`, as [`redeem_outcome`] and
/// [`redeem_step`] state.
pub fn redeem(series: &mut Series, ctx: &Redeem, to_account: &mut TokenAccount, bump: u8) -> (r:
    Result<(), ErrorCode>)
    requires
        old(series)@.wf(),
        ctx.mint.wf(),
        old(to_account).amount + REDEEM_PAYOUT <= u64::MAX,
    ensures
        r == redeem_outcome(old(series)@, ctx@, bump),
        final(series)@ == redeem_step(old(series)@, ctx@, bump),
        final(series)@.wf(),
        r is Ok ==> final(to_account).amount == old(to_account).amount + REDEEM_PAYOUT
            && final(to_account).owner == old(to_account).owner
            && final(to_account).mint == old(to_account).mint,
        r is Err ==> *final(to_account) == *old(to_account),
{
    if !ctx.token_mint.same_as(&series.series_mint) || bump != series.escrow.bump {
        return Err(ErrorCode::AddressMismatch);
    }
    if !ctx.token_account.owner.same_as(&ctx.signer) {
        return Err(ErrorCode::OwnerMismatch);
    }
    if !ctx.token_account.mint.same_as(&ctx.mint) {
        return Err(ErrorCode::MintMismatch);
    }
    if ctx.token_account.amount != 1 {
        return Err(ErrorCode::BalanceInvariantViolated);
    }
    let ed = match derive_address(SeedKind::Edition, &series.cfg, &ctx.mint) {
        None => {
            return Err(ErrorCode::AddressDerivationExhausted);
        },
        Some(p) => p.0,
    };
    let idx = series.find_entry(&ctx.mint);
    let vres = match idx {
        Some(i) => {
            if !series.entries[i].edition_addr.same_as(&ed) {
                return Err(ErrorCode::EditionAddressMismatch);
            }
            verify(&series.cfg, &ctx.metadata_account, &ctx.mint, &series.entries[i].slot)
        },
        None => verify(&series.cfg, &ctx.metadata_account, &ctx.mint, &MetadataSlot::Empty),
    };
    if let Err(e) = vres {
        return Err(e);
    }
    // An authentic record exists, so the series issued this mint.
    let i = match idx {
        Some(i) => i,
        None => {
            // Unreachable: an empty slot never passes verification.
            return Err(ErrorCode::NotInitialized);
        },
    };
    let has_use = match &series.entries[i].slot {
        MetadataSlot::Present(rec) => match rec.uses {
            Some(u) => u.remaining >= 1,
            None => false,
        },
        _ => false,
    };
    if !has_use {
        return Err(ErrorCode::AlreadyRedeemed);
    }
    if series.escrow.balance < REDEEM_PAYOUT {
        return Err(ErrorCode::InsufficientEscrowFunds);
    }
    let mut e = series.entries.remove(i);
    match &mut e.slot {
        MetadataSlot::Present(rec) => {
            let consumed = crate::metadata::consume_use(rec);
            proof {
                assert(consumed is Ok);
            }
        },
        _ => {},
    }
    series.entries.insert(i, e);
    series.escrow.balance = series.escrow.balance - REDEEM_PAYOUT;
    to_account.amount = to_account.amount + REDEEM_PAYOUT;
    proof {
        assert(series@.entries =~= redeem_step(old(series)@, ctx@, bump).entries);
        assert(series@ =~~= redeem_step(old(series)@, ctx@, bump));
        assert(series@.wf());
    }
    Ok(())
}

} // verus!
