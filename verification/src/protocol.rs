//! Protocol-level laws, proved over the operations' transition functions:
//! the supply and payout shape of a create-then-redeem pair, exactly-once
//! consumption of a redemption right, the stability of the escrow's address
//! binding, the authorization boundary of withdrawals, and conservation of
//! escrow funds over arbitrary operation sequences.
use vstd::prelude::*;

use crate::addr::derive_spec;
use crate::addr::SeedKind;
use crate::create::{create_outcome, create_step, CreateV};
use crate::errors::ErrorCode;
use crate::metadata::{has_remaining_use, MetadataSlotV};
use crate::redeem::{redeem_outcome, redeem_prechecks, redeem_step, slot_of, RedeemV};
use crate::series::SeriesV;
use crate::withdraw::{withdraw_outcome, withdraw_step};
use crate::{MINT_PRICE, REDEEM_PAYOUT};

verus! {

/// One public operation against a series, with everything its verdict
/// depends on.
pub enum Cmd {
    Create(CreateV),
    Redeem(RedeemV, u8),
    Withdraw(Seq<u8>, nat),
}

/// The series after one operation: the operation's own step function.
pub open spec fn step(s: SeriesV, cmd: Cmd) -> SeriesV {
    match cmd {
        Cmd::Create(c) => create_step(s, c),
        Cmd::Redeem(c, bump) => redeem_step(s, c, bump),
        Cmd::Withdraw(authority, amount) => withdraw_step(s, authority, amount),
    }
}

/// The series after a whole sequence of operations, applied in order.
pub open spec fn run(s: SeriesV, t: Seq<Cmd>) -> SeriesV
    decreases t.len(),
{
    if t.len() == 0 {
        s
    } else {
        run(step(s, t[0]), t.drop_first())
    }
}

/// What one operation credits to the escrow: the mint price on a successful
/// creation, nothing otherwise.
pub open spec fn credited(s: SeriesV, cmd: Cmd) -> nat {
    match cmd {
        Cmd::Create(c) => if create_outcome(s, c) is Ok {
            MINT_PRICE as nat
        } else {
            0
        },
        _ => 0,
    }
}

/// What one operation pays out of the escrow to a redeemer: the fixed
/// payout on a successful redemption, nothing otherwise.
pub open spec fn paid_out(s: SeriesV, cmd: Cmd) -> nat {
    match cmd {
        Cmd::Redeem(c, bump) => if redeem_outcome(s, c, bump) is Ok {
            REDEEM_PAYOUT as nat
        } else {
            0
        },
        _ => 0,
    }
}

/// What one operation withdraws from the escrow administratively: the
/// requested amount on a successful withdrawal, nothing otherwise.
pub open spec fn withdrawn(s: SeriesV, cmd: Cmd) -> nat {
    match cmd {
        Cmd::Withdraw(authority, amount) => if withdraw_outcome(s, authority, amount) is Ok {
            amount
        } else {
            0
        },
        _ => 0,
    }
}

/// The sum of mint prices collected over a sequence of operations.
pub open spec fn total_collected(s: SeriesV, t: Seq<Cmd>) -> nat
    decreases t.len(),
{
    if t.len() == 0 {
        0
    } else {
        credited(s, t[0]) + total_collected(step(s, t[0]), t.drop_first())
    }
}

/// The sum of successful payouts over a sequence of operations.
pub open spec fn total_paid(s: SeriesV, t: Seq<Cmd>) -> nat
    decreases t.len(),
{
    if t.len() == 0 {
        0
    } else {
        paid_out(s, t[0]) + total_paid(step(s, t[0]), t.drop_first())
    }
}

/// The sum of successful withdrawals over a sequence of operations.
pub open spec fn total_withdrawn(s: SeriesV, t: Seq<Cmd>) -> nat
    decreases t.len(),
{
    if t.len() == 0 {
        0
    } else {
        withdrawn(s, t[0]) + total_withdrawn(step(s, t[0]), t.drop_first())
    }
}

/// One operation moves the escrow balance by exactly what it credits minus
/// what it pays or withdraws; a rejected operation moves nothing.
pub proof fn lemma_step_balance(s: SeriesV, cmd: Cmd)
    ensures
        step(s, cmd).escrow.balance + paid_out(s, cmd) + withdrawn(s, cmd) == s.escrow.balance
            + credited(s, cmd),
{
}

/// Fund conservation: over any sequence of creations, redemptions and
/// withdrawals, the escrow balance equals the opening balance plus the mint
/// prices collected, minus the payouts made, minus the amounts withdrawn —
/// and, the balance being a count of held units, it never goes negative:
/// every debit is guarded by the balance it needs.
pub proof fn lemma_fund_conservation(s: SeriesV, t: Seq<Cmd>)
    ensures
        run(s, t).escrow.balance + total_paid(s, t) + total_withdrawn(s, t) == s.escrow.balance
            + total_collected(s, t),
    decreases t.len(),
{
    if t.len() == 0 {
    } else {
        lemma_step_balance(s, t[0]);
        lemma_fund_conservation(step(s, t[0]), t.drop_first());
    }
}

/// No operation ever changes the series' configuration, its identifying
/// mint, or the escrow's derived address and bump: the binding fixed at
/// initialization is what every later operation re-checks against.
pub proof fn lemma_escrow_binding_stable(s: SeriesV, t: Seq<Cmd>)
    ensures
        run(s, t).cfg == s.cfg,
        run(s, t).series_mint == s.series_mint,
        run(s, t).escrow.addr == s.escrow.addr,
        run(s, t).escrow.bump == s.escrow.bump,
    decreases t.len(),
{
    if t.len() == 0 {
    } else {
        lemma_escrow_binding_stable(step(s, t[0]), t.drop_first());
    }
}

/// Each operation keeps the series' entries uniquely keyed by mint: a
/// creation appends a mint the series does not hold, and a redemption
/// rewrites an entry in place.
pub proof fn lemma_step_preserves_unique(s: SeriesV, cmd: Cmd)
    requires
        s.unique_mints(),
    ensures
        step(s, cmd).unique_mints(),
{
    match cmd {
        Cmd::Create(c) => {
            if create_outcome(s, c) is Ok {
                assert(!s.has_entry(c.ctx.mint));
                assert forall|i: int, j: int|
                    0 <= i < j < step(s, cmd).entries.len() implies step(s, cmd).entries[i].mint
                    != step(s, cmd).entries[j].mint by {
                    if j == s.entries.len() {
                        assert(step(s, cmd).entries[i] == s.entries[i]);
                    }
                }
            }
        },
        Cmd::Redeem(c, bump) => {
            if redeem_outcome(s, c, bump) is Ok {
                let i = s.entry_index(c.mint);
                assert(step(s, cmd).entries[i].mint == s.entries[i].mint);
            }
        },
        Cmd::Withdraw(..) => {},
    }
}

/// The supply invariant of a create-then-redeem pair: creation mints exactly
/// one unit, and a successful redemption leaves that single unit in place
/// while moving exactly the fixed payout out of the escrow (the redeemer's
/// account gains the same amount, as `redeem`'s contract states).
pub proof fn lemma_create_then_redeem(s: SeriesV, c: CreateV, r: RedeemV, bump: u8)
    requires
        s.unique_mints(),
        create_outcome(s, c) is Ok,
        r.mint == c.ctx.mint,
        redeem_outcome(create_step(s, c), r, bump) is Ok,
    ensures
        ({
            let s1 = create_step(s, c);
            let s2 = redeem_step(s1, r, bump);
            &&& s1.has_entry(c.ctx.mint)
            &&& s1.entries[s1.entry_index(c.ctx.mint)].supply == 1
            &&& s2.entries[s1.entry_index(c.ctx.mint)].supply == 1
            &&& s2.escrow.balance == s1.escrow.balance - REDEEM_PAYOUT
            &&& s1.escrow.balance == s.escrow.balance + MINT_PRICE
        }),
{
    let s1 = create_step(s, c);
    let n = s.entries.len() as int;
    assert(s1.entries[n].mint == c.ctx.mint);
    assert(s1.has_entry(c.ctx.mint));
    let k = s1.entry_index(c.ctx.mint);
    assert(0 <= k < s1.entries.len() && s1.entries[k].mint == c.ctx.mint);
    assert(k == n) by {
        if k < n {
            assert(s1.entries[k] == s.entries[k]);
            assert(s.has_entry(c.ctx.mint));
        }
    }
}

/// Exactly-once consumption: once a redemption of a collectible has
/// succeeded, no second redemption of the same mint can succeed, nothing
/// further changes, and a second attempt that passes every precheck is
/// rejected precisely as already redeemed. (The protocol issues every
/// record with a single use, which the `total <= 1` hypothesis captures.)
pub proof fn lemma_redeem_exactly_once(s: SeriesV, c1: RedeemV, bump1: u8, c2: RedeemV, bump2: u8)
    requires
        s.unique_mints(),
        redeem_outcome(s, c1, bump1) is Ok,
        slot_of(s, c1.mint) matches MetadataSlotV::Present(rec) && (rec.uses matches Some(u)
            && u.remaining <= 1),
        c2.mint == c1.mint,
    ensures
        ({
            let s1 = redeem_step(s, c1, bump1);
            &&& !(redeem_outcome(s1, c2, bump2) is Ok)
            &&& redeem_step(s1, c2, bump2) == s1
            &&& redeem_prechecks(s1, c2, bump2) is Ok ==> redeem_outcome(s1, c2, bump2) == Err::<
                (),
                ErrorCode,
            >(ErrorCode::AlreadyRedeemed)
        }),
{
    let s1 = redeem_step(s, c1, bump1);
    let i = s.entry_index(c1.mint);
    assert(s.has_entry(c1.mint));
    assert(0 <= i < s.entries.len() && s.entries[i].mint == c1.mint);
    assert(s1.entries[i].mint == c1.mint);
    assert(s1.has_entry(c2.mint));
    let k = s1.entry_index(c2.mint);
    assert(0 <= k < s1.entries.len() && s1.entries[k].mint == c2.mint);
    assert(k == i) by {
        if k != i {
            assert(s1.entries[k] == s.entries[k]);
            assert(s.entries[k].mint == s.entries[i].mint);
        }
    }
    assert(slot_of(s1, c2.mint) == s1.entries[i].slot);
    assert(slot_of(s1, c2.mint) matches MetadataSlotV::Present(rec2) && !has_remaining_use(rec2));
}

/// Exactly-once consumption for a protocol-issued collectible, with no
/// hypothesis about the record: every record this protocol creates carries
/// a single use, so after one successful redemption of a freshly created
/// collectible, any second redemption of that mint is rejected and changes
/// nothing, and one that passes every precheck is rejected precisely as
/// already redeemed.
pub proof fn lemma_created_collectible_redeems_once(
    s: SeriesV,
    c: CreateV,
    r1: RedeemV,
    bump1: u8,
    r2: RedeemV,
    bump2: u8,
)
    requires
        s.unique_mints(),
        create_outcome(s, c) is Ok,
        r1.mint == c.ctx.mint,
        r2.mint == c.ctx.mint,
        redeem_outcome(create_step(s, c), r1, bump1) is Ok,
    ensures
        ({
            let s1 = create_step(s, c);
            let s2 = redeem_step(s1, r1, bump1);
            &&& !(redeem_outcome(s2, r2, bump2) is Ok)
            &&& redeem_step(s2, r2, bump2) == s2
            &&& redeem_prechecks(s2, r2, bump2) is Ok ==> redeem_outcome(s2, r2, bump2) == Err::<
                (),
                ErrorCode,
            >(ErrorCode::AlreadyRedeemed)
        }),
{
    let s1 = create_step(s, c);
    lemma_step_preserves_unique(s, Cmd::Create(c));
    lemma_create_then_redeem(s, c, r1, bump1);
    let n = s.entries.len() as int;
    assert(s1.entry_index(c.ctx.mint) == n);
    // The record created for this mint carries uses with remaining == 1.
    assert(s1.entries[n].slot == MetadataSlotV::Present(crate::create::created_record_spec(c)));
    lemma_redeem_exactly_once(s1, r1, bump1, r2, bump2);
}

/// The authorization boundary of the withdrawal gate: any signer other than
/// the protocol authority is rejected as unauthorized and the escrow
/// balance is left unchanged, for every attempted amount, including zero.
pub proof fn lemma_withdraw_unauthorized(s: SeriesV, authority: Seq<u8>, amount: nat)
    requires
        authority != s.cfg.trusted_issuer,
    ensures
        withdraw_outcome(s, authority, amount) == Err::<(), ErrorCode>(ErrorCode::Unauthorized),
        withdraw_step(s, authority, amount) == s,
{
}

/// Address binding as the redemption path enforces it: a redemption whose
/// caller-supplied metadata address differs from the independently
/// recomputed derivation is rejected with an address mismatch — before any
/// funds move — whenever it would otherwise have reached the authenticity
/// check.
pub proof fn lemma_tampered_metadata_rejected(s: SeriesV, c: RedeemV, bump: u8)
    requires
        c.token_mint == s.series_mint,
        bump == s.escrow.bump,
        c.token_account.owner == c.signer,
        c.token_account.mint == c.mint,
        c.token_account.amount == 1,
        derive_spec(SeedKind::Edition, s.cfg, c.mint) is Some,
        s.has_entry(c.mint) ==> s.entries[s.entry_index(c.mint)].edition_addr == derive_spec(
            SeedKind::Edition,
            s.cfg,
            c.mint,
        ).unwrap().0,
        derive_spec(SeedKind::Metadata, s.cfg, c.mint) is Some,
        c.metadata_account != derive_spec(SeedKind::Metadata, s.cfg, c.mint).unwrap().0,
    ensures
        redeem_outcome(s, c, bump) == Err::<(), ErrorCode>(ErrorCode::AddressMismatch),
        redeem_step(s, c, bump) == s,
{
}

} // verus!
