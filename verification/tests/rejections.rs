//! Every rejection the protocol promises, each with an input that provokes
//! it, and the checks that nothing moves when an operation is rejected.
use tipsea::addr::{derive_address, Address, Config, SeedKind};
use tipsea::create::{create_tipsea, CreateTipsea};
use tipsea::errors::ErrorCode;
use tipsea::metadata::{fresh_metadata, verify, MetadataSlot};
use tipsea::redeem::{redeem, Redeem};
use tipsea::series::{initialize_tipsea, Entry, InitializeTipsea, Series};
use tipsea::token::TokenAccount;
use tipsea::withdraw::{withdraw, Withdraw};
use tipsea::{MINT_PRICE, REDEEM_PAYOUT};

fn addr(b: u8) -> Address {
    Address { bytes: vec![b; 32] }
}

fn cfg() -> Config {
    Config { trusted_issuer: addr(1), program_id: addr(2), token_metadata_program: addr(3) }
}

fn new_series() -> Series {
    let mut slot: Option<Series> = None;
    initialize_tipsea(&mut slot, cfg(), InitializeTipsea { initializer: addr(9), mint: addr(10) })
        .unwrap();
    slot.unwrap()
}

fn created_series() -> (Series, TokenAccount) {
    let mut series = new_series();
    let mut sponsor = TokenAccount { owner: addr(20), mint: addr(10), amount: MINT_PRICE };
    let ctx = CreateTipsea {
        mint_authority: addr(20),
        mint: addr(30),
        payer: addr(25),
        tipsea_admin: addr(1),
        collection_mint: None,
    };
    let minted = create_tipsea(
        &mut series,
        ctx,
        &mut sponsor,
        String::from("u"),
        String::from("t"),
        String::from("s"),
        addr(1),
    )
    .unwrap();
    (series, minted)
}

fn redeem_ctx(series: &Series, minted: TokenAccount) -> Redeem {
    let md = derive_address(SeedKind::Metadata, &series.cfg, &addr(30)).unwrap().0;
    Redeem {
        signer: addr(20),
        token_mint: addr(10),
        mint: addr(30),
        token_account: minted,
        metadata_account: md,
    }
}

#[test]
fn create_rejects_insufficient_funds() {
    let mut series = new_series();
    let mut sponsor = TokenAccount { owner: addr(20), mint: addr(10), amount: MINT_PRICE - 1 };
    let ctx = CreateTipsea {
        mint_authority: addr(20),
        mint: addr(30),
        payer: addr(25),
        tipsea_admin: addr(1),
        collection_mint: None,
    };
    let r = create_tipsea(
        &mut series,
        ctx,
        &mut sponsor,
        String::from("u"),
        String::from("t"),
        String::from("s"),
        addr(1),
    );
    assert_eq!(r.unwrap_err(), ErrorCode::InsufficientFunds);
    assert_eq!(series.escrow.balance, 0);
    assert_eq!(sponsor.amount, MINT_PRICE - 1);
    assert_eq!(series.entries.len(), 0);
}

#[test]
fn create_rejects_foreign_payment_account() {
    let mut series = new_series();
    let mut sponsor = TokenAccount { owner: addr(77), mint: addr(10), amount: MINT_PRICE };
    let ctx = CreateTipsea {
        mint_authority: addr(20),
        mint: addr(30),
        payer: addr(25),
        tipsea_admin: addr(1),
        collection_mint: None,
    };
    let r = create_tipsea(
        &mut series,
        ctx,
        &mut sponsor,
        String::from("u"),
        String::from("t"),
        String::from("s"),
        addr(1),
    );
    assert_eq!(r.unwrap_err(), ErrorCode::Unauthorized);
    assert_eq!(sponsor.amount, MINT_PRICE);
}

#[test]
fn create_rejects_reused_mint() {
    let (mut series, _) = created_series();
    let mut sponsor = TokenAccount { owner: addr(21), mint: addr(10), amount: MINT_PRICE };
    let ctx = CreateTipsea {
        mint_authority: addr(21),
        mint: addr(30),
        payer: addr(25),
        tipsea_admin: addr(1),
        collection_mint: None,
    };
    let r = create_tipsea(
        &mut series,
        ctx,
        &mut sponsor,
        String::from("u"),
        String::from("t"),
        String::from("s"),
        addr(1),
    );
    assert_eq!(r.unwrap_err(), ErrorCode::MintFailed);
    assert_eq!(series.escrow.balance, MINT_PRICE);
    assert_eq!(series.entries.len(), 1);
}

#[test]
fn create_rejects_impostor_admin() {
    let mut series = new_series();
    let mut sponsor = TokenAccount { owner: addr(20), mint: addr(10), amount: MINT_PRICE };
    let ctx = CreateTipsea {
        mint_authority: addr(20),
        mint: addr(30),
        payer: addr(25),
        tipsea_admin: addr(66),
        collection_mint: None,
    };
    let r = create_tipsea(
        &mut series,
        ctx,
        &mut sponsor,
        String::from("u"),
        String::from("t"),
        String::from("s"),
        addr(1),
    );
    assert_eq!(r.unwrap_err(), ErrorCode::Unauthorized);
    assert_eq!(series.escrow.balance, 0);
    assert_eq!(sponsor.amount, MINT_PRICE);
}

#[test]
fn redeem_rejects_wrong_owner() {
    let (mut series, minted) = created_series();
    let md = derive_address(SeedKind::Metadata, &series.cfg, &addr(30)).unwrap().0;
    let ctx = Redeem {
        signer: addr(99),  // not the token account's recorded owner
        token_mint: addr(10),
        mint: addr(30),
        token_account: minted,
        metadata_account: md,
    };
    let mut to = TokenAccount { owner: addr(99), mint: addr(10), amount: 0 };
    let bump = series.escrow.bump;
    let r = redeem(&mut series, &ctx, &mut to, bump);
    assert_eq!(r, Err(ErrorCode::OwnerMismatch));
    assert_eq!(series.escrow.balance, MINT_PRICE);
    assert_eq!(to.amount, 0);
}

#[test]
fn redeem_rejects_wrong_mint() {
    let (mut series, minted) = created_series();
    let md = derive_address(SeedKind::Metadata, &series.cfg, &addr(31)).unwrap().0;
    let ctx = Redeem {
        signer: addr(20),
        token_mint: addr(10),
        mint: addr(31),  // not the mint the token account records
        token_account: minted,
        metadata_account: md,
    };
    let mut to = TokenAccount { owner: addr(20), mint: addr(10), amount: 0 };
    let bump = series.escrow.bump;
    assert_eq!(redeem(&mut series, &ctx, &mut to, bump), Err(ErrorCode::MintMismatch));
    assert_eq!(series.escrow.balance, MINT_PRICE);
}

#[test]
fn redeem_rejects_fractional_balance() {
    let (mut series, minted) = created_series();
    let doubled = TokenAccount { owner: minted.owner, mint: minted.mint, amount: 2 };
    let ctx = redeem_ctx(&series, doubled);
    let mut to = TokenAccount { owner: addr(20), mint: addr(10), amount: 0 };
    let bump = series.escrow.bump;
    assert_eq!(
        redeem(&mut series, &ctx, &mut to, bump),
        Err(ErrorCode::BalanceInvariantViolated)
    );
    assert_eq!(series.escrow.balance, MINT_PRICE);
}

#[test]
fn redeem_rejects_tampered_metadata_address() {
    let (mut series, minted) = created_series();
    let ctx = Redeem {
        signer: addr(20),
        token_mint: addr(10),
        mint: addr(30),
        token_account: minted,
        metadata_account: addr(123),  // not the derived metadata address
    };
    let mut to = TokenAccount { owner: addr(20), mint: addr(10), amount: 0 };
    let bump = series.escrow.bump;
    assert_eq!(redeem(&mut series, &ctx, &mut to, bump), Err(ErrorCode::AddressMismatch));
    assert_eq!(series.escrow.balance, MINT_PRICE);
    assert_eq!(to.amount, 0);
}

#[test]
fn redeem_rejects_wrong_series_bump() {
    let (mut series, minted) = created_series();
    let ctx = redeem_ctx(&series, minted);
    let mut to = TokenAccount { owner: addr(20), mint: addr(10), amount: 0 };
    let bump = series.escrow.bump.wrapping_add(1);
    assert_eq!(redeem(&mut series, &ctx, &mut to, bump), Err(ErrorCode::AddressMismatch));
    assert_eq!(series.escrow.balance, MINT_PRICE);
}

#[test]
fn redeem_rejects_unknown_collectible() {
    let mut series = new_series();
    let holder = TokenAccount { owner: addr(20), mint: addr(30), amount: 1 };
    let ctx = redeem_ctx(&series, holder);
    let mut to = TokenAccount { owner: addr(20), mint: addr(10), amount: 0 };
    let bump = series.escrow.bump;
    assert_eq!(redeem(&mut series, &ctx, &mut to, bump), Err(ErrorCode::NotInitialized));
}

#[test]
fn redeem_rejects_untrusted_creator() {
    // A record whose first creator is not the trusted issuer: created with
    // a sponsor-chosen creator key of its own.
    let mut series = new_series();
    let mut sponsor = TokenAccount { owner: addr(20), mint: addr(10), amount: MINT_PRICE };
    let ctx = CreateTipsea {
        mint_authority: addr(20),
        mint: addr(30),
        payer: addr(25),
        tipsea_admin: addr(1),
        collection_mint: None,
    };
    let minted = create_tipsea(
        &mut series,
        ctx,
        &mut sponsor,
        String::from("u"),
        String::from("t"),
        String::from("s"),
        addr(55),  // not the trusted issuer
    )
    .unwrap();
    let rctx = redeem_ctx(&series, minted);
    let mut to = TokenAccount { owner: addr(20), mint: addr(10), amount: 0 };
    let bump = series.escrow.bump;
    assert_eq!(redeem(&mut series, &rctx, &mut to, bump), Err(ErrorCode::UntrustedCreator));
    assert_eq!(series.escrow.balance, MINT_PRICE);
}

#[test]
fn redeem_rejects_unverified_creator() {
    // A record naming the issuer as first creator but never issuer-signed.
    let mut series = new_series();
    let rec = fresh_metadata(
        &addr(30),
        &addr(20),
        &addr(1),
        String::from("t"),
        String::from("s"),
        String::from("u"),
    );
    let md = derive_address(SeedKind::Metadata, &series.cfg, &addr(30)).unwrap().0;
    let ed = derive_address(SeedKind::Edition, &series.cfg, &addr(30)).unwrap().0;
    series.entries.push(Entry {
        mint: addr(30),
        metadata_addr: md,
        edition_addr: ed,
        slot: MetadataSlot::Present(rec),
        supply: 1,
    });
    series.escrow.balance = REDEEM_PAYOUT;
    let holder = TokenAccount { owner: addr(20), mint: addr(30), amount: 1 };
    let rctx = redeem_ctx(&series, holder);
    let mut to = TokenAccount { owner: addr(20), mint: addr(10), amount: 0 };
    let bump = series.escrow.bump;
    assert_eq!(redeem(&mut series, &rctx, &mut to, bump), Err(ErrorCode::CreatorNotVerified));
    assert_eq!(series.escrow.balance, REDEEM_PAYOUT);
}

#[test]
fn redeem_rejects_corrupt_metadata() {
    let mut series = new_series();
    let md = derive_address(SeedKind::Metadata, &series.cfg, &addr(30)).unwrap().0;
    let ed = derive_address(SeedKind::Edition, &series.cfg, &addr(30)).unwrap().0;
    series.entries.push(Entry {
        mint: addr(30),
        metadata_addr: md,
        edition_addr: ed,
        slot: MetadataSlot::Corrupt,
        supply: 1,
    });
    let holder = TokenAccount { owner: addr(20), mint: addr(30), amount: 1 };
    let rctx = redeem_ctx(&series, holder);
    let mut to = TokenAccount { owner: addr(20), mint: addr(10), amount: 0 };
    let bump = series.escrow.bump;
    assert_eq!(redeem(&mut series, &rctx, &mut to, bump), Err(ErrorCode::MalformedMetadata));
}

#[test]
fn redeem_rejects_misplaced_edition_marker() {
    let mut series = new_series();
    let rec = fresh_metadata(
        &addr(30),
        &addr(20),
        &addr(1),
        String::from("t"),
        String::from("s"),
        String::from("u"),
    );
    let md = derive_address(SeedKind::Metadata, &series.cfg, &addr(30)).unwrap().0;
    series.entries.push(Entry {
        mint: addr(30),
        metadata_addr: md,
        edition_addr: addr(124),  // not the derived edition address
        slot: MetadataSlot::Present(rec),
        supply: 1,
    });
    let holder = TokenAccount { owner: addr(20), mint: addr(30), amount: 1 };
    let rctx = redeem_ctx(&series, holder);
    let mut to = TokenAccount { owner: addr(20), mint: addr(10), amount: 0 };
    let bump = series.escrow.bump;
    assert_eq!(
        redeem(&mut series, &rctx, &mut to, bump),
        Err(ErrorCode::EditionAddressMismatch)
    );
}

#[test]
fn redeem_rejects_underfunded_escrow() {
    let (mut series, minted) = created_series();
    // Drain the escrow below the payout through the authority gate first.
    let wctx = Withdraw { authority: addr(1), token_mint: addr(10) };
    let mut wto = TokenAccount { owner: addr(50), mint: addr(10), amount: 0 };
    assert_eq!(withdraw(&mut series, &wctx, 2_000_000_000, &mut wto), Ok(()));
    let rctx = redeem_ctx(&series, minted);
    let mut to = TokenAccount { owner: addr(20), mint: addr(10), amount: 0 };
    let bump = series.escrow.bump;
    assert_eq!(
        redeem(&mut series, &rctx, &mut to, bump),
        Err(ErrorCode::InsufficientEscrowFunds)
    );
    assert_eq!(series.escrow.balance, MINT_PRICE - 2_000_000_000);
}

#[test]
fn withdraw_rejects_impostor_for_any_amount() {
    let (mut series, _) = created_series();
    let ctx = Withdraw { authority: addr(66), token_mint: addr(10) };
    let mut to = TokenAccount { owner: addr(66), mint: addr(10), amount: 0 };
    assert_eq!(withdraw(&mut series, &ctx, 0, &mut to), Err(ErrorCode::Unauthorized));
    assert_eq!(withdraw(&mut series, &ctx, 5, &mut to), Err(ErrorCode::Unauthorized));
    assert_eq!(
        withdraw(&mut series, &ctx, MINT_PRICE, &mut to),
        Err(ErrorCode::Unauthorized)
    );
    assert_eq!(series.escrow.balance, MINT_PRICE);
    assert_eq!(to.amount, 0);
}

#[test]
fn withdraw_rejects_overdraw() {
    let (mut series, _) = created_series();
    let ctx = Withdraw { authority: addr(1), token_mint: addr(10) };
    let mut to = TokenAccount { owner: addr(50), mint: addr(10), amount: 0 };
    assert_eq!(
        withdraw(&mut series, &ctx, MINT_PRICE + 1, &mut to),
        Err(ErrorCode::InsufficientEscrowFunds)
    );
    assert_eq!(series.escrow.balance, MINT_PRICE);
}

#[test]
fn verify_rejects_empty_and_mismatched_slots() {
    let c = cfg();
    let md = derive_address(SeedKind::Metadata, &c, &addr(30)).unwrap().0;
    assert_eq!(
        verify(&c, &md, &addr(30), &MetadataSlot::Empty),
        Err(ErrorCode::NotInitialized)
    );
    assert_eq!(
        verify(&c, &addr(123), &addr(30), &MetadataSlot::Empty),
        Err(ErrorCode::AddressMismatch)
    );
    assert_eq!(
        verify(&c, &md, &addr(30), &MetadataSlot::Corrupt),
        Err(ErrorCode::MalformedMetadata)
    );
}
