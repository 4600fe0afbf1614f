//! The minting orchestrator: collect the sponsor's payment into the escrow,
//! mint one unit of a fresh collectible, create and amend its metadata
//! record, lock it as a unique master edition, and stamp the issuer's
//! verified-creator signature (and the collection link, when one is
//! configured) — each step feeding the next, with no partial effect on
//! failure.
use vstd::prelude::*;

use crate::addr::{derive_address, derive_spec, Address, SeedKind};
use crate::errors::ErrorCode;
use crate::escrow::EscrowAccountV;
use crate::metadata::{
    amend_record, amended_record_spec, collected_record_spec, fresh_metadata, fresh_record_spec,
    protocol_record_invariant, set_and_verify_collection, share_total, sign_metadata,
    signed_record_spec, MetadataRecordV, MetadataSlot, MetadataSlotV, UseMethod, Uses,
};
use crate::series::{Entry, EntryV, Series, SeriesV};
use crate::token::{TokenAccount, TokenAccountV};
use crate::MINT_PRICE;

verus! {

/// The caller-supplied identities of a creation: the sponsor (who signs,
/// pays the mint price and receives the collectible), the fresh collectible
/// mint, the payer funding the new accounts' rent, the protocol authority
/// signing the issuer steps, and the collection to link the collectible to,
/// when one is configured.
#[derive(Debug)]
pub struct CreateTipsea {
    pub mint_authority: Address,
    pub mint: Address,
    pub payer: Address,
    pub tipsea_admin: Address,
    pub collection_mint: Option<Address>,
}

/// The mathematical content of a [`CreateTipsea`].
#[verifier::ext_equal]
pub struct CreateTipseaV {
    pub mint_authority: Seq<u8>,
    pub mint: Seq<u8>,
    pub payer: Seq<u8>,
    pub tipsea_admin: Seq<u8>,
    pub collection_mint: Option<Seq<u8>>,
}

impl View for CreateTipsea {
    type V = CreateTipseaV;

    open spec fn view(&self) -> CreateTipseaV {
        CreateTipseaV {
            mint_authority: self.mint_authority@,
            mint: self.mint@,
            payer: self.payer@,
            tipsea_admin: self.tipsea_admin@,
            collection_mint: match self.collection_mint {
                Some(cm) => Some(cm@),
                None => None,
            },
        }
    }
}

/// Everything a creation attempt depends on: the caller-supplied identities,
/// the sponsor's payment account as presented, and the record's content.
#[verifier::ext_equal]
pub struct CreateV {
    pub ctx: CreateTipseaV,
    pub from_owner: Seq<u8>,
    pub from_amount: nat,
    pub creator_key: Seq<u8>,
    pub name: Seq<char>,
    pub symbol: Seq<char>,
    pub uri: Seq<char>,
}

/// The verdict on a creation: the sponsor must own the paying account and
/// cover the fixed mint price, the collectible mint must be fresh, both
/// record addresses must be derivable, and the issuer steps demand the
/// protocol authority's signature — in the orchestrator's step order.
pub open spec fn create_outcome(s: SeriesV, c: CreateV) -> Result<(), ErrorCode> {
    if c.from_owner != c.ctx.mint_authority {
        Err(ErrorCode::Unauthorized)
    } else if c.from_amount < MINT_PRICE {
        Err(ErrorCode::InsufficientFunds)
    } else if s.has_entry(c.ctx.mint) {
        Err(ErrorCode::MintFailed)
    } else if derive_spec(SeedKind::Metadata, s.cfg, c.ctx.mint) is None {
        Err(ErrorCode::AddressDerivationExhausted)
    } else if derive_spec(SeedKind::Edition, s.cfg, c.ctx.mint) is None {
        Err(ErrorCode::AddressDerivationExhausted)
    } else if c.ctx.tipsea_admin != s.cfg.trusted_issuer {
        Err(ErrorCode::Unauthorized)
    } else {
        Ok(())
    }
}

/// The metadata record a successful creation leaves behind: the freshly
/// issued record, amended to hand the update authority to the chosen
/// creator, signed by the issuer, and linked to the configured collection
/// when there is one.
pub open spec fn created_record_spec(c: CreateV) -> MetadataRecordV {
    let fresh = fresh_record_spec(
        c.ctx.mint,
        c.ctx.mint_authority,
        c.creator_key,
        c.name,
        c.symbol,
        c.uri,
    );
    let signed = signed_record_spec(
        amended_record_spec(fresh, c.creator_key),
        c.ctx.tipsea_admin,
    );
    match c.ctx.collection_mint {
        Some(cm) => collected_record_spec(signed, cm),
        None => signed,
    }
}

/// The entry a successful creation appends: the fresh mint, its records at
/// the derived addresses, and exactly one unit minted and locked.
pub open spec fn created_entry_spec(s: SeriesV, c: CreateV) -> EntryV {
    EntryV {
        mint: c.ctx.mint,
        metadata_addr: derive_spec(SeedKind::Metadata, s.cfg, c.ctx.mint).unwrap().0,
        edition_addr: derive_spec(SeedKind::Edition, s.cfg, c.ctx.mint).unwrap().0,
        slot: MetadataSlotV::Present(created_record_spec(c)),
        supply: 1,
    }
}

/// The series after a creation attempt: on success the escrow gains exactly
/// the mint price and the new entry is appended; on any failure nothing
/// changes.
pub open spec fn create_step(s: SeriesV, c: CreateV) -> SeriesV {
    if create_outcome(s, c) is Ok {
        SeriesV {
            escrow: EscrowAccountV {
                balance: (s.escrow.balance + MINT_PRICE) as nat,
                ..s.escrow
            },
            entries: s.entries.push(created_entry_spec(s, c)),
            ..s
        }
    } else {
        s
    }
}

/// The creation attempt described by the given call values.
pub open spec fn create_cmd(
    ctx: CreateTipseaV,
    from: TokenAccountV,
    creator_key: Seq<u8>,
    title: Seq<char>,
    symbol: Seq<char>,
    uri: Seq<char>,
) -> CreateV {
    CreateV {
        ctx: ctx,
        from_owner: from.owner,
        from_amount: from.amount,
        creator_key: creator_key,
        name: title,
        symbol: symbol,
        uri: uri,
    }
}

/// Creates one collectible against the series: debits the sponsor by the
/// fixed mint price into the escrow, mints exactly one unit, and leaves the
/// record [`created_record_spec`] describes at the derived addresses. On
/// success the minted collectible's token account is returned, owned by the
/// sponsor.
pub fn create_tipsea(
    series: &mut Series,
    ctx: CreateTipsea,
    from_account: &mut TokenAccount,
    uri: String,
    title: String,
    symbol: String,
    creator_key: Address,
) -> (r: Result<TokenAccount, ErrorCode>)
    requires
        old(series)@.wf(),
        ctx.mint.wf(),
        creator_key.wf(),
        ctx.collection_mint matches Some(cm) ==> cm.wf(),
        old(series).escrow.balance + MINT_PRICE <= u64::MAX,
    ensures
        ({
            let cmd = create_cmd(ctx@, old(from_account)@, creator_key@, title@, symbol@, uri@);
            &&& r is Ok <==> create_outcome(old(series)@, cmd) is Ok
            &&& r matches Err(e) ==> create_outcome(old(series)@, cmd) == Err::<(), ErrorCode>(e)
            &&& final(series)@ == create_step(old(series)@, cmd)
            &&& final(series)@.wf()
            &&& r matches Ok(t) ==> t@.owner == ctx@.mint_authority && t@.mint == ctx@.mint
                && t@.amount == 1
            &&& r is Ok ==> final(from_account).amount == old(from_account).amount - MINT_PRICE
                && final(from_account).owner == old(from_account).owner
                && final(from_account).mint == old(from_account).mint
            &&& r is Err ==> *final(from_account) == *old(from_account)
        }),
{
    if !from_account.owner.same_as(&ctx.mint_authority) {
        return Err(ErrorCode::Unauthorized);
    }
    if from_account.amount < MINT_PRICE {
        return Err(ErrorCode::InsufficientFunds);
    }
    if series.find_entry(&ctx.mint).is_some() {
        return Err(ErrorCode::MintFailed);
    }
    let md = match derive_address(SeedKind::Metadata, &series.cfg, &ctx.mint) {
        None => {
            return Err(ErrorCode::AddressDerivationExhausted);
        },
        Some(p) => p.0,
    };
    let ed = match derive_address(SeedKind::Edition, &series.cfg, &ctx.mint) {
        None => {
            return Err(ErrorCode::AddressDerivationExhausted);
        },
        Some(p) => p.0,
    };
    if !ctx.tipsea_admin.same_as(&series.cfg.trusted_issuer) {
        return Err(ErrorCode::Unauthorized);
    }
    // Step 1: the sponsor's payment funds the escrow.
    from_account.amount = from_account.amount - MINT_PRICE;
    series.escrow.balance = series.escrow.balance + MINT_PRICE;
    // Step 2: one unit of the fresh collectible, minted to the sponsor.
    let minted = TokenAccount {
        owner: ctx.mint_authority.duplicate(),
        mint: ctx.mint.duplicate(),
        amount: 1,
    };
    // Step 3: the metadata record, as issued.
    let mut rec = fresh_metadata(&ctx.mint, &ctx.mint_authority, &creator_key, title, symbol, uri);
    // Step 5: hand the update authority to the chosen creator.
    amend_record(&mut rec, &creator_key);
    // Step 6: the issuer's verified-creator stamp.
    let signed = sign_metadata(&series.cfg, &mut rec, &ctx.tipsea_admin);
    proof {
        assert(signed is Ok);
    }
    // Step 7: the collection link, when one is configured.
    match &ctx.collection_mint {
        Some(cm) => {
            let linked = set_and_verify_collection(&series.cfg, &mut rec, &ctx.tipsea_admin, cm);
            proof {
                assert(linked is Ok);
            }
        },
        None => {},
    }
    // Step 4's marker and the record land at the derived addresses.
    series.entries.push(Entry {
        mint: ctx.mint,
        metadata_addr: md,
        edition_addr: ed,
        slot: MetadataSlot::Present(rec),
        supply: 1,
    });
    proof {
        let cmd = create_cmd(ctx@, old(from_account)@, creator_key@, title@, symbol@, uri@);
        assert(series@.entries =~= create_step(old(series)@, cmd).entries);
        assert(series@ =~~= create_step(old(series)@, cmd));
        assert(series@.wf());
    }
    Ok(minted)
}


/// Every record a creation issues has the protocol's shape: two creator
/// entries — the chosen creator with the whole share and the mint's own
/// zero-share placeholder — summing to one hundred percent, a fresh
/// single-use counter, and a verified stamp on exactly the entries whose
/// address is the signing issuer's.
pub proof fn lemma_created_record_invariant(c: CreateV)
    ensures
        protocol_record_invariant(created_record_spec(c)),
        created_record_spec(c).creators.len() == 2,
        created_record_spec(c).creators[0].address == c.creator_key,
        created_record_spec(c).creators[0].share == 100,
        created_record_spec(c).creators[0].verified == (c.creator_key == c.ctx.tipsea_admin),
        created_record_spec(c).creators[1].address == c.ctx.mint,
        created_record_spec(c).creators[1].share == 0,
        created_record_spec(c).creators[1].verified == (c.ctx.mint == c.ctx.tipsea_admin),
        created_record_spec(c).uses == Some(Uses {
            use_method: UseMethod::Single,
            remaining: 1,
            total: 1,
        }),
        created_record_spec(c).update_authority == c.creator_key,
{
    let rec = created_record_spec(c);
    assert(share_total(rec.creators.drop_first().drop_first()) == 0);
    assert(share_total(rec.creators.drop_first()) == 0);
    assert(share_total(rec.creators) == 100);
}

} // verus!
