//! The collectible's metadata record, the issuance-side operations that
//! populate and amend it, and the authenticity checks performed before a
//! redemption is honored.
use vstd::prelude::*;

use crate::addr::{derive_address, derive_spec, Address, Config, ConfigV, SeedKind};
use crate::errors::ErrorCode;

verus! {

/// How a record's use counter is consumed. This protocol always issues
/// single-use records; the other methods exist in the collaborator's
/// vocabulary and are carried for completeness.
#[derive(Clone, Copy, Debug, PartialEq, Eq, Structural)]
pub enum UseMethod {
    Burn,
    Multiple,
    Single,
}

/// A record's redemption-right counter.
#[derive(Clone, Copy, Debug, PartialEq, Eq, Structural)]
pub struct Uses {
    pub use_method: UseMethod,
    pub remaining: u64,
    pub total: u64,
}

/// One creator attribution entry of a metadata record.
#[derive(Debug)]
pub struct Creator {
    pub address: Address,
    /// True once the creator itself has signed the record.
    pub verified: bool,
    /// The creator's royalty share, in percent.
    pub share: u8,
}

/// The mathematical content of a [`Creator`].
#[verifier::ext_equal]
pub struct CreatorV {
    pub address: Seq<u8>,
    pub verified: bool,
    pub share: u8,
}

impl View for Creator {
    type V = CreatorV;

    open spec fn view(&self) -> CreatorV {
        CreatorV { address: self.address@, verified: self.verified, share: self.share }
    }
}

impl DeepView for Creator {
    type V = CreatorV;

    open spec fn deep_view(&self) -> CreatorV {
        self@
    }
}

/// A record's link to the collection it belongs to.
#[derive(Debug)]
pub struct Collection {
    pub key: Address,
    /// True once the collection's authority has verified the membership.
    pub verified: bool,
}

/// The mathematical content of a [`Collection`].
#[verifier::ext_equal]
pub struct CollectionV {
    pub key: Seq<u8>,
    pub verified: bool,
}

impl View for Collection {
    type V = CollectionV;

    open spec fn view(&self) -> CollectionV {
        CollectionV { key: self.key@, verified: self.verified }
    }
}

/// The descriptive record bound one-to-one to a collectible mint.
#[derive(Debug)]
pub struct MetadataRecord {
    /// The key allowed to amend the record.
    pub update_authority: Address,
    /// The collectible mint the record describes.
    pub mint: Address,
    pub name: String,
    pub symbol: String,
    pub uri: String,
    /// Ordered creator attribution entries.
    pub creators: Vec<Creator>,
    pub primary_sale_happened: bool,
    pub is_mutable: bool,
    /// The one-time redemption right, when the record carries one.
    pub uses: Option<Uses>,
    /// The collection the collectible belongs to, when linked.
    pub collection: Option<Collection>,
}

/// The mathematical content of a [`MetadataRecord`].
#[verifier::ext_equal]
pub struct MetadataRecordV {
    pub update_authority: Seq<u8>,
    pub mint: Seq<u8>,
    pub name: Seq<char>,
    pub symbol: Seq<char>,
    pub uri: Seq<char>,
    pub creators: Seq<CreatorV>,
    pub primary_sale_happened: bool,
    pub is_mutable: bool,
    pub uses: Option<Uses>,
    pub collection: Option<CollectionV>,
}

impl View for MetadataRecord {
    type V = MetadataRecordV;

    open spec fn view(&self) -> MetadataRecordV {
        MetadataRecordV {
            update_authority: self.update_authority@,
            mint: self.mint@,
            name: self.name@,
            symbol: self.symbol@,
            uri: self.uri@,
            creators: self.creators.deep_view(),
            primary_sale_happened: self.primary_sale_happened,
            is_mutable: self.is_mutable,
            uses: self.uses,
            collection: match self.collection {
                Some(c) => Some(c@),
                None => None,
            },
        }
    }
}

impl MetadataRecordV {
    /// Every address the record holds is a 32-byte address.
    pub open spec fn wf(&self) -> bool {
        &&& self.update_authority.len() == 32
        &&& self.mint.len() == 32
        &&& forall|i: int| 0 <= i < self.creators.len() ==> (#[trigger] self.creators[i]).address.len() == 32
        &&& self.collection matches Some(c) ==> c.key.len() == 32
    }
}

/// The state of the account slot a metadata record is expected at, as the
/// protocol finds it: absent, present but structurally unreadable, or a
/// parsed record.
#[derive(Debug)]
pub enum MetadataSlot {
    /// The account has no stored data.
    Empty,
    /// The account has data that does not parse as a record.
    Corrupt,
    /// The parsed record.
    Present(MetadataRecord),
}

/// The mathematical content of a [`MetadataSlot`].
#[verifier::ext_equal]
pub enum MetadataSlotV {
    Empty,
    Corrupt,
    Present(MetadataRecordV),
}

impl View for MetadataSlot {
    type V = MetadataSlotV;

    open spec fn view(&self) -> MetadataSlotV {
        match self {
            MetadataSlot::Empty => MetadataSlotV::Empty,
            MetadataSlot::Corrupt => MetadataSlotV::Corrupt,
            MetadataSlot::Present(rec) => MetadataSlotV::Present(rec@),
        }
    }
}

impl MetadataSlotV {
    pub open spec fn wf(&self) -> bool {
        self matches MetadataSlotV::Present(rec) ==> rec.wf()
    }
}

/// The record issued at mint time, before any amendment: the sponsor-chosen
/// creator carries the whole share and the collectible's own mint address
/// carries a zero-share placeholder entry, both unverified; a single
/// redemption right is attached; no collection is linked yet.
pub open spec fn fresh_record_spec(
    mint: Seq<u8>,
    update_authority: Seq<u8>,
    creator_key: Seq<u8>,
    name: Seq<char>,
    symbol: Seq<char>,
    uri: Seq<char>,
) -> MetadataRecordV {
    MetadataRecordV {
        update_authority: update_authority,
        mint: mint,
        name: name,
        symbol: symbol,
        uri: uri,
        creators: seq![
            CreatorV { address: creator_key, verified: false, share: 100u8 },
            CreatorV { address: mint, verified: false, share: 0u8 },
        ],
        primary_sale_happened: false,
        is_mutable: true,
        uses: Some(Uses { use_method: UseMethod::Single, remaining: 1, total: 1 }),
        collection: None,
    }
}

/// Creates the metadata record exactly as issuance populates it.
pub fn fresh_metadata(
    mint: &Address,
    update_authority: &Address,
    creator_key: &Address,
    name: String,
    symbol: String,
    uri: String,
) -> (r: MetadataRecord)
    ensures
        r@ == fresh_record_spec(mint@, update_authority@, creator_key@, name@, symbol@, uri@),
{
    let mut creators: Vec<Creator> = Vec::new();
    creators.push(Creator { address: creator_key.duplicate(), verified: false, share: 100 });
    creators.push(Creator { address: mint.duplicate(), verified: false, share: 0 });
    let r = MetadataRecord {
        update_authority: update_authority.duplicate(),
        mint: mint.duplicate(),
        name,
        symbol,
        uri,
        creators,
        primary_sale_happened: false,
        is_mutable: true,
        uses: Some(Uses { use_method: UseMethod::Single, remaining: 1, total: 1 }),
        collection: None,
    };
    proof {
        assert(r@.creators =~= fresh_record_spec(
            mint@, update_authority@, creator_key@, name@, symbol@, uri@).creators);
    }
    r
}

/// A record after the post-creation amendment: the update authority is
/// handed to the sponsor-chosen creator and the primary-sale and mutability
/// flags are set.
pub open spec fn amended_record_spec(rec: MetadataRecordV, new_authority: Seq<u8>) -> MetadataRecordV {
    MetadataRecordV { update_authority: new_authority, primary_sale_happened: true, is_mutable: true, ..rec }
}

/// Amends the record as the orchestrator's update step does.
pub fn amend_record(rec: &mut MetadataRecord, new_authority: &Address)
    ensures
        final(rec)@ == amended_record_spec(old(rec)@, new_authority@),
{
    rec.update_authority = new_authority.duplicate();
    rec.primary_sale_happened = true;
    rec.is_mutable = true;
}

/// One creator entry after a signing pass by `signer`: the entry is stamped
/// verified exactly when it is the signer's own.
pub open spec fn signed_creator_spec(c: CreatorV, signer: Seq<u8>) -> CreatorV {
    if c.address == signer {
        CreatorV { verified: true, ..c }
    } else {
        c
    }
}

/// A record after the issuer-signing step.
pub open spec fn signed_record_spec(rec: MetadataRecordV, signer: Seq<u8>) -> MetadataRecordV {
    MetadataRecordV {
        creators: rec.creators.map_values(|c: CreatorV| signed_creator_spec(c, signer)),
        ..rec
    }
}

/// Stamps the signer's own creator entries as verified. Only the protocol's
/// trusted issuer may sign; any other signer is rejected with no effect.
pub fn sign_metadata(cfg: &Config, rec: &mut MetadataRecord, signer: &Address) -> (r: Result<
    (),
    ErrorCode,
>)
    ensures
        r is Ok <==> signer@ == cfg@.trusted_issuer,
        r is Ok ==> final(rec)@ == signed_record_spec(old(rec)@, signer@),
        r is Err ==> r == Err::<(), ErrorCode>(ErrorCode::Unauthorized) && final(rec)@ == old(rec)@,
{
    if !signer.same_as(&cfg.trusted_issuer) {
        return Err(ErrorCode::Unauthorized);
    }
    let n = rec.creators.len();
    let mut signed: Vec<Creator> = Vec::new();
    let mut i: usize = 0;
    while i < n
        invariant
            n == rec.creators@.len(),
            0 <= i <= n,
            signed.deep_view().len() == i,
            forall|j: int| 0 <= j < i ==> signed.deep_view()[j] == signed_creator_spec(
                #[trigger] rec.creators.deep_view()[j],
                signer@,
            ),
        decreases n - i,
    {
        let c = &rec.creators[i];
        let verified = c.verified || c.address.same_as(signer);
        signed.push(Creator { address: c.address.duplicate(), verified, share: c.share });
        i += 1;
    }
    rec.creators = signed;
    proof {
        assert(rec.creators.deep_view() =~= old(rec)@.creators.map_values(
            |c: CreatorV| signed_creator_spec(c, signer@),
        ));
    }
    Ok(())
}

/// A record after being linked to a collection with a verified membership.
pub open spec fn collected_record_spec(rec: MetadataRecordV, collection_mint: Seq<u8>) -> MetadataRecordV {
    MetadataRecordV {
        collection: Some(CollectionV { key: collection_mint, verified: true }),
        ..rec
    }
}

/// Links the record to a collection and verifies the membership in one step.
/// Only the protocol's trusted issuer may do so.
pub fn set_and_verify_collection(
    cfg: &Config,
    rec: &mut MetadataRecord,
    signer: &Address,
    collection_mint: &Address,
) -> (r: Result<(), ErrorCode>)
    ensures
        r is Ok <==> signer@ == cfg@.trusted_issuer,
        r is Ok ==> final(rec)@ == collected_record_spec(old(rec)@, collection_mint@),
        r is Err ==> r == Err::<(), ErrorCode>(ErrorCode::Unauthorized) && final(rec)@ == old(rec)@,
{
    if !signer.same_as(&cfg.trusted_issuer) {
        return Err(ErrorCode::Unauthorized);
    }
    rec.collection = Some(Collection { key: collection_mint.duplicate(), verified: true });
    Ok(())
}

/// Whether a record still carries an unconsumed redemption right.
pub open spec fn has_remaining_use(rec: MetadataRecordV) -> bool {
    rec.uses matches Some(u) && u.remaining >= 1
}

/// A record with one redemption right consumed.
pub open spec fn consumed_record_spec(rec: MetadataRecordV) -> MetadataRecordV {
    match rec.uses {
        Some(u) => MetadataRecordV {
            uses: Some(Uses { remaining: (u.remaining - 1) as u64, ..u }),
            ..rec
        },
        None => rec,
    }
}

/// Consumes one use from the record: remaining goes 1 to 0 exactly once; a
/// record whose right is already consumed (or that never carried one) is
/// rejected unchanged.
pub fn consume_use(rec: &mut MetadataRecord) -> (r: Result<(), ErrorCode>)
    ensures
        r is Ok <==> has_remaining_use(old(rec)@),
        r is Ok ==> final(rec)@ == consumed_record_spec(old(rec)@),
        r is Err ==> r == Err::<(), ErrorCode>(ErrorCode::AlreadyRedeemed) && final(rec)@ == old(
            rec,
        )@,
{
    match rec.uses {
        Some(u) => {
            if u.remaining >= 1 {
                rec.uses = Some(Uses { use_method: u.use_method, remaining: u.remaining - 1, total: u.total });
                Ok(())
            } else {
                Err(ErrorCode::AlreadyRedeemed)
            }
        },
        None => Err(ErrorCode::AlreadyRedeemed),
    }
}

/// The authenticity verdict on a caller-supplied metadata address and the
/// record found there, for an expected collectible mint: the expected
/// address is recomputed and compared, the slot must hold a parseable
/// record, and the record's first creator entry must be the trusted issuer
/// and must already carry the issuer's verified stamp.
pub open spec fn verify_outcome(
    cfg: ConfigV,
    supplied: Seq<u8>,
    mint: Seq<u8>,
    slot: MetadataSlotV,
) -> Result<(), ErrorCode> {
    match derive_spec(SeedKind::Metadata, cfg, mint) {
        None => Err(ErrorCode::AddressDerivationExhausted),
        Some(d) => if supplied != d.0 {
            Err(ErrorCode::AddressMismatch)
        } else {
            match slot {
                MetadataSlotV::Empty => Err(ErrorCode::NotInitialized),
                MetadataSlotV::Corrupt => Err(ErrorCode::MalformedMetadata),
                MetadataSlotV::Present(rec) => if rec.creators.len() == 0
                    || rec.creators[0].address != cfg.trusted_issuer {
                    Err(ErrorCode::UntrustedCreator)
                } else if !rec.creators[0].verified {
                    Err(ErrorCode::CreatorNotVerified)
                } else {
                    Ok(())
                },
            }
        },
    }
}

/// Checks a presented metadata account against the collectible mint it is
/// claimed for, as [`verify_outcome`] states.
pub fn verify(cfg: &Config, supplied: &Address, mint: &Address, slot: &MetadataSlot) -> (r: Result<
    (),
    ErrorCode,
>)
    requires
        cfg.wf(),
        mint.wf(),
    ensures
        r == verify_outcome(cfg@, supplied@, mint@, slot@),
{
    let derived = match derive_address(SeedKind::Metadata, cfg, mint) {
        None => {
            return Err(ErrorCode::AddressDerivationExhausted);
        },
        Some(d) => d.0,
    };
    if !supplied.same_as(&derived) {
        return Err(ErrorCode::AddressMismatch);
    }
    match slot {
        MetadataSlot::Empty => Err(ErrorCode::NotInitialized),
        MetadataSlot::Corrupt => Err(ErrorCode::MalformedMetadata),
        MetadataSlot::Present(rec) => {
            if rec.creators.len() == 0 {
                return Err(ErrorCode::UntrustedCreator);
            }
            let c0 = &rec.creators[0];
            if !c0.address.same_as(&cfg.trusted_issuer) {
                return Err(ErrorCode::UntrustedCreator);
            }
            if !c0.verified {
                return Err(ErrorCode::CreatorNotVerified);
            }
            Ok(())
        },
    }
}

/// The sum of the creator entries' royalty shares, in percent.
pub open spec fn share_total(cs: Seq<CreatorV>) -> int
    decreases cs.len(),
{
    if cs.len() == 0 {
        0
    } else {
        cs[0].share + share_total(cs.drop_first())
    }
}

/// The shape this protocol guarantees of every record it issues: the
/// creator shares sum to one hundred percent, and the record carries a
/// single-use counter with total one whose remaining count never exceeds
/// one.
pub open spec fn protocol_record_invariant(rec: MetadataRecordV) -> bool {
    &&& share_total(rec.creators) == 100
    &&& rec.uses matches Some(u) && u.use_method == UseMethod::Single && u.total == 1
        && u.remaining <= 1
}

/// Consuming a use keeps the record's protocol shape: shares are untouched
/// and the remaining count only decreases.
pub proof fn lemma_consume_preserves_invariant(rec: MetadataRecordV)
    requires
        protocol_record_invariant(rec),
        has_remaining_use(rec),
    ensures
        protocol_record_invariant(consumed_record_spec(rec)),
{
}

} // verus!
