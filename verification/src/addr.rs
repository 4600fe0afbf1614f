//! Addresses, deterministic program-derived addresses, and the protocol
//! configuration.
//!
//! Every account the protocol touches is named by a 32-byte address. Escrow,
//! metadata and edition accounts live at deterministic sub-addresses derived
//! from typed seed lists; the derivation is recomputed independently at use
//! time and compared against caller-supplied addresses, which is the
//! protocol's anti-spoofing check.
use vstd::prelude::*;

verus! {

/// A 32-byte account address.
#[derive(Debug)]
pub struct Address {
    pub bytes: Vec<u8>,
}

impl View for Address {
    type V = Seq<u8>;

    open spec fn view(&self) -> Seq<u8> {
        self.bytes@
    }
}

impl Address {
    /// An address is well formed when it holds exactly 32 bytes.
    pub open spec fn wf(&self) -> bool {
        self@.len() == 32
    }

    /// Builds an address from raw bytes; rejects any length other than 32.
    pub fn from_bytes(bytes: Vec<u8>) -> (r: Option<Address>)
        ensures
            bytes@.len() == 32 ==> (r matches Some(a) && a@ == bytes@ && a.wf()),
            bytes@.len() != 32 ==> r is None,
    {
        if bytes.len() == 32 {
            Some(Address { bytes })
        } else {
            None
        }
    }

    /// Byte-for-byte equality of two addresses.
    pub fn same_as(&self, other: &Address) -> (r: bool)
        ensures
            r == (self@ == other@),
    {
        if self.bytes.len() != other.bytes.len() {
            return false;
        }
        let n = self.bytes.len();
        let mut i: usize = 0;
        while i < n
            invariant
                n == self.bytes@.len(),
                self.bytes@.len() == other.bytes@.len(),
                0 <= i <= n,
                forall|j: int| 0 <= j < i ==> self.bytes@[j] == other.bytes@[j],
            decreases n - i,
        {
            if self.bytes[i] != other.bytes[i] {
                return false;
            }
            i += 1;
        }
        proof {
            assert(self@ =~= other@);
        }
        true
    }

    /// An owned copy of this address.
    pub fn duplicate(&self) -> (r: Address)
        ensures
            r@ == self@,
    {
        let mut bytes: Vec<u8> = Vec::new();
        let n = self.bytes.len();
        let mut i: usize = 0;
        while i < n
            invariant
                n == self.bytes@.len(),
                0 <= i <= n,
                bytes@ == self.bytes@.subrange(0, i as int),
            decreases n - i,
        {
            bytes.push(self.bytes[i]);
            i += 1;
        }
        proof {
            assert(bytes@ =~= self.bytes@);
        }
        Address { bytes }
    }
}

/// The deployment-specific identities the protocol is constructed with, so
/// that no fixed address is scattered through the code.
#[derive(Debug)]
pub struct Config {
    /// The protocol's trusted issuer and administrative authority.
    pub trusted_issuer: Address,
    /// The protocol's own program identity; escrow addresses are derived
    /// under this namespace.
    pub program_id: Address,
    /// The token-metadata collaborator's identity; metadata and edition
    /// addresses are derived under this namespace.
    pub token_metadata_program: Address,
}

impl Config {
    pub open spec fn wf(&self) -> bool {
        self.trusted_issuer.wf() && self.program_id.wf() && self.token_metadata_program.wf()
    }
}

impl ConfigV {
    pub open spec fn wf(&self) -> bool {
        &&& self.trusted_issuer.len() == 32
        &&& self.program_id.len() == 32
        &&& self.token_metadata_program.len() == 32
    }
}

/// The result of program-derived-address search for a given seed list and
/// namespace. The search is deterministic: the same seeds and namespace
/// always name the same address and bump, in every invocation.
pub uninterp spec fn pda_of(seeds: Seq<Seq<u8>>, namespace: Seq<u8>) -> Option<(Seq<u8>, u8)>;

/// Relies on solana_program's `Pubkey::try_find_program_address`: the result
/// is a pure function of the seed list and the namespace address alone
/// (a bounded search over SHA-256 images), `None` when the seed list is
/// over the collaborator's limits or the bounded search is exhausted, and
/// the returned address is always 32 bytes.
#[verifier::external_body]
fn try_find_pda(seeds: &Vec<Vec<u8>>, namespace: &Vec<u8>) -> (r: Option<(Vec<u8>, u8)>)
    requires
        namespace@.len() == 32,
    ensures
        r is Some <==> pda_of(seeds.deep_view(), namespace@) is Some,
        r matches Some(p) ==> pda_of(seeds.deep_view(), namespace@) == Some((p.0@, p.1))
            && p.0@.len() == 32,
{
    let mut refs: Vec<&[u8]> = Vec::new();
    for s in seeds.iter() {
        refs.push(s.as_slice());
    }
    let mut pid = [0u8; 32];
    pid.copy_from_slice(namespace.as_slice());
    let pid = solana_program::pubkey::Pubkey::new_from_array(pid);
    solana_program::pubkey::Pubkey::try_find_program_address(refs.as_slice(), &pid)
        .map(|(pk, bump)| (pk.to_bytes().to_vec(), bump))
}

/// The kinds of sub-address the protocol derives, one per account family.
#[derive(Clone, Copy, Debug, PartialEq, Eq, Structural)]
pub enum SeedKind {
    /// The escrow funding pool of a series: seeds `["fund", series mint]`
    /// under the protocol's own program.
    Escrow,
    /// A collectible's metadata record: seeds
    /// `["metadata", metadata program, collectible mint]` under the
    /// metadata program.
    Metadata,
    /// A collectible's master-edition marker: the metadata seeds followed by
    /// `"edition"`, under the metadata program.
    Edition,
}

/// The bytes of the literal seed `"fund"`.
pub open spec fn fund_seed_spec() -> Seq<u8> {
    seq![102u8, 117u8, 110u8, 100u8]
}

/// The bytes of the literal seed `"metadata"`.
pub open spec fn metadata_seed_spec() -> Seq<u8> {
    seq![109u8, 101u8, 116u8, 97u8, 100u8, 97u8, 116u8, 97u8]
}

/// The bytes of the literal seed `"edition"`.
pub open spec fn edition_seed_spec() -> Seq<u8> {
    seq![101u8, 100u8, 105u8, 116u8, 105u8, 111u8, 110u8]
}

/// The ordered seed list used to derive the given kind of sub-address for
/// the given mint.
pub open spec fn seeds_spec(kind: SeedKind, cfg: ConfigV, mint: Seq<u8>) -> Seq<Seq<u8>> {
    match kind {
        SeedKind::Escrow => seq![fund_seed_spec(), mint],
        SeedKind::Metadata => seq![metadata_seed_spec(), cfg.token_metadata_program, mint],
        SeedKind::Edition => seq![
            metadata_seed_spec(),
            cfg.token_metadata_program,
            mint,
            edition_seed_spec(),
        ],
    }
}

/// The namespace a given kind of sub-address is derived under.
pub open spec fn namespace_spec(kind: SeedKind, cfg: ConfigV) -> Seq<u8> {
    match kind {
        SeedKind::Escrow => cfg.program_id,
        SeedKind::Metadata => cfg.token_metadata_program,
        SeedKind::Edition => cfg.token_metadata_program,
    }
}

/// The derived address and bump for the given kind of sub-address, or `None`
/// when no valid derivation exists within the bounded search space.
pub open spec fn derive_spec(kind: SeedKind, cfg: ConfigV, mint: Seq<u8>) -> Option<(Seq<u8>, u8)> {
    pda_of(seeds_spec(kind, cfg, mint), namespace_spec(kind, cfg))
}

/// The mathematical content of a [`Config`]: its three identities as byte
/// sequences.
#[verifier::ext_equal]
pub struct ConfigV {
    pub trusted_issuer: Seq<u8>,
    pub program_id: Seq<u8>,
    pub token_metadata_program: Seq<u8>,
}

impl View for Config {
    type V = ConfigV;

    open spec fn view(&self) -> ConfigV {
        ConfigV {
            trusted_issuer: self.trusted_issuer@,
            program_id: self.program_id@,
            token_metadata_program: self.token_metadata_program@,
        }
    }
}

/// The bytes of the literal seed `"fund"`.
fn fund_seed() -> (r: Vec<u8>)
    ensures
        r@ == fund_seed_spec(),
{
    let mut v: Vec<u8> = Vec::new();
    v.push(102u8);
    v.push(117u8);
    v.push(110u8);
    v.push(100u8);
    proof {
        assert(v@ =~= fund_seed_spec());
    }
    v
}

/// The bytes of the literal seed `"metadata"`.
fn metadata_seed() -> (r: Vec<u8>)
    ensures
        r@ == metadata_seed_spec(),
{
    let mut v: Vec<u8> = Vec::new();
    v.push(109u8);
    v.push(101u8);
    v.push(116u8);
    v.push(97u8);
    v.push(100u8);
    v.push(97u8);
    v.push(116u8);
    v.push(97u8);
    proof {
        assert(v@ =~= metadata_seed_spec());
    }
    v
}

/// The bytes of the literal seed `"edition"`.
fn edition_seed() -> (r: Vec<u8>)
    ensures
        r@ == edition_seed_spec(),
{
    let mut v: Vec<u8> = Vec::new();
    v.push(101u8);
    v.push(100u8);
    v.push(105u8);
    v.push(116u8);
    v.push(105u8);
    v.push(111u8);
    v.push(110u8);
    proof {
        assert(v@ =~= edition_seed_spec());
    }
    v
}

/// Derives the sub-address of the given kind for the given mint: the single
/// derivation path used both when an account is created and when a
/// caller-supplied address is re-checked against it.
pub fn derive_address(kind: SeedKind, cfg: &Config, mint: &Address) -> (r: Option<(Address, u8)>)
    requires
        cfg.wf(),
        mint.wf(),
    ensures
        r is Some <==> derive_spec(kind, cfg@, mint@) is Some,
        r matches Some(p) ==> derive_spec(kind, cfg@, mint@) == Some((p.0@, p.1)) && p.0.wf(),
{
    let mut seeds: Vec<Vec<u8>> = Vec::new();
    match kind {
        SeedKind::Escrow => {
            seeds.push(fund_seed());
            seeds.push(mint.duplicate().bytes);
        },
        SeedKind::Metadata => {
            seeds.push(metadata_seed());
            seeds.push(cfg.token_metadata_program.duplicate().bytes);
            seeds.push(mint.duplicate().bytes);
        },
        SeedKind::Edition => {
            seeds.push(metadata_seed());
            seeds.push(cfg.token_metadata_program.duplicate().bytes);
            seeds.push(mint.duplicate().bytes);
            seeds.push(edition_seed());
        },
    }
    proof {
        assert(seeds.deep_view() =~~= seeds_spec(kind, cfg@, mint@));
    }
    let namespace = match kind {
        SeedKind::Escrow => &cfg.program_id,
        SeedKind::Metadata => &cfg.token_metadata_program,
        SeedKind::Edition => &cfg.token_metadata_program,
    };
    match try_find_pda(&seeds, &namespace.bytes) {
        Some(p) => Some((Address { bytes: p.0 }, p.1)),
        None => None,
    }
}

} // verus!
