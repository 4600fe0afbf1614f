//! The per-series protocol state — the escrow pool and every collectible
//! issued against it — and the one-time initialization of a series.
use vstd::prelude::*;

use crate::addr::{derive_address, derive_spec, Address, Config, ConfigV, SeedKind};
use crate::errors::ErrorCode;
use crate::escrow::{EscrowAccount, EscrowAccountV};
use crate::metadata::{MetadataSlot, MetadataSlotV};

verus! {

/// Everything the protocol keeps about one issued collectible: its mint,
/// the derived addresses its records were created at, the metadata slot,
/// and the minted supply (fixed at one and locked by the master edition).
#[derive(Debug)]
pub struct Entry {
    pub mint: Address,
    pub metadata_addr: Address,
    pub edition_addr: Address,
    pub slot: MetadataSlot,
    pub supply: u64,
}

/// The mathematical content of an [`Entry`].
#[verifier::ext_equal]
pub struct EntryV {
    pub mint: Seq<u8>,
    pub metadata_addr: Seq<u8>,
    pub edition_addr: Seq<u8>,
    pub slot: MetadataSlotV,
    pub supply: nat,
}

impl View for Entry {
    type V = EntryV;

    open spec fn view(&self) -> EntryV {
        EntryV {
            mint: self.mint@,
            metadata_addr: self.metadata_addr@,
            edition_addr: self.edition_addr@,
            slot: self.slot@,
            supply: self.supply as nat,
        }
    }
}

impl DeepView for Entry {
    type V = EntryV;

    open spec fn deep_view(&self) -> EntryV {
        self@
    }
}

impl EntryV {
    pub open spec fn wf(&self) -> bool {
        &&& self.mint.len() == 32
        &&& self.metadata_addr.len() == 32
        &&& self.edition_addr.len() == 32
        &&& self.slot.wf()
    }
}

/// One collectible series: its identifying mint, the escrow pool bound to
/// it by derivation, and the collectibles issued so far.
#[derive(Debug)]
pub struct Series {
    /// The identities this deployment was constructed with.
    pub cfg: Config,
    /// The mint address that identifies the series and seeds its escrow.
    pub series_mint: Address,
    /// The funding pool all redemptions of this series draw from.
    pub escrow: EscrowAccount,
    /// The collectibles issued against this series, one entry per mint.
    pub entries: Vec<Entry>,
}

/// The mathematical content of a [`Series`].
#[verifier::ext_equal]
pub struct SeriesV {
    pub cfg: ConfigV,
    pub series_mint: Seq<u8>,
    pub escrow: EscrowAccountV,
    pub entries: Seq<EntryV>,
}

impl View for Series {
    type V = SeriesV;

    open spec fn view(&self) -> SeriesV {
        SeriesV {
            cfg: self.cfg@,
            series_mint: self.series_mint@,
            escrow: self.escrow@,
            entries: self.entries.deep_view(),
        }
    }
}

impl SeriesV {
    /// The series invariant: the escrow's stored address and bump are
    /// exactly the deterministic derivation from the series mint, every
    /// entry is well formed, and no two entries share a mint.
    pub open spec fn wf(&self) -> bool {
        &&& self.cfg.wf()
        &&& self.series_mint.len() == 32
        &&& self.escrow.addr.len() == 32
        &&& derive_spec(SeedKind::Escrow, self.cfg, self.series_mint) == Some(
            (self.escrow.addr, self.escrow.bump),
        )
        &&& forall|i: int| 0 <= i < self.entries.len() ==> (#[trigger] self.entries[i]).wf()
        &&& self.unique_mints()
    }

    /// No two entries of the series share a mint: each collectible is
    /// issued once, so its record is found at exactly one index.
    pub open spec fn unique_mints(&self) -> bool {
        forall|i: int, j: int|
            0 <= i < j < self.entries.len() ==> self.entries[i].mint != self.entries[j].mint
    }

    /// Whether a collectible with the given mint was issued in this series.
    pub open spec fn has_entry(&self, mint: Seq<u8>) -> bool {
        exists|i: int| 0 <= i < self.entries.len() && (#[trigger] self.entries[i]).mint == mint
    }

    /// The index of the entry for the given mint (meaningful only when
    /// [`Self::has_entry`] holds; unique by the series invariant).
    pub open spec fn entry_index(&self, mint: Seq<u8>) -> int {
        choose|i: int| 0 <= i < self.entries.len() && (#[trigger] self.entries[i]).mint == mint
    }
}

impl Series {
    /// Finds the entry for the given mint, if the series issued one.
    pub fn find_entry(&self, mint: &Address) -> (r: Option<usize>)
        requires
            self@.wf(),
        ensures
            r is Some <==> self@.has_entry(mint@),
            r matches Some(i) ==> i == self@.entry_index(mint@)
                && 0 <= i < self@.entries.len() && self@.entries[i as int].mint == mint@,
    {
        let n = self.entries.len();
        let mut i: usize = 0;
        while i < n
            invariant
                self@.wf(),
                n == self@.entries.len(),
                0 <= i <= n,
                forall|j: int| 0 <= j < i ==> (#[trigger] self@.entries[j]).mint != mint@,
            decreases n - i,
        {
            if self.entries[i].mint.same_as(mint) {
                proof {
                    assert(self@.entries[i as int].mint == mint@);
                    let k = self@.entry_index(mint@);
                    assert(0 <= k < self@.entries.len() && self@.entries[k].mint == mint@);
                    assert(k == i as int);
                }
                return Some(i);
            }
            i += 1;
        }
        None
    }
}

/// The caller-supplied identities of a series initialization: the paying
/// initializer and the mint that will identify the series.
#[derive(Debug)]
pub struct InitializeTipsea {
    pub initializer: Address,
    pub mint: Address,
}

/// The state of a freshly initialized series: an empty escrow at the
/// derived address `p`, and no collectibles issued yet.
pub open spec fn initialized_series_spec(cfg: ConfigV, mint: Seq<u8>, p: (Seq<u8>, u8)) -> SeriesV {
    SeriesV {
        cfg: cfg,
        series_mint: mint,
        escrow: EscrowAccountV { addr: p.0, bump: p.1, balance: 0 },
        entries: Seq::empty(),
    }
}

/// One-time creation of a series' escrow account. A second call against the
/// same series must fail rather than silently succeed, so re-initialization
/// is rejected; otherwise the escrow account is created empty at the
/// address derived from `["fund", series mint]`.
pub fn initialize_tipsea(series: &mut Option<Series>, cfg: Config, ctx: InitializeTipsea) -> (r:
    Result<(), ErrorCode>)
    requires
        cfg.wf(),
        ctx.mint.wf(),
    ensures
        (*old(series)) is Some ==> r == Err::<(), ErrorCode>(ErrorCode::AlreadyInitialized)
            && *final(series) == *old(series),
        (*old(series)) is None && derive_spec(SeedKind::Escrow, cfg@, ctx.mint@) is None ==> r
            == Err::<(), ErrorCode>(ErrorCode::AddressDerivationExhausted) && (*final(series)) is None,
        (*old(series)) is None && derive_spec(SeedKind::Escrow, cfg@, ctx.mint@) is Some ==> ({
            let p = derive_spec(SeedKind::Escrow, cfg@, ctx.mint@).unwrap();
            &&& r is Ok
            &&& (*final(series)) matches Some(s) && s@ == initialized_series_spec(cfg@, ctx.mint@, p)
                && s@.wf()
        }),
{
    if series.is_some() {
        return Err(ErrorCode::AlreadyInitialized);
    }
    let (addr, bump) = match derive_address(SeedKind::Escrow, &cfg, &ctx.mint) {
        None => {
            return Err(ErrorCode::AddressDerivationExhausted);
        },
        Some(p) => p,
    };
    let s = Series {
        cfg,
        series_mint: ctx.mint,
        escrow: EscrowAccount { addr, bump, balance: 0 },
        entries: Vec::new(),
    };
    proof {
        let p = derive_spec(SeedKind::Escrow, s.cfg@, s.series_mint@).unwrap();
        assert(s@ =~~= initialized_series_spec(s.cfg@, s.series_mint@, p));
    }
    *series = Some(s);
    Ok(())
}

} // verus!

