//! The address deriver: determinism, the distinctness of the derived
//! account families, and agreement with the host collaborator's own
//! derivation.
use tipsea::addr::{derive_address, Address, Config, SeedKind};

fn addr(b: u8) -> Address {
    Address { bytes: vec![b; 32] }
}

fn cfg() -> Config {
    Config { trusted_issuer: addr(1), program_id: addr(2), token_metadata_program: addr(3) }
}

#[test]
fn derivation_is_deterministic_across_invocations() {
    let c = cfg();
    let mint = addr(10);
    let (a1, b1) = derive_address(SeedKind::Escrow, &c, &mint).unwrap();
    let (a2, b2) = derive_address(SeedKind::Escrow, &c, &mint).unwrap();
    assert_eq!(a1.bytes, a2.bytes);
    assert_eq!(b1, b2);
}

#[test]
fn derived_addresses_are_new_32_byte_addresses() {
    let c = cfg();
    let mint = addr(10);
    let (escrow, _) = derive_address(SeedKind::Escrow, &c, &mint).unwrap();
    let (md, _) = derive_address(SeedKind::Metadata, &c, &mint).unwrap();
    let (ed, _) = derive_address(SeedKind::Edition, &c, &mint).unwrap();
    assert_eq!(escrow.bytes.len(), 32);
    assert_eq!(md.bytes.len(), 32);
    assert_eq!(ed.bytes.len(), 32);
    // The three families land at distinct addresses, none of them an input.
    assert_ne!(escrow.bytes, md.bytes);
    assert_ne!(escrow.bytes, ed.bytes);
    assert_ne!(md.bytes, ed.bytes);
    assert_ne!(escrow.bytes, mint.bytes);
    assert_ne!(md.bytes, mint.bytes);
}

#[test]
fn escrow_derivation_matches_host_derivation() {
    let c = cfg();
    let mint = addr(10);
    let (a, bump) = derive_address(SeedKind::Escrow, &c, &mint).unwrap();
    let pid = solana_program::pubkey::Pubkey::new_from_array([2u8; 32]);
    let (pk, host_bump) = solana_program::pubkey::Pubkey::find_program_address(
        &[b"fund", &[10u8; 32]],
        &pid,
    );
    assert_eq!(a.bytes, pk.to_bytes().to_vec());
    assert_eq!(bump, host_bump);
}

#[test]
fn metadata_derivation_matches_host_derivation() {
    let c = cfg();
    let mint = addr(10);
    let (a, _) = derive_address(SeedKind::Metadata, &c, &mint).unwrap();
    let program = solana_program::pubkey::Pubkey::new_from_array([3u8; 32]);
    let (pk, _) = solana_program::pubkey::Pubkey::find_program_address(
        &[b"metadata", &[3u8; 32], &[10u8; 32]],
        &program,
    );
    assert_eq!(a.bytes, pk.to_bytes().to_vec());
    let (e, _) = derive_address(SeedKind::Edition, &c, &mint).unwrap();
    let (epk, _) = solana_program::pubkey::Pubkey::find_program_address(
        &[b"metadata", &[3u8; 32], &[10u8; 32], b"edition"],
        &program,
    );
    assert_eq!(e.bytes, epk.to_bytes().to_vec());
}
