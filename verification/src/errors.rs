//! The protocol's error taxonomy.
//!
//! Every failure of a public operation is reported as one of these variants;
//! there is no generic catch-all, so callers can always tell precondition
//! violations, collaborator failures and consistency violations apart.
use vstd::prelude::*;

verus! {

/// Every way a public operation of the protocol can fail.
#[derive(Clone, Copy, Debug, PartialEq, Eq, Structural)]
pub enum ErrorCode {
    /// No valid derivation exists within the bounded search space for a
    /// program-derived address (practically unreachable, but typed).
    AddressDerivationExhausted,
    /// The sponsor's payment-token balance cannot cover the fixed mint price.
    InsufficientFunds,
    /// Minting one unit of the collectible failed (for example, the mint was
    /// already used by an earlier creation).
    MintFailed,
    /// Creating the collectible's metadata record failed.
    MetadataCreateFailed,
    /// Creating the master-edition marker failed.
    MasterEditionCreateFailed,
    /// Amending the metadata record after creation failed.
    MetadataUpdateFailed,
    /// The presented token account's recorded owner is not the redeemer.
    OwnerMismatch,
    /// The presented token account's recorded mint is not the collectible.
    MintMismatch,
    /// The presented token account does not hold exactly one unit.
    BalanceInvariantViolated,
    /// The master-edition marker's address does not match the derived one.
    EditionAddressMismatch,
    /// The supplied metadata address does not match the derived one.
    AddressMismatch,
    /// The metadata record has no stored data.
    NotInitialized,
    /// The metadata record's stored data cannot be parsed.
    MalformedMetadata,
    /// The metadata record's first creator entry is not the trusted issuer.
    UntrustedCreator,
    /// The trusted issuer's creator entry has not been stamped as verified.
    CreatorNotVerified,
    /// The collectible's redemption right was already consumed.
    AlreadyRedeemed,
    /// The escrow does not hold enough funds for the requested transfer.
    InsufficientEscrowFunds,
    /// The signer is not the identity that the operation demands.
    Unauthorized,
    /// The series' escrow account already exists.
    AlreadyInitialized,
}

} // verus!
