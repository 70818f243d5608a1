//! The conditions on which an operation of the ledger fails.

use vstd::prelude::*;

verus! {

/// Why an operation failed. Each operation is all-or-nothing: on any of these
/// nothing it would have written is written.
#[derive(Clone, Copy, Debug, PartialEq, Eq, Structural)]
pub enum GovernanceError {
    /// The account is not owned by the governance program.
    InvalidAccountOwner,
    /// The account's type tag is not one the operation accepts.
    InvalidAccountType,
    /// Fewer accounts were passed than the operation reads.
    NotEnoughAccountKeys,
    /// The realm account is not at the address derived from its name.
    InvalidRealmAddress,
    /// The account's bytes do not hold a record of the expected layout.
    InvalidAccountData,
    /// The account is too small for the record written to it.
    AccountDataTooSmall,
    /// The mint is neither the community nor the council mint of the realm.
    InvalidGoverningTokenMint,
    /// The holding account is not the one derived for the realm and mint.
    InvalidGoverningTokenHoldingAccount,
    /// The realm has no authority.
    RealmHasNoAuthority,
    /// The given authority is not the realm's authority.
    InvalidAuthorityForRealm,
    /// The realm authority did not sign.
    RealmAuthorityMustSign,
    /// A supply fraction outside one to the full supply fraction.
    InvalidMaxVoterWeightSupplyFraction,
    /// An absolute max voter weight of zero.
    InvalidMaxVoterWeightAbsoluteValue,
    /// The governing token owner did not sign.
    GoverningTokenOwnerMustSign,
    /// Neither the owner nor the delegate of the record signed.
    GoverningTokenOwnerOrDelegateMustSign,
    /// The revoked amount exceeds the deposited balance.
    InvalidRevokeAmount,
    /// The deposit source is neither a token account nor the mint.
    InvalidGoverningTokenSource,
    /// The deposit source is the holding account itself, so nothing would
    /// move into custody.
    DepositSourceIsHolding,
    /// The mint's configuration keeps tokens from being deposited.
    CannotDepositDormantTokens,
    /// The mint's configuration keeps tokens from being revoked.
    CannotRevokeGoverningTokens,
    /// The realm config account belongs to another realm or address.
    InvalidRealmConfigForRealm,
    /// The token owner record account is not at its derived address.
    InvalidTokenOwnerRecordAccountAddress,
    /// The token owner record belongs to another realm.
    InvalidRealmForTokenOwnerRecord,
    /// The token owner record is for another governing token mint.
    InvalidGoverningMintForTokenOwnerRecord,
    /// The token account is not a valid account of the selected token program.
    InvalidTokenAccount,
    /// The mint account is not a valid mint of the selected token program.
    InvalidMint,
    /// The mint has no mint authority.
    MintHasNoAuthority,
    /// The given authority is not the mint's authority.
    InvalidMintAuthority,
    /// The mint authority did not sign.
    MintAuthorityMustSign,
    /// No program address could be derived from the seeds.
    AddressDerivationFailed,
    /// A legacy realm holds data that the legacy layout cannot store.
    ExtendedDataNotSupported,
    /// The deposited balance would exceed the largest `u64`.
    DepositAmountOverflow,
    /// A voter weight plugin is configured for the mint but gave no weight.
    MissingVoterWeightRecord,
    /// The voter's weight is below what creating a governance takes.
    NotEnoughTokensToCreateGovernance,
}

} // verus!
