//! Enumerations shared by the ledger's records.

use vstd::prelude::*;

verus! {

/// The type tag that opens every governance account.
#[derive(Clone, Copy, Debug, PartialEq, Eq, Structural)]
pub enum GovernanceAccountType {
    Uninitialized,
    RealmV1,
    TokenOwnerRecordV1,
    GovernanceV1,
    ProgramGovernanceV1,
    ProposalV1,
    SignatoryRecordV1,
    VoteRecordV1,
    ProposalInstructionV1,
    MintGovernanceV1,
    TokenGovernanceV1,
    RealmConfig,
    VoteRecordV2,
    ProposalTransactionV2,
    ProposalV2,
    ProgramMetadata,
    RealmV2,
    TokenOwnerRecordV2,
    GovernanceV2,
    ProgramGovernanceV2,
    MintGovernanceV2,
    TokenGovernanceV2,
    SignatoryRecordV2,
    ProposalDeposit,
    RequiredSignatory,
}

/// The byte that stands for an account type in the stored layout.
pub open spec fn account_type_tag(t: GovernanceAccountType) -> u8 {
    match t {
        GovernanceAccountType::Uninitialized => 0,
        GovernanceAccountType::RealmV1 => 1,
        GovernanceAccountType::TokenOwnerRecordV1 => 2,
        GovernanceAccountType::GovernanceV1 => 3,
        GovernanceAccountType::ProgramGovernanceV1 => 4,
        GovernanceAccountType::ProposalV1 => 5,
        GovernanceAccountType::SignatoryRecordV1 => 6,
        GovernanceAccountType::VoteRecordV1 => 7,
        GovernanceAccountType::ProposalInstructionV1 => 8,
        GovernanceAccountType::MintGovernanceV1 => 9,
        GovernanceAccountType::TokenGovernanceV1 => 10,
        GovernanceAccountType::RealmConfig => 11,
        GovernanceAccountType::VoteRecordV2 => 12,
        GovernanceAccountType::ProposalTransactionV2 => 13,
        GovernanceAccountType::ProposalV2 => 14,
        GovernanceAccountType::ProgramMetadata => 15,
        GovernanceAccountType::RealmV2 => 16,
        GovernanceAccountType::TokenOwnerRecordV2 => 17,
        GovernanceAccountType::GovernanceV2 => 18,
        GovernanceAccountType::ProgramGovernanceV2 => 19,
        GovernanceAccountType::MintGovernanceV2 => 20,
        GovernanceAccountType::TokenGovernanceV2 => 21,
        GovernanceAccountType::SignatoryRecordV2 => 22,
        GovernanceAccountType::ProposalDeposit => 23,
        GovernanceAccountType::RequiredSignatory => 24,
    }
}

/// Number of account types; tags run from zero below it.
pub const ACCOUNT_TYPE_COUNT: u8 = 25;

impl GovernanceAccountType {
    /// The stored tag of the account type.
    pub fn to_tag(&self) -> (r: u8)
        ensures
            r == account_type_tag(*self),
            r < ACCOUNT_TYPE_COUNT,
    {
        match self {
            GovernanceAccountType::Uninitialized => 0,
            GovernanceAccountType::RealmV1 => 1,
            GovernanceAccountType::TokenOwnerRecordV1 => 2,
            GovernanceAccountType::GovernanceV1 => 3,
            GovernanceAccountType::ProgramGovernanceV1 => 4,
            GovernanceAccountType::ProposalV1 => 5,
            GovernanceAccountType::SignatoryRecordV1 => 6,
            GovernanceAccountType::VoteRecordV1 => 7,
            GovernanceAccountType::ProposalInstructionV1 => 8,
            GovernanceAccountType::MintGovernanceV1 => 9,
            GovernanceAccountType::TokenGovernanceV1 => 10,
            GovernanceAccountType::RealmConfig => 11,
            GovernanceAccountType::VoteRecordV2 => 12,
            GovernanceAccountType::ProposalTransactionV2 => 13,
            GovernanceAccountType::ProposalV2 => 14,
            GovernanceAccountType::ProgramMetadata => 15,
            GovernanceAccountType::RealmV2 => 16,
            GovernanceAccountType::TokenOwnerRecordV2 => 17,
            GovernanceAccountType::GovernanceV2 => 18,
            GovernanceAccountType::ProgramGovernanceV2 => 19,
            GovernanceAccountType::MintGovernanceV2 => 20,
            GovernanceAccountType::TokenGovernanceV2 => 21,
            GovernanceAccountType::SignatoryRecordV2 => 22,
            GovernanceAccountType::ProposalDeposit => 23,
            GovernanceAccountType::RequiredSignatory => 24,
        }
    }

    /// The account type a stored tag stands for, if any.
    pub fn from_tag(b: u8) -> (r: Option<GovernanceAccountType>)
        ensures
            match r {
                Some(t) => account_type_tag(t) == b,
                None => b >= ACCOUNT_TYPE_COUNT,
            },
    {
        match b {
            0 => Some(GovernanceAccountType::Uninitialized),
            1 => Some(GovernanceAccountType::RealmV1),
            2 => Some(GovernanceAccountType::TokenOwnerRecordV1),
            3 => Some(GovernanceAccountType::GovernanceV1),
            4 => Some(GovernanceAccountType::ProgramGovernanceV1),
            5 => Some(GovernanceAccountType::ProposalV1),
            6 => Some(GovernanceAccountType::SignatoryRecordV1),
            7 => Some(GovernanceAccountType::VoteRecordV1),
            8 => Some(GovernanceAccountType::ProposalInstructionV1),
            9 => Some(GovernanceAccountType::MintGovernanceV1),
            10 => Some(GovernanceAccountType::TokenGovernanceV1),
            11 => Some(GovernanceAccountType::RealmConfig),
            12 => Some(GovernanceAccountType::VoteRecordV2),
            13 => Some(GovernanceAccountType::ProposalTransactionV2),
            14 => Some(GovernanceAccountType::ProposalV2),
            15 => Some(GovernanceAccountType::ProgramMetadata),
            16 => Some(GovernanceAccountType::RealmV2),
            17 => Some(GovernanceAccountType::TokenOwnerRecordV2),
            18 => Some(GovernanceAccountType::GovernanceV2),
            19 => Some(GovernanceAccountType::ProgramGovernanceV2),
            20 => Some(GovernanceAccountType::MintGovernanceV2),
            21 => Some(GovernanceAccountType::TokenGovernanceV2),
            22 => Some(GovernanceAccountType::SignatoryRecordV2),
            23 => Some(GovernanceAccountType::ProposalDeposit),
            24 => Some(GovernanceAccountType::RequiredSignatory),
            _ => None,
        }
    }
}

/// The fraction of a mint's supply that counts as its full supply.
pub const SUPPLY_FRACTION_BASE: u64 = 10_000_000_000;

/// Where a mint's max voter weight comes from.
#[derive(Clone, Copy, Debug, PartialEq, Eq, Structural)]
pub enum MintMaxVoterWeightSource {
    /// A fraction of the mint's supply, over `SUPPLY_FRACTION_BASE`.
    SupplyFraction(u64),
    /// A fixed weight.
    Absolute(u64),
}

impl MintMaxVoterWeightSource {
    /// The whole supply of the mint.
    pub fn full_supply_fraction() -> (r: MintMaxVoterWeightSource)
        ensures
            r == MintMaxVoterWeightSource::SupplyFraction(SUPPLY_FRACTION_BASE),
    {
        MintMaxVoterWeightSource::SupplyFraction(SUPPLY_FRACTION_BASE)
    }
}

/// How a governing token is used.
#[derive(Clone, Copy, Debug, PartialEq, Eq, Structural)]
pub enum GoverningTokenType {
    /// Deposited and withdrawn by its owner at will.
    Liquid,
    /// Granted by the mint authority, which may revoke it.
    Membership,
    /// Kept out of the realm: no deposits.
    Dormant,
}

/// The stored tag of a governing token type.
pub open spec fn token_type_tag(t: GoverningTokenType) -> u8 {
    match t {
        GoverningTokenType::Liquid => 0,
        GoverningTokenType::Membership => 1,
        GoverningTokenType::Dormant => 2,
    }
}

/// Which population casts a vote.
#[derive(Clone, Copy, Debug, PartialEq, Eq, Structural)]
pub enum VoteKind {
    /// A vote of the proposal's own electorate.
    Electorate,
    /// A veto, cast by the other population.
    Veto,
}

/// Whether a config item is added or removed.
#[derive(Clone, Copy, Debug, PartialEq, Eq, Structural)]
pub enum SetConfigItemActionType {
    Add,
    Remove,
}

} // verus!
