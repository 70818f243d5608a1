//! The realm: the governance scope, its governing token mints and its policy.

use crate::codec::opt_key_view;
use crate::enums::{
    GovernanceAccountType, GoverningTokenType, MintMaxVoterWeightSource, SetConfigItemActionType,
    VoteKind, SUPPLY_FRACTION_BASE,
};
use crate::error::GovernanceError;
use crate::pubkey::{derived_address, find_program_address, seeds_view, Pubkey};
use vstd::prelude::*;

verus! {

/// Arguments that set a single realm config item.
#[derive(Clone, Copy, Debug)]
pub enum SetRealmConfigItemArgs {
    /// Adds or removes a token owner record lock authority for a mint.
    TokenOwnerRecordLockAuthority {
        action: SetConfigItemActionType,
        governing_token_mint: Pubkey,
        authority: Pubkey,
    },
}

/// Per-mint config arguments of a realm.
#[derive(Clone, Copy, Debug, PartialEq, Eq, Structural)]
pub struct GoverningTokenConfigArgs {
    /// Whether a voter weight plugin supplies the voters' weights.
    pub use_voter_weight_addin: bool,
    /// Whether a plugin supplies the max voter weight.
    pub use_max_voter_weight_addin: bool,
    /// How the token is used for governance.
    pub token_type: GoverningTokenType,
}

impl GoverningTokenConfigArgs {
    /// No plugins, liquid tokens.
    pub fn new_default() -> (r: GoverningTokenConfigArgs)
        ensures
            !r.use_voter_weight_addin,
            !r.use_max_voter_weight_addin,
            r.token_type == GoverningTokenType::Liquid,
    {
        GoverningTokenConfigArgs {
            use_voter_weight_addin: false,
            use_max_voter_weight_addin: false,
            token_type: GoverningTokenType::Liquid,
        }
    }
}

/// Per-mint config arguments that name the plugin programs.
#[derive(Clone, Copy, Debug)]
pub struct GoverningTokenConfigAccountArgs {
    pub voter_weight_addin: Option<Pubkey>,
    pub max_voter_weight_addin: Option<Pubkey>,
    pub token_type: GoverningTokenType,
}

/// Realm config arguments.
#[derive(Clone, Copy, Debug, PartialEq, Eq, Structural)]
pub struct RealmConfigArgs {
    /// Whether the realm has a council mint.
    pub use_council_mint: bool,
    /// Community weight needed to create a governance.
    pub min_community_weight_to_create_governance: u64,
    /// Where the community mint's max voter weight comes from.
    pub community_mint_max_voter_weight_source: MintMaxVoterWeightSource,
    pub community_token_config_args: GoverningTokenConfigArgs,
    pub council_token_config_args: GoverningTokenConfigArgs,
}

/// How a realm's authority is changed.
#[derive(Clone, Copy, Debug, PartialEq, Eq, Structural)]
pub enum SetRealmAuthorityAction {
    /// Sets the authority without checks.
    SetUnchecked,
    /// Sets the authority to one of the realm's governances.
    SetChecked,
    /// Removes the authority.
    Remove,
}

/// A realm's stored configuration.
#[derive(Clone, Copy, Debug)]
pub struct RealmConfig {
    pub legacy1: u8,
    pub legacy2: u8,
    pub reserved: [u8; 6],
    pub min_community_weight_to_create_governance: u64,
    pub community_mint_max_voter_weight_source: MintMaxVoterWeightSource,
    pub council_mint: Option<Pubkey>,
}

/// The realm record. A legacy realm (`RealmV1`) is read into this shape, with
/// the fields that its layout lacks at zero.
#[derive(Clone, Debug)]
pub struct RealmV2 {
    pub account_type: GovernanceAccountType,
    pub community_mint: Pubkey,
    pub config: RealmConfig,
    /// Whether the governing tokens are of the extensible token standard.
    pub is_token_2022: bool,
    pub reserved: [u8; 5],
    /// No longer used; kept for the layout.
    pub legacy1: u16,
    /// The authority that must sign config changes, if any.
    pub authority: Option<Pubkey>,
    pub name: String,
    pub reserved_v2: [u8; 128],
}

/// The model of a realm config.
pub struct RealmConfigModel {
    pub legacy1: u8,
    pub legacy2: u8,
    pub reserved: Seq<u8>,
    pub min_community_weight_to_create_governance: u64,
    pub community_mint_max_voter_weight_source: MintMaxVoterWeightSource,
    pub council_mint: Option<Seq<u8>>,
}

/// The model of a realm.
pub struct RealmModel {
    pub account_type: GovernanceAccountType,
    pub community_mint: Seq<u8>,
    pub config: RealmConfigModel,
    pub is_token_2022: bool,
    pub reserved: Seq<u8>,
    pub legacy1: u16,
    pub authority: Option<Seq<u8>>,
    pub name: Seq<char>,
    pub reserved_v2: Seq<u8>,
}

impl View for RealmConfig {
    type V = RealmConfigModel;

    open spec fn view(&self) -> RealmConfigModel {
        RealmConfigModel {
            legacy1: self.legacy1,
            legacy2: self.legacy2,
            reserved: self.reserved@,
            min_community_weight_to_create_governance: self.min_community_weight_to_create_governance,
            community_mint_max_voter_weight_source: self.community_mint_max_voter_weight_source,
            council_mint: opt_key_view(self.council_mint),
        }
    }
}

impl View for RealmV2 {
    type V = RealmModel;

    open spec fn view(&self) -> RealmModel {
        RealmModel {
            account_type: self.account_type,
            community_mint: self.community_mint@,
            config: self.config@,
            is_token_2022: self.is_token_2022,
            reserved: self.reserved@,
            legacy1: self.legacy1,
            authority: opt_key_view(self.authority),
            name: self.name@,
            reserved_v2: self.reserved_v2@,
        }
    }
}

/// Whether the mint is the realm's community or council mint.
pub open spec fn is_governing_mint(r: RealmModel, mint: Seq<u8>) -> bool {
    r.community_mint == mint || r.config.council_mint == Some(mint)
}

/// The mint whose proposal a vote of `kind` with tokens of `vote_mint` is on:
/// the vote's own mint for an electorate vote, the other registered mint for
/// a veto.
pub open spec fn proposal_mint_for_vote(r: RealmModel, vote_mint: Seq<u8>, kind: VoteKind) -> Option<
    Seq<u8>,
> {
    match kind {
        VoteKind::Electorate => Some(vote_mint),
        VoteKind::Veto => if r.community_mint == vote_mint {
            r.config.council_mint
        } else if r.config.council_mint == Some(vote_mint) {
            Some(r.community_mint)
        } else {
            None
        },
    }
}

/// The seed that opens the realm's derived addresses: "governance".
pub open spec fn authority_seed() -> Seq<u8> {
    seq![103u8, 111u8, 118u8, 101u8, 114u8, 110u8, 97u8, 110u8, 99u8, 101u8]
}

/// Builds the "governance" seed.
pub fn program_authority_seed() -> (r: Vec<u8>)
    ensures
        r@ == authority_seed(),
{
    let r: Vec<u8> = vec![103u8, 111u8, 118u8, 101u8, 114u8, 110u8, 97u8, 110u8, 99u8, 101u8];
    assert(r@ =~= authority_seed());
    r
}

/// Seeds of a realm's address: the authority seed and the name's UTF-8 bytes.
pub open spec fn realm_seeds(name: Seq<char>) -> Seq<Seq<u8>> {
    seq![authority_seed(), vstd::utf8::encode_utf8(name)]
}

/// Seeds of the holding account of a realm and mint.
pub open spec fn holding_seeds(realm: Seq<u8>, mint: Seq<u8>) -> Seq<Seq<u8>> {
    seq![authority_seed(), realm, mint]
}

/// Holding addresses are derived deterministically: the same program, realm
/// and mint give the same address; and a different realm or mint gives a
/// different list of seeds to derive from.
pub proof fn lemma_holding_derivation(
    program_id: Seq<u8>,
    realm1: Seq<u8>,
    mint1: Seq<u8>,
    realm2: Seq<u8>,
    mint2: Seq<u8>,
)
    ensures
        realm1 == realm2 && mint1 == mint2 ==> derived_address(holding_seeds(realm1, mint1), program_id)
            == derived_address(holding_seeds(realm2, mint2), program_id),
        realm1 != realm2 || mint1 != mint2 ==> holding_seeds(realm1, mint1) != holding_seeds(
            realm2,
            mint2,
        ),
{
    if holding_seeds(realm1, mint1) == holding_seeds(realm2, mint2) {
        assert(holding_seeds(realm1, mint1)[1] == realm1);
        assert(holding_seeds(realm2, mint2)[1] == realm2);
        assert(holding_seeds(realm1, mint1)[2] == mint1);
        assert(holding_seeds(realm2, mint2)[2] == mint2);
    }
}

/// Realm addresses are derived deterministically: the same program and name
/// give the same address; and a different name gives a different list of
/// seeds to derive from.
pub proof fn lemma_realm_derivation(program_id: Seq<u8>, name1: Seq<char>, name2: Seq<char>)
    ensures
        name1 == name2 ==> derived_address(realm_seeds(name1), program_id) == derived_address(
            realm_seeds(name2),
            program_id,
        ),
        name1 != name2 ==> realm_seeds(name1) != realm_seeds(name2),
{
    if realm_seeds(name1) == realm_seeds(name2) {
        assert(realm_seeds(name1)[1] == vstd::utf8::encode_utf8(name1));
        assert(realm_seeds(name2)[1] == vstd::utf8::encode_utf8(name2));
        vstd::utf8::encode_utf8_decode_utf8(name1);
        vstd::utf8::encode_utf8_decode_utf8(name2);
    }
}

/// Returns the seeds of a realm's address.
pub fn get_realm_address_seeds(name: &str) -> (r: Vec<Vec<u8>>)
    ensures
        seeds_view(r@) == realm_seeds(name@),
{
    let mut r: Vec<Vec<u8>> = Vec::new();
    r.push(program_authority_seed());
    r.push(vstd::slice::slice_to_vec(name.as_bytes()));
    assert(seeds_view(r@) =~= realm_seeds(name@));
    r
}

/// Returns the address of the realm with the given name, `None` where none can
/// be derived.
pub fn get_realm_address(program_id: &Pubkey, name: &str) -> (r: Option<Pubkey>)
    ensures
        match r {
            Some(a) => derived_address(realm_seeds(name@), program_id@) == Some(a@),
            None => derived_address(realm_seeds(name@), program_id@) is None,
        },
{
    find_program_address(&get_realm_address_seeds(name), program_id)
}

/// Returns the seeds of the holding account of a realm and mint.
pub fn get_governing_token_holding_address_seeds(realm: &Pubkey, governing_token_mint: &Pubkey) -> (r:
    Vec<Vec<u8>>)
    ensures
        seeds_view(r@) == holding_seeds(realm@, governing_token_mint@),
{
    let mut r: Vec<Vec<u8>> = Vec::new();
    r.push(program_authority_seed());
    r.push(realm.to_vec());
    r.push(governing_token_mint.to_vec());
    assert(seeds_view(r@) =~= holding_seeds(realm@, governing_token_mint@));
    r
}

/// Returns the address of the holding account of a realm and mint, `None`
/// where none can be derived.
pub fn get_governing_token_holding_address(
    program_id: &Pubkey,
    realm: &Pubkey,
    governing_token_mint: &Pubkey,
) -> (r: Option<Pubkey>)
    ensures
        match r {
            Some(a) => derived_address(holding_seeds(realm@, governing_token_mint@), program_id@)
                == Some(a@),
            None => derived_address(holding_seeds(realm@, governing_token_mint@), program_id@) is None,
        },
{
    find_program_address(&get_governing_token_holding_address_seeds(realm, governing_token_mint), program_id)
}

/// Whether the account type is a realm of any version.
pub open spec fn is_realm_type(t: GovernanceAccountType) -> bool {
    t == GovernanceAccountType::RealmV1 || t == GovernanceAccountType::RealmV2
}

/// Checks whether the account type is a realm of any version.
pub fn is_realm_account_type(account_type: &GovernanceAccountType) -> (r: bool)
    ensures
        r == is_realm_type(*account_type),
{
    match account_type {
        GovernanceAccountType::RealmV1 | GovernanceAccountType::RealmV2 => true,
        GovernanceAccountType::GovernanceV2
        | GovernanceAccountType::ProgramGovernanceV2
        | GovernanceAccountType::MintGovernanceV2
        | GovernanceAccountType::TokenGovernanceV2
        | GovernanceAccountType::Uninitialized
        | GovernanceAccountType::RealmConfig
        | GovernanceAccountType::TokenOwnerRecordV1
        | GovernanceAccountType::TokenOwnerRecordV2
        | GovernanceAccountType::GovernanceV1
        | GovernanceAccountType::ProgramGovernanceV1
        | GovernanceAccountType::MintGovernanceV1
        | GovernanceAccountType::TokenGovernanceV1
        | GovernanceAccountType::ProposalV1
        | GovernanceAccountType::ProposalV2
        | GovernanceAccountType::SignatoryRecordV1
        | GovernanceAccountType::SignatoryRecordV2
        | GovernanceAccountType::ProposalInstructionV1
        | GovernanceAccountType::ProposalTransactionV2
        | GovernanceAccountType::VoteRecordV1
        | GovernanceAccountType::VoteRecordV2
        | GovernanceAccountType::ProgramMetadata
        | GovernanceAccountType::ProposalDeposit
        | GovernanceAccountType::RequiredSignatory => false,
    }
}

/// The error, if any, of realm config arguments.
pub open spec fn config_args_error(a: RealmConfigArgs) -> Option<GovernanceError> {
    match a.community_mint_max_voter_weight_source {
        MintMaxVoterWeightSource::SupplyFraction(f) => if 1 <= f <= SUPPLY_FRACTION_BASE {
            None
        } else {
            Some(GovernanceError::InvalidMaxVoterWeightSupplyFraction)
        },
        MintMaxVoterWeightSource::Absolute(v) => if v == 0 {
            Some(GovernanceError::InvalidMaxVoterWeightAbsoluteValue)
        } else {
            None
        },
    }
}

/// Asserts that realm config arguments are correct: a supply fraction lies
/// between one and the full supply fraction, an absolute weight is not zero.
pub fn assert_valid_realm_config_args(realm_config_args: &RealmConfigArgs) -> (r: Result<
    (),
    GovernanceError,
>)
    ensures
        match config_args_error(*realm_config_args) {
            None => r is Ok,
            Some(e) => r == Err::<(), GovernanceError>(e),
        },
{
    match realm_config_args.community_mint_max_voter_weight_source {
        MintMaxVoterWeightSource::SupplyFraction(fraction) => {
            if !(1 <= fraction && fraction <= SUPPLY_FRACTION_BASE) {
                return Err(GovernanceError::InvalidMaxVoterWeightSupplyFraction);
            }
        },
        MintMaxVoterWeightSource::Absolute(value) => {
            if value == 0 {
                return Err(GovernanceError::InvalidMaxVoterWeightAbsoluteValue);
            }
        },
    }
    Ok(())
}

impl RealmV2 {
    /// Whether the record is an initialized current realm.
    pub fn is_initialized(&self) -> (r: bool)
        ensures
            r == (self.account_type == GovernanceAccountType::RealmV2),
    {
        self.account_type == GovernanceAccountType::RealmV2
    }

    /// Asserts the mint is the community or the council mint of the realm.
    pub fn assert_is_valid_governing_token_mint(&self, governing_token_mint: &Pubkey) -> (r: Result<
        (),
        GovernanceError,
    >)
        ensures
            r is Ok <==> is_governing_mint(self@, governing_token_mint@),
            r is Err ==> r == Err::<(), GovernanceError>(GovernanceError::InvalidGoverningTokenMint),
    {
        if self.community_mint == *governing_token_mint {
            return Ok(());
        }
        match self.config.council_mint {
            Some(council) => {
                if council == *governing_token_mint {
                    return Ok(());
                }
            },
            None => {},
        }
        Err(GovernanceError::InvalidGoverningTokenMint)
    }

    /// Returns the mint of the proposal that a vote is cast on: for an
    /// electorate vote the vote's own mint, for a veto the other registered
    /// mint. A veto fails where that mint is not configured.
    pub fn get_proposal_governing_token_mint_for_vote(
        &self,
        vote_governing_token_mint: &Pubkey,
        vote_kind: &VoteKind,
    ) -> (r: Result<Pubkey, GovernanceError>)
        ensures
            match proposal_mint_for_vote(self@, vote_governing_token_mint@, *vote_kind) {
                Some(m) => r matches Ok(k) && k@ == m,
                None => r == Err::<Pubkey, GovernanceError>(
                    GovernanceError::InvalidGoverningTokenMint,
                ),
            },
    {
        match vote_kind {
            VoteKind::Electorate => Ok(*vote_governing_token_mint),
            VoteKind::Veto => {
                if self.community_mint == *vote_governing_token_mint {
                    return match self.config.council_mint {
                        Some(council) => Ok(council),
                        None => Err(GovernanceError::InvalidGoverningTokenMint),
                    };
                }
                match self.config.council_mint {
                    Some(council) => {
                        if council == *vote_governing_token_mint {
                            return Ok(self.community_mint);
                        }
                    },
                    None => {},
                }
                Err(GovernanceError::InvalidGoverningTokenMint)
            },
        }
    }

    /// Asserts the mint is one of the realm's and the holding account is the
    /// one derived for the realm and that mint.
    pub fn assert_is_valid_governing_token_mint_and_holding(
        &self,
        program_id: &Pubkey,
        realm: &Pubkey,
        governing_token_mint: &Pubkey,
        governing_token_holding: &Pubkey,
    ) -> (r: Result<(), GovernanceError>)
        ensures
            r == holding_check(self@, program_id@, realm@, governing_token_mint@, governing_token_holding@),
    {
        self.assert_is_valid_governing_token_mint(governing_token_mint)?;
        match get_governing_token_holding_address(program_id, realm, governing_token_mint) {
            Some(address) => {
                if address != *governing_token_holding {
                    return Err(GovernanceError::InvalidGoverningTokenHoldingAccount);
                }
                Ok(())
            },
            None => Err(GovernanceError::AddressDerivationFailed),
        }
    }
}

/// The outcome of checking a mint and holding account against a realm.
pub open spec fn holding_check(
    r: RealmModel,
    program_id: Seq<u8>,
    realm: Seq<u8>,
    mint: Seq<u8>,
    holding: Seq<u8>,
) -> Result<(), GovernanceError> {
    if !is_governing_mint(r, mint) {
        Err(GovernanceError::InvalidGoverningTokenMint)
    } else {
        match derived_address(holding_seeds(realm, mint), program_id) {
            Some(a) => if a == holding {
                Ok(())
            } else {
                Err(GovernanceError::InvalidGoverningTokenHoldingAccount)
            },
            None => Err(GovernanceError::AddressDerivationFailed),
        }
    }
}

} // verus!
