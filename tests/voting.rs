use spl_governance::account::AccountInfo;
use spl_governance::enums::{GovernanceAccountType, MintMaxVoterWeightSource};
use spl_governance::error::GovernanceError;
use spl_governance::pubkey::{find_program_address, Pubkey};
use spl_governance::realm::{RealmConfig, RealmV2};
use spl_governance::realm_config::{
    encode_realm_config, get_realm_config_address_seeds, GoverningTokenConfig, RealmConfigAccount,
};
use spl_governance::token_owner_record::{encode_token_owner_record, TokenOwnerRecordV2};

fn key(b: u8) -> Pubkey {
    Pubkey::new_from_array([b; 32])
}

fn program_id() -> Pubkey {
    key(7)
}

fn realm() -> RealmV2 {
    RealmV2 {
        account_type: GovernanceAccountType::RealmV2,
        community_mint: key(1),
        config: RealmConfig {
            legacy1: 0,
            legacy2: 0,
            reserved: [0; 6],
            min_community_weight_to_create_governance: 10,
            community_mint_max_voter_weight_source: MintMaxVoterWeightSource::Absolute(5),
            council_mint: Some(key(2)),
        },
        is_token_2022: false,
        reserved: [0; 5],
        legacy1: 0,
        authority: Some(key(3)),
        name: "voters".to_string(),
        reserved_v2: [0; 128],
    }
}

fn record_account(mint: Pubkey, amount: u64) -> AccountInfo {
    let r = TokenOwnerRecordV2 {
        account_type: GovernanceAccountType::TokenOwnerRecordV2,
        realm: key(9),
        governing_token_mint: mint,
        governing_token_owner: key(31),
        governing_token_deposit_amount: amount,
        unrelinquished_votes_count: 0,
        outstanding_proposal_count: 0,
        version: 1,
        reserved: [0; 6],
        governance_delegate: Some(key(32)),
        reserved_v2: [0; 124],
        locks: vec![],
    };
    AccountInfo { key: key(60), owner: program_id(), is_signer: false, data: encode_token_owner_record(&r) }
}

fn signer(k: Pubkey, signed: bool) -> AccountInfo {
    AccountInfo { key: k, owner: key(0), is_signer: signed, data: vec![] }
}

fn empty_config() -> AccountInfo {
    let k = find_program_address(&get_realm_config_address_seeds(&key(9)), &program_id()).unwrap();
    AccountInfo { key: k, owner: key(0), is_signer: false, data: vec![] }
}

#[test]
fn realm_authority_creates_governance_when_signed() {
    let r = realm();
    let rec = record_account(key(1), 0);
    let ok = r.assert_create_authority_can_create_governance(&program_id(), &key(9), &rec, &signer(key(3), true), &empty_config(), None);
    assert_eq!(ok, Ok(()));
    let unsigned = r.assert_create_authority_can_create_governance(&program_id(), &key(9), &rec, &signer(key(3), false), &empty_config(), None);
    assert_eq!(unsigned, Err(GovernanceError::RealmAuthorityMustSign));
}

#[test]
fn owner_needs_minimum_community_weight() {
    let r = realm();
    let enough = r.assert_create_authority_can_create_governance(&program_id(), &key(9), &record_account(key(1), 10), &signer(key(31), true), &empty_config(), None);
    assert_eq!(enough, Ok(()));
    let short = r.assert_create_authority_can_create_governance(&program_id(), &key(9), &record_account(key(1), 9), &signer(key(31), true), &empty_config(), None);
    assert_eq!(short, Err(GovernanceError::NotEnoughTokensToCreateGovernance));
    let delegate = r.assert_create_authority_can_create_governance(&program_id(), &key(9), &record_account(key(2), 1), &signer(key(32), true), &empty_config(), None);
    assert_eq!(delegate, Ok(()));
    let council_empty = r.assert_create_authority_can_create_governance(&program_id(), &key(9), &record_account(key(2), 0), &signer(key(31), true), &empty_config(), None);
    assert_eq!(council_empty, Err(GovernanceError::NotEnoughTokensToCreateGovernance));
}

#[test]
fn stranger_cannot_create_governance() {
    let r = realm();
    let res = r.assert_create_authority_can_create_governance(&program_id(), &key(9), &record_account(key(1), 100), &signer(key(77), true), &empty_config(), None);
    assert_eq!(res, Err(GovernanceError::GoverningTokenOwnerOrDelegateMustSign));
    let unsigned_owner = r.assert_create_authority_can_create_governance(&program_id(), &key(9), &record_account(key(1), 100), &signer(key(31), false), &empty_config(), None);
    assert_eq!(unsigned_owner, Err(GovernanceError::GoverningTokenOwnerOrDelegateMustSign));
}

#[test]
fn plugin_weight_overrides_deposit() {
    let r = realm();
    let mut community = GoverningTokenConfig::new_default();
    community.voter_weight_addin = Some(key(80));
    let c = RealmConfigAccount {
        realm: key(9),
        community_token_config: community,
        council_token_config: GoverningTokenConfig::new_default(),
        reserved: [0; 110],
    };
    let mut config = empty_config();
    config.owner = program_id();
    config.data = encode_realm_config(&c);
    let rec = record_account(key(1), 0);
    let with_plugin = r.assert_create_authority_can_create_governance(&program_id(), &key(9), &rec, &signer(key(31), true), &config, Some(50));
    assert_eq!(with_plugin, Ok(()));
    let missing = r.assert_create_authority_can_create_governance(&program_id(), &key(9), &rec, &signer(key(31), true), &config, None);
    assert_eq!(missing, Err(GovernanceError::MissingVoterWeightRecord));
    let low = r.assert_create_authority_can_create_governance(&program_id(), &key(9), &record_account(key(1), 1000), &signer(key(31), true), &config, Some(3));
    assert_eq!(low, Err(GovernanceError::NotEnoughTokensToCreateGovernance));
}

#[test]
fn record_of_other_realm_is_refused() {
    let r = realm();
    let res = r.assert_create_authority_can_create_governance(&program_id(), &key(10), &record_account(key(1), 100), &signer(key(31), true), &empty_config(), None);
    assert_eq!(res, Err(GovernanceError::InvalidRealmForTokenOwnerRecord));
}
