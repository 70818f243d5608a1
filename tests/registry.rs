use spl_governance::account::AccountInfo;
use spl_governance::codec::write_string;
use spl_governance::custody::{CustodyAction, TokenType};
use spl_governance::enums::{
    GovernanceAccountType, GoverningTokenType, MintMaxVoterWeightSource, VoteKind,
    SUPPLY_FRACTION_BASE,
};
use spl_governance::error::GovernanceError;
use spl_governance::pubkey::{find_program_address, Pubkey};
use spl_governance::realm::{
    assert_valid_realm_config_args, get_governing_token_holding_address,
    get_governing_token_holding_address_seeds, get_realm_address, get_realm_address_seeds,
    is_realm_account_type, GoverningTokenConfigArgs, RealmConfig, RealmConfigArgs, RealmV2,
};
use spl_governance::realm_config::{
    decode_realm_config, encode_realm_config, get_realm_config_address_seeds, GoverningTokenConfig,
    RealmConfigAccount,
};
use spl_governance::realm_layout::{
    assert_is_valid_realm, decode_realm, encode_realm, get_realm_data, get_realm_data_for_authority,
    get_realm_data_for_governing_token_mint,
};
use spl_governance::token_owner_record::{
    decode_token_owner_record, encode_token_owner_record, get_token_owner_record_address,
    TokenOwnerRecordLock, TokenOwnerRecordV2,
};

fn key(b: u8) -> Pubkey {
    Pubkey::new_from_array([b; 32])
}

fn program_id() -> Pubkey {
    key(7)
}

fn realm(kind: GovernanceAccountType, council: Option<Pubkey>, authority: Option<Pubkey>) -> RealmV2 {
    RealmV2 {
        account_type: kind,
        community_mint: key(1),
        config: RealmConfig {
            legacy1: 0,
            legacy2: 0,
            reserved: [0; 6],
            min_community_weight_to_create_governance: 10,
            community_mint_max_voter_weight_source: MintMaxVoterWeightSource::SupplyFraction(
                SUPPLY_FRACTION_BASE,
            ),
            council_mint: council,
        },
        is_token_2022: false,
        reserved: [0; 5],
        legacy1: 0,
        authority,
        name: "test-realm".to_string(),
        reserved_v2: [0; 128],
    }
}

fn realm_account(data: Vec<u8>) -> AccountInfo {
    AccountInfo { key: key(9), owner: program_id(), is_signer: false, data }
}

fn record(kind: GovernanceAccountType, amount: u64) -> TokenOwnerRecordV2 {
    TokenOwnerRecordV2 {
        account_type: kind,
        realm: key(9),
        governing_token_mint: key(1),
        governing_token_owner: key(31),
        governing_token_deposit_amount: amount,
        unrelinquished_votes_count: 2,
        outstanding_proposal_count: 1,
        version: 1,
        reserved: [0; 6],
        governance_delegate: Some(key(32)),
        reserved_v2: [0; 124],
        locks: vec![],
    }
}

#[test]
fn holding_address_is_the_program_address_of_its_seeds() {
    let realm = key(9);
    let mint = key(1);
    let ours = get_governing_token_holding_address(&program_id(), &realm, &mint).unwrap();
    let theirs = solana_program::pubkey::Pubkey::find_program_address(
        &[b"governance", &realm.bytes, &mint.bytes],
        &solana_program::pubkey::Pubkey::new_from_array(program_id().bytes),
    );
    assert_eq!(ours.bytes, theirs.0.to_bytes());
    assert_ne!(ours, realm);
    assert_ne!(ours, mint);
}

#[test]
fn realm_address_is_the_program_address_of_its_name() {
    let ours = get_realm_address(&program_id(), "test-realm").unwrap();
    let theirs = solana_program::pubkey::Pubkey::find_program_address(
        &[b"governance", b"test-realm"],
        &solana_program::pubkey::Pubkey::new_from_array(program_id().bytes),
    );
    assert_eq!(ours.bytes, theirs.0.to_bytes());
    assert_ne!(get_realm_address(&program_id(), "test-realm2").unwrap(), ours);
    assert_eq!(get_realm_address(&program_id(), "test-realm").unwrap(), ours);
    assert_ne!(get_realm_address_seeds("test-realm"), get_realm_address_seeds("test-realn"));
    let seeds = get_realm_address_seeds("test-realm");
    assert_eq!(seeds, vec![b"governance".to_vec(), b"test-realm".to_vec()]);
}

#[test]
fn derivation_is_deterministic_and_input_sensitive() {
    let a = get_governing_token_holding_address(&program_id(), &key(9), &key(1)).unwrap();
    let b = get_governing_token_holding_address(&program_id(), &key(9), &key(1)).unwrap();
    let c = get_governing_token_holding_address(&program_id(), &key(9), &key(2)).unwrap();
    let d = get_governing_token_holding_address(&program_id(), &key(10), &key(1)).unwrap();
    let e = get_governing_token_holding_address(&key(8), &key(9), &key(1)).unwrap();
    assert_eq!(a, b);
    assert_ne!(a, c);
    assert_ne!(a, d);
    assert_ne!(a, e);
    let r1 = get_token_owner_record_address(&program_id(), &key(9), &key(1), &key(31)).unwrap();
    let r2 = get_token_owner_record_address(&program_id(), &key(9), &key(1), &key(32)).unwrap();
    assert_ne!(r1, r2);
    assert_ne!(
        get_governing_token_holding_address_seeds(&key(9), &key(1)),
        get_governing_token_holding_address_seeds(&key(9), &key(2))
    );
}

#[test]
fn realm_layout_matches_borsh() {
    let r = realm(GovernanceAccountType::RealmV2, Some(key(2)), Some(key(3)));
    let config = (0u8, 0u8, [0u8; 6], 10u64, 0u8, SUPPLY_FRACTION_BASE, Some([2u8; 32]));
    let expected = borsh::to_vec(&(
        16u8,
        [1u8; 32],
        config,
        false,
        [0u8; 5],
        0u16,
        Some([3u8; 32]),
        "test-realm".to_string(),
        [0u8; 128],
    ))
    .unwrap();
    assert_eq!(encode_realm(&r), expected);
}

#[test]
fn record_layout_matches_borsh() {
    let mut r = record(GovernanceAccountType::TokenOwnerRecordV2, 500);
    r.locks.push(TokenOwnerRecordLock { lock_id: 4, authority: key(40), expiry: Some(-5) });
    let head = (17u8, [9u8; 32], [1u8; 32], [31u8; 32], 500u64, 2u64, 1u8, 1u8, [0u8; 6]);
    let tail = (Some([32u8; 32]), [0u8; 124], vec![(4u8, [40u8; 32], Some(-5i64))]);
    let mut expected = borsh::to_vec(&head).unwrap();
    expected.extend(borsh::to_vec(&tail).unwrap());
    let bytes = encode_token_owner_record(&r);
    assert_eq!(bytes, expected);
    let back = decode_token_owner_record(&bytes).unwrap();
    assert_eq!(back.locks.len(), 1);
    assert_eq!(back.locks[0].expiry, Some(-5));
    assert_eq!(back.governance_delegate, Some(key(32)));
}

#[test]
fn legacy_realm_loads_with_defaults_and_stores_identically() {
    let legacy = realm(GovernanceAccountType::RealmV1, None, Some(key(3)));
    let mut data = encode_realm(&legacy);
    let legacy_len = data.len();
    data.extend(vec![0u8; 20]);
    let info = realm_account(data.clone());
    let loaded = get_realm_data(&program_id(), &info).unwrap();
    assert_eq!(loaded.account_type, GovernanceAccountType::RealmV1);
    assert!(!loaded.is_token_2022);
    assert_eq!(loaded.legacy1, 0);
    assert_eq!(loaded.reserved_v2, [0u8; 128]);
    assert_eq!(loaded.name, "test-realm");
    let mut stored = data.clone();
    loaded.serialize(&mut stored).unwrap();
    assert_eq!(stored, data);
    assert_eq!(encode_realm(&get_realm_data(&program_id(), &info).unwrap()).len(), legacy_len);
}

#[test]
fn current_realm_loads_and_stores_identically() {
    let r = realm(GovernanceAccountType::RealmV2, Some(key(2)), None);
    let data = encode_realm(&r);
    let loaded = get_realm_data(&program_id(), &realm_account(data.clone())).unwrap();
    assert_eq!(loaded.config.council_mint, Some(key(2)));
    let mut stored = vec![0u8; data.len()];
    loaded.serialize(&mut stored).unwrap();
    assert_eq!(stored, data);
}

#[test]
fn legacy_realm_with_extended_data_is_not_stored() {
    let mut r = realm(GovernanceAccountType::RealmV1, None, None);
    r.reserved_v2[3] = 1;
    let mut data = vec![0u8; 400];
    assert_eq!(r.serialize(&mut data), Err(GovernanceError::ExtendedDataNotSupported));
    assert_eq!(data, vec![0u8; 400]);
}

// The flag's place follows the tag, the mint and the config; the counter
// follows it and five reserved bytes.
const FLAG_AT: usize = 1 + 32 + (1 + 1 + 6 + 8 + 9 + 1);
const COUNTER_AT: usize = FLAG_AT + 1 + 5;

#[test]
fn legacy_realm_keeps_its_counter() {
    let legacy = realm(GovernanceAccountType::RealmV1, None, None);
    let mut data = encode_realm(&legacy);
    data[COUNTER_AT] = 3;
    data.extend(vec![0u8; 16]);
    let loaded = get_realm_data(&program_id(), &realm_account(data.clone())).unwrap();
    assert_eq!(loaded.account_type, GovernanceAccountType::RealmV1);
    assert!(!loaded.is_token_2022);
    assert_eq!(loaded.legacy1, 3);
    assert_eq!(loaded.reserved_v2, [0u8; 128]);
    let mut stored = data.clone();
    loaded.serialize(&mut stored).unwrap();
    assert_eq!(stored, data);
}

#[test]
fn legacy_realm_with_set_flag_byte_is_refused() {
    let legacy = realm(GovernanceAccountType::RealmV1, None, None);
    let mut data = encode_realm(&legacy);
    data[FLAG_AT] = 1;
    assert!(decode_realm(&data).is_none());
    let res = get_realm_data(&program_id(), &realm_account(data));
    assert_eq!(res.err(), Some(GovernanceError::InvalidAccountData));
}

#[test]
fn legacy_realm_of_extensible_tokens_is_not_stored() {
    let mut r = realm(GovernanceAccountType::RealmV1, None, None);
    r.is_token_2022 = true;
    let mut data = vec![0u8; 400];
    assert_eq!(r.serialize(&mut data), Err(GovernanceError::ExtendedDataNotSupported));
    assert_eq!(data, vec![0u8; 400]);
}

#[test]
fn realm_is_not_stored_in_too_small_account() {
    let r = realm(GovernanceAccountType::RealmV2, None, None);
    let mut data = vec![0u8; 10];
    assert_eq!(r.serialize(&mut data), Err(GovernanceError::AccountDataTooSmall));
}

#[test]
fn realm_with_invalid_name_is_refused() {
    let r = realm(GovernanceAccountType::RealmV2, None, None);
    let mut data = encode_realm(&r);
    // The name starts after the fixed fields and its four-byte length.
    let name_at = data.len() - 128 - 10;
    data[name_at] = 0xff;
    assert!(decode_realm(&data).is_none());
    let res = get_realm_data(&program_id(), &realm_account(data));
    assert_eq!(res.err(), Some(GovernanceError::InvalidAccountData));
}

#[test]
fn realm_name_is_read_back() {
    let mut r = realm(GovernanceAccountType::RealmV2, None, None);
    r.name = "Réalm ✓".to_string();
    let back = decode_realm(&encode_realm(&r)).unwrap();
    assert_eq!(back.name, "Réalm ✓");
    let mut out = vec![];
    write_string(&mut out, &r.name);
    assert_eq!(&out[..4], &(r.name.len() as u32).to_le_bytes());
}

#[test]
fn realm_account_checks() {
    let r = realm(GovernanceAccountType::RealmV2, None, None);
    let info = realm_account(encode_realm(&r));
    assert_eq!(assert_is_valid_realm(&program_id(), &info), Ok(()));
    let mut foreign = info.clone();
    foreign.owner = key(8);
    assert_eq!(assert_is_valid_realm(&program_id(), &foreign), Err(GovernanceError::InvalidAccountOwner));
    assert_eq!(get_realm_data(&program_id(), &foreign).err(), Some(GovernanceError::InvalidAccountOwner));
    let mut record_tagged = info.clone();
    record_tagged.data[0] = 17;
    assert_eq!(assert_is_valid_realm(&program_id(), &record_tagged), Err(GovernanceError::InvalidAccountType));
    assert_eq!(get_realm_data(&program_id(), &record_tagged).err(), Some(GovernanceError::InvalidAccountType));
    let mut unknown = info.clone();
    unknown.data[0] = 200;
    assert_eq!(assert_is_valid_realm(&program_id(), &unknown), Err(GovernanceError::InvalidAccountData));
}

#[test]
fn realm_for_authority() {
    let with = realm_account(encode_realm(&realm(GovernanceAccountType::RealmV2, None, Some(key(3)))));
    let without = realm_account(encode_realm(&realm(GovernanceAccountType::RealmV2, None, None)));
    assert!(get_realm_data_for_authority(&program_id(), &with, &key(3)).is_ok());
    assert_eq!(
        get_realm_data_for_authority(&program_id(), &with, &key(4)).err(),
        Some(GovernanceError::InvalidAuthorityForRealm)
    );
    assert_eq!(
        get_realm_data_for_authority(&program_id(), &without, &key(3)).err(),
        Some(GovernanceError::RealmHasNoAuthority)
    );
}

#[test]
fn realm_for_governing_mint() {
    let info = realm_account(encode_realm(&realm(GovernanceAccountType::RealmV2, Some(key(2)), None)));
    assert!(get_realm_data_for_governing_token_mint(&program_id(), &info, &key(1)).is_ok());
    assert!(get_realm_data_for_governing_token_mint(&program_id(), &info, &key(2)).is_ok());
    assert_eq!(
        get_realm_data_for_governing_token_mint(&program_id(), &info, &key(5)).err(),
        Some(GovernanceError::InvalidGoverningTokenMint)
    );
}

#[test]
fn vote_mint_resolution() {
    let r = realm(GovernanceAccountType::RealmV2, Some(key(2)), None);
    assert_eq!(r.get_proposal_governing_token_mint_for_vote(&key(5), &VoteKind::Electorate), Ok(key(5)));
    assert_eq!(r.get_proposal_governing_token_mint_for_vote(&key(1), &VoteKind::Veto), Ok(key(2)));
    assert_eq!(r.get_proposal_governing_token_mint_for_vote(&key(2), &VoteKind::Veto), Ok(key(1)));
    assert_eq!(
        r.get_proposal_governing_token_mint_for_vote(&key(5), &VoteKind::Veto),
        Err(GovernanceError::InvalidGoverningTokenMint)
    );
    let no_council = realm(GovernanceAccountType::RealmV2, None, None);
    assert_eq!(
        no_council.get_proposal_governing_token_mint_for_vote(&key(1), &VoteKind::Veto),
        Err(GovernanceError::InvalidGoverningTokenMint)
    );
}

#[test]
fn mint_and_holding_validation() {
    let r = realm(GovernanceAccountType::RealmV2, Some(key(2)), None);
    let holding = get_governing_token_holding_address(&program_id(), &key(9), &key(2)).unwrap();
    assert_eq!(r.assert_is_valid_governing_token_mint_and_holding(&program_id(), &key(9), &key(2), &holding), Ok(()));
    assert_eq!(
        r.assert_is_valid_governing_token_mint_and_holding(&program_id(), &key(9), &key(1), &holding),
        Err(GovernanceError::InvalidGoverningTokenHoldingAccount)
    );
    assert_eq!(
        r.assert_is_valid_governing_token_mint_and_holding(&program_id(), &key(9), &key(6), &holding),
        Err(GovernanceError::InvalidGoverningTokenMint)
    );
}

fn config_args(source: MintMaxVoterWeightSource) -> RealmConfigArgs {
    RealmConfigArgs {
        use_council_mint: true,
        min_community_weight_to_create_governance: 100,
        community_mint_max_voter_weight_source: source,
        community_token_config_args: GoverningTokenConfigArgs::new_default(),
        council_token_config_args: GoverningTokenConfigArgs::new_default(),
    }
}

#[test]
fn realm_config_args_validation() {
    assert_eq!(assert_valid_realm_config_args(&config_args(MintMaxVoterWeightSource::SupplyFraction(1))), Ok(()));
    assert_eq!(
        assert_valid_realm_config_args(&config_args(MintMaxVoterWeightSource::full_supply_fraction())),
        Ok(())
    );
    assert_eq!(
        assert_valid_realm_config_args(&config_args(MintMaxVoterWeightSource::SupplyFraction(0))),
        Err(GovernanceError::InvalidMaxVoterWeightSupplyFraction)
    );
    assert_eq!(
        assert_valid_realm_config_args(&config_args(MintMaxVoterWeightSource::SupplyFraction(SUPPLY_FRACTION_BASE + 1))),
        Err(GovernanceError::InvalidMaxVoterWeightSupplyFraction)
    );
    assert_eq!(
        assert_valid_realm_config_args(&config_args(MintMaxVoterWeightSource::Absolute(0))),
        Err(GovernanceError::InvalidMaxVoterWeightAbsoluteValue)
    );
    assert_eq!(assert_valid_realm_config_args(&config_args(MintMaxVoterWeightSource::Absolute(1))), Ok(()));
}

#[test]
fn realm_account_types() {
    assert!(is_realm_account_type(&GovernanceAccountType::RealmV1));
    assert!(is_realm_account_type(&GovernanceAccountType::RealmV2));
    assert!(!is_realm_account_type(&GovernanceAccountType::TokenOwnerRecordV2));
    assert!(!is_realm_account_type(&GovernanceAccountType::RealmConfig));
    assert!(!is_realm_account_type(&GovernanceAccountType::Uninitialized));
    assert_eq!(GovernanceAccountType::from_tag(16), Some(GovernanceAccountType::RealmV2));
    assert_eq!(GovernanceAccountType::RequiredSignatory.to_tag(), 24);
    assert_eq!(GovernanceAccountType::from_tag(25), None);
}

#[test]
fn legacy_record_stores_in_legacy_layout() {
    let r = record(GovernanceAccountType::TokenOwnerRecordV1, 9);
    let data = encode_token_owner_record(&r);
    assert_eq!(data.len(), 1 + 32 * 3 + 8 + 8 + 1 + 1 + 6 + 33);
    let back = decode_token_owner_record(&data).unwrap();
    assert_eq!(back.account_type, GovernanceAccountType::TokenOwnerRecordV1);
    assert!(back.locks.is_empty());
    let mut stored = data.clone();
    back.serialize(&mut stored).unwrap();
    assert_eq!(stored, data);
    let mut locked = back.clone();
    locked.locks.push(TokenOwnerRecordLock { lock_id: 1, authority: key(40), expiry: None });
    assert_eq!(locked.serialize(&mut stored), Err(GovernanceError::ExtendedDataNotSupported));
}

#[test]
fn realm_config_round_trip() {
    let mut council = GoverningTokenConfig::new_default();
    council.token_type = GoverningTokenType::Membership;
    council.voter_weight_addin = Some(key(70));
    council.lock_authorities = vec![key(71), key(72)];
    let c = RealmConfigAccount {
        realm: key(9),
        community_token_config: GoverningTokenConfig::new_default(),
        council_token_config: council,
        reserved: [0; 110],
    };
    let back = decode_realm_config(&encode_realm_config(&c)).unwrap();
    assert_eq!(back.council_token_config.token_type, GoverningTokenType::Membership);
    assert_eq!(back.council_token_config.lock_authorities, vec![key(71), key(72)]);
    assert_eq!(back.council_token_config.voter_weight_addin, Some(key(70)));
    assert_eq!(back.realm, key(9));
    let config_key = find_program_address(&get_realm_config_address_seeds(&key(9)), &program_id()).unwrap();
    let theirs = solana_program::pubkey::Pubkey::find_program_address(
        &[b"realm-config", &[9u8; 32]],
        &solana_program::pubkey::Pubkey::new_from_array(program_id().bytes),
    );
    assert_eq!(config_key.bytes, theirs.0.to_bytes());
}

#[test]
fn custody_instruction_bytes() {
    let t = CustodyAction::Transfer {
        token_type: TokenType::SPL,
        source: key(1),
        destination: key(2),
        authority: key(3),
        amount: 258,
    };
    assert_eq!(t.instruction_data(), vec![3, 2, 1, 0, 0, 0, 0, 0, 0]);
    let b = CustodyAction::Burn {
        token_type: TokenType::Token2022,
        account: key(1),
        mint: key(2),
        authority: key(3),
        signer_seeds: vec![],
        amount: 1,
    };
    assert_eq!(b.instruction_data(), vec![8, 1, 0, 0, 0, 0, 0, 0, 0]);
}
