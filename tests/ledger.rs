use spl_governance::account::AccountInfo;
use spl_governance::custody::{CustodyAction, TokenType, SPL_TOKEN_PROGRAM_ID, TOKEN_2022_PROGRAM_ID};
use spl_governance::deposit::process_deposit_governing_tokens;
use spl_governance::enums::{GovernanceAccountType, GoverningTokenType, MintMaxVoterWeightSource};
use spl_governance::error::GovernanceError;
use spl_governance::pubkey::{find_program_address, Pubkey};
use spl_governance::realm::{
    get_governing_token_holding_address, get_realm_address, RealmConfig, RealmV2,
};
use spl_governance::realm_config::{
    encode_realm_config, get_realm_config_address_seeds, GoverningTokenConfig, RealmConfigAccount,
};
use spl_governance::realm_layout::encode_realm;
use spl_governance::revoke::process_revoke_governing_tokens;
use spl_governance::token_owner_record::{
    decode_token_owner_record, get_token_owner_record_address, TokenOwnerRecordV2,
};

fn key(b: u8) -> Pubkey {
    Pubkey::new_from_array([b; 32])
}

fn program_id() -> Pubkey {
    key(7)
}

fn token_program(t: TokenType) -> Pubkey {
    match t {
        TokenType::SPL => Pubkey::new_from_array(SPL_TOKEN_PROGRAM_ID),
        TokenType::Token2022 => Pubkey::new_from_array(TOKEN_2022_PROGRAM_ID),
    }
}

fn account(k: Pubkey, owner: Pubkey, is_signer: bool, data: Vec<u8>) -> AccountInfo {
    AccountInfo { key: k, owner, is_signer, data }
}

fn token_account_data(mint: &Pubkey, owner: &Pubkey, amount: u64) -> Vec<u8> {
    let mut d = vec![0u8; 165];
    d[0..32].copy_from_slice(&mint.bytes);
    d[32..64].copy_from_slice(&owner.bytes);
    d[64..72].copy_from_slice(&amount.to_le_bytes());
    d[108] = 1;
    d
}

fn mint_data(authority: Option<&Pubkey>) -> Vec<u8> {
    let mut d = vec![0u8; 82];
    if let Some(a) = authority {
        d[0] = 1;
        d[4..36].copy_from_slice(&a.bytes);
    }
    d[44] = 6;
    d[45] = 1;
    d
}

struct Setup {
    realm: Pubkey,
    realm_data: Vec<u8>,
    mint: Pubkey,
    holding: Pubkey,
    config_key: Pubkey,
    config_data: Vec<u8>,
    mint_authority: Pubkey,
}

fn realm_v2(name: &str, mint: Pubkey, council: Option<Pubkey>, authority: Option<Pubkey>) -> RealmV2 {
    RealmV2 {
        account_type: GovernanceAccountType::RealmV2,
        community_mint: mint,
        config: RealmConfig {
            legacy1: 0,
            legacy2: 0,
            reserved: [0; 6],
            min_community_weight_to_create_governance: 10,
            community_mint_max_voter_weight_source: MintMaxVoterWeightSource::Absolute(100),
            council_mint: council,
        },
        is_token_2022: false,
        reserved: [0; 5],
        legacy1: 0,
        authority,
        name: name.to_string(),
        reserved_v2: [0; 128],
    }
}

fn setup(community_type: GoverningTokenType) -> Setup {
    let name = "Realm #1";
    let realm = get_realm_address(&program_id(), name).unwrap();
    let mint = key(11);
    let holding = get_governing_token_holding_address(&program_id(), &realm, &mint).unwrap();
    let config_key =
        find_program_address(&get_realm_config_address_seeds(&realm), &program_id()).unwrap();
    let mut community = GoverningTokenConfig::new_default();
    community.token_type = community_type;
    let config = RealmConfigAccount {
        realm,
        community_token_config: community,
        council_token_config: GoverningTokenConfig::new_default(),
        reserved: [0; 110],
    };
    Setup {
        realm,
        realm_data: encode_realm(&realm_v2(name, mint, None, None)),
        mint,
        holding,
        config_key,
        config_data: encode_realm_config(&config),
        mint_authority: key(41),
    }
}

fn record_key(s: &Setup, owner: &Pubkey) -> Pubkey {
    get_token_owner_record_address(&program_id(), &s.realm, &s.mint, owner).unwrap()
}

fn deposit_accounts(
    s: &Setup,
    t: TokenType,
    source: AccountInfo,
    owner: &Pubkey,
    owner_signed: bool,
    record_data: Vec<u8>,
) -> Vec<AccountInfo> {
    let record_owner = if record_data.is_empty() { key(0) } else { program_id() };
    vec![
        account(s.realm, program_id(), false, s.realm_data.clone()),
        account(s.holding, token_program(t), false, token_account_data(&s.mint, &s.realm, 0)),
        source,
        account(*owner, key(0), owner_signed, vec![]),
        account(*owner, key(0), owner_signed, vec![]),
        account(record_key(s, owner), record_owner, false, record_data),
        account(key(51), key(0), true, vec![]),
        account(key(0), key(0), false, vec![]),
        account(token_program(t), key(0), false, vec![]),
        account(s.config_key, program_id(), false, s.config_data.clone()),
    ]
}

fn token_source(s: &Setup, t: TokenType, owner: &Pubkey) -> AccountInfo {
    account(key(21), token_program(t), false, token_account_data(&s.mint, owner, 1_000))
}

fn revoke_accounts(
    s: &Setup,
    t: TokenType,
    owner: &Pubkey,
    record_data: Vec<u8>,
    authority: Pubkey,
    authority_signed: bool,
) -> Vec<AccountInfo> {
    vec![
        account(s.realm, program_id(), false, s.realm_data.clone()),
        account(s.holding, token_program(t), false, token_account_data(&s.mint, &s.realm, 0)),
        account(record_key(s, owner), program_id(), false, record_data),
        account(s.mint, token_program(t), false, mint_data(Some(&s.mint_authority))),
        account(authority, key(0), authority_signed, vec![]),
        account(s.config_key, program_id(), false, s.config_data.clone()),
        account(token_program(t), key(0), false, vec![]),
    ]
}

fn holding_change(a: &CustodyAction, holding: &Pubkey) -> i128 {
    match a {
        CustodyAction::Transfer { destination, amount, .. } if destination == holding => *amount as i128,
        CustodyAction::MintTo { destination, amount, .. } if destination == holding => *amount as i128,
        CustodyAction::Burn { account, amount, .. } if account == holding => -(*amount as i128),
        _ => 0,
    }
}

fn deposit_amount_of(data: &[u8]) -> u64 {
    decode_token_owner_record(data).unwrap().governing_token_deposit_amount
}

#[test]
fn fresh_deposit_creates_record_with_amount() {
    for t in [TokenType::SPL, TokenType::Token2022] {
        let s = setup(GoverningTokenType::Liquid);
        let owner = key(31);
        let accs = deposit_accounts(&s, t, token_source(&s, t, &owner), &owner, true, vec![]);
        let o = process_deposit_governing_tokens(&program_id(), &accs, 70, t).unwrap();
        assert!(o.created);
        assert_eq!(o.token_owner_record.governing_token_deposit_amount, 70);
        assert_eq!(holding_change(&o.custody, &s.holding), 70);
        let r: TokenOwnerRecordV2 = decode_token_owner_record(&o.record_data).unwrap();
        assert_eq!(r.governing_token_owner, owner);
        assert_eq!(r.realm, s.realm);
        assert_eq!(r.governing_token_mint, s.mint);
        assert_eq!(r.unrelinquished_votes_count, 0);
        assert_eq!(r.outstanding_proposal_count, 0);
        assert!(r.governance_delegate.is_none());
        assert!(r.locks.is_empty());
    }
}

#[test]
fn fresh_deposit_requires_owner_signature() {
    let s = setup(GoverningTokenType::Liquid);
    let owner = key(31);
    let t = TokenType::SPL;
    let accs = deposit_accounts(&s, t, token_source(&s, t, &owner), &owner, false, vec![]);
    let r = process_deposit_governing_tokens(&program_id(), &accs, 70, t);
    assert_eq!(r.err(), Some(GovernanceError::GoverningTokenOwnerMustSign));
}

#[test]
fn top_up_adds_without_owner_signature() {
    let s = setup(GoverningTokenType::Liquid);
    let owner = key(31);
    let t = TokenType::SPL;
    let accs = deposit_accounts(&s, t, token_source(&s, t, &owner), &owner, true, vec![]);
    let first = process_deposit_governing_tokens(&program_id(), &accs, 40, t).unwrap();
    let accs = deposit_accounts(&s, t, token_source(&s, t, &owner), &owner, false, first.record_data);
    let second = process_deposit_governing_tokens(&program_id(), &accs, 25, t).unwrap();
    assert!(!second.created);
    assert_eq!(second.token_owner_record.governing_token_deposit_amount, 65);
    assert_eq!(deposit_amount_of(&second.record_data), 65);
    assert_eq!(holding_change(&second.custody, &s.holding), 25);
}

#[test]
fn top_up_overflow_is_refused() {
    let s = setup(GoverningTokenType::Liquid);
    let owner = key(31);
    let t = TokenType::SPL;
    let accs = deposit_accounts(&s, t, token_source(&s, t, &owner), &owner, true, vec![]);
    let first = process_deposit_governing_tokens(&program_id(), &accs, u64::MAX, t).unwrap();
    let accs = deposit_accounts(&s, t, token_source(&s, t, &owner), &owner, true, first.record_data);
    let r = process_deposit_governing_tokens(&program_id(), &accs, 1, t);
    assert_eq!(r.err(), Some(GovernanceError::DepositAmountOverflow));
}

#[test]
fn deposit_from_mint_mints_into_holding() {
    let s = setup(GoverningTokenType::Liquid);
    let owner = key(31);
    let t = TokenType::SPL;
    let source = account(s.mint, token_program(t), false, mint_data(Some(&owner)));
    let accs = deposit_accounts(&s, t, source, &owner, true, vec![]);
    let o = process_deposit_governing_tokens(&program_id(), &accs, 5, t).unwrap();
    match o.custody {
        CustodyAction::MintTo { mint, destination, amount, .. } => {
            assert_eq!(mint, s.mint);
            assert_eq!(destination, s.holding);
            assert_eq!(amount, 5);
        }
        _ => panic!("expected a mint"),
    }
}

#[test]
fn deposit_from_invalid_source_is_refused_for_both_standards() {
    for t in [TokenType::SPL, TokenType::Token2022] {
        let s = setup(GoverningTokenType::Liquid);
        let owner = key(31);
        // a token account of another mint
        let wrong_mint = account(key(22), token_program(t), false, token_account_data(&key(99), &owner, 10));
        // an account of another program
        let foreign = account(key(23), key(5), false, token_account_data(&s.mint, &owner, 10));
        // a mint that is not the governing mint
        let other_mint = account(key(24), token_program(t), false, mint_data(Some(&owner)));
        for source in [wrong_mint, foreign, other_mint] {
            let accs = deposit_accounts(&s, t, source, &owner, true, vec![]);
            let r = process_deposit_governing_tokens(&program_id(), &accs, 5, t);
            assert_eq!(r.err(), Some(GovernanceError::InvalidGoverningTokenSource));
        }
    }
}

#[test]
fn deposit_from_holding_itself_is_refused() {
    let s = setup(GoverningTokenType::Liquid);
    let owner = key(31);
    let t = TokenType::SPL;
    let holding = account(s.holding, token_program(t), false, token_account_data(&s.mint, &s.realm, 500));
    let accs = deposit_accounts(&s, t, holding, &owner, true, vec![]);
    let r = process_deposit_governing_tokens(&program_id(), &accs, 5, t);
    assert_eq!(r.err(), Some(GovernanceError::DepositSourceIsHolding));
}

#[test]
fn deposit_of_dormant_tokens_is_refused() {
    let s = setup(GoverningTokenType::Dormant);
    let owner = key(31);
    let t = TokenType::SPL;
    let accs = deposit_accounts(&s, t, token_source(&s, t, &owner), &owner, true, vec![]);
    let r = process_deposit_governing_tokens(&program_id(), &accs, 5, t);
    assert_eq!(r.err(), Some(GovernanceError::CannotDepositDormantTokens));
}

#[test]
fn deposit_with_wrong_holding_is_refused() {
    let s = setup(GoverningTokenType::Liquid);
    let owner = key(31);
    let t = TokenType::SPL;
    let mut accs = deposit_accounts(&s, t, token_source(&s, t, &owner), &owner, true, vec![]);
    accs[1].key = key(61);
    let r = process_deposit_governing_tokens(&program_id(), &accs, 5, t);
    assert_eq!(r.err(), Some(GovernanceError::InvalidGoverningTokenHoldingAccount));
}

#[test]
fn deposit_with_holding_of_other_standard_is_refused() {
    let s = setup(GoverningTokenType::Liquid);
    let owner = key(31);
    let accs = deposit_accounts(&s, TokenType::SPL, token_source(&s, TokenType::SPL, &owner), &owner, true, vec![]);
    let r = process_deposit_governing_tokens(&program_id(), &accs, 5, TokenType::Token2022);
    assert_eq!(r.err(), Some(GovernanceError::InvalidTokenAccount));
}

#[test]
fn deposit_with_too_few_accounts_is_refused() {
    let s = setup(GoverningTokenType::Liquid);
    let owner = key(31);
    let t = TokenType::SPL;
    let accs = deposit_accounts(&s, t, token_source(&s, t, &owner), &owner, true, vec![]);
    let r = process_deposit_governing_tokens(&program_id(), &accs[..9], 5, t);
    assert_eq!(r.err(), Some(GovernanceError::NotEnoughAccountKeys));
}

#[test]
fn deposit_into_record_at_wrong_address_is_refused() {
    let s = setup(GoverningTokenType::Liquid);
    let owner = key(31);
    let t = TokenType::SPL;
    let mut accs = deposit_accounts(&s, t, token_source(&s, t, &owner), &owner, true, vec![]);
    accs[5].key = key(62);
    let r = process_deposit_governing_tokens(&program_id(), &accs, 5, t);
    assert_eq!(r.err(), Some(GovernanceError::InvalidTokenOwnerRecordAccountAddress));
}

#[test]
fn realm_of_other_program_is_refused() {
    let s = setup(GoverningTokenType::Liquid);
    let owner = key(31);
    let t = TokenType::SPL;
    let mut accs = deposit_accounts(&s, t, token_source(&s, t, &owner), &owner, true, vec![]);
    accs[0].owner = key(8);
    let r = process_deposit_governing_tokens(&program_id(), &accs, 5, t);
    assert_eq!(r.err(), Some(GovernanceError::InvalidAccountOwner));
}

fn deposited(s: &Setup, t: TokenType, owner: &Pubkey, amount: u64) -> Vec<u8> {
    let accs = deposit_accounts(s, t, token_source(s, t, owner), owner, true, vec![]);
    process_deposit_governing_tokens(&program_id(), &accs, amount, t).unwrap().record_data
}

#[test]
fn owner_revokes_part_of_balance() {
    let s = setup(GoverningTokenType::Membership);
    let owner = key(31);
    let t = TokenType::SPL;
    let data = deposited(&s, t, &owner, 100);
    let accs = revoke_accounts(&s, t, &owner, data, owner, true);
    let o = process_revoke_governing_tokens(&program_id(), &accs, 40, t).unwrap();
    assert_eq!(o.token_owner_record.governing_token_deposit_amount, 60);
    assert_eq!(deposit_amount_of(&o.record_data), 60);
    assert_eq!(holding_change(&o.custody, &s.holding), -40);
    match o.custody {
        CustodyAction::Burn { authority, mint, signer_seeds, .. } => {
            assert_eq!(authority, s.realm);
            assert_eq!(mint, s.mint);
            assert_eq!(signer_seeds[0], b"governance".to_vec());
            assert_eq!(signer_seeds[1], b"Realm #1".to_vec());
            assert_eq!(signer_seeds.len(), 3);
        }
        _ => panic!("expected a burn"),
    }
}

#[test]
fn revoke_of_whole_balance_leaves_zero() {
    let s = setup(GoverningTokenType::Membership);
    let owner = key(31);
    let t = TokenType::Token2022;
    let data = deposited(&s, t, &owner, 100);
    let accs = revoke_accounts(&s, t, &owner, data, owner, true);
    let o = process_revoke_governing_tokens(&program_id(), &accs, 100, t).unwrap();
    assert_eq!(o.token_owner_record.governing_token_deposit_amount, 0);
}

#[test]
fn revoke_above_balance_is_refused() {
    let s = setup(GoverningTokenType::Membership);
    let owner = key(31);
    let t = TokenType::SPL;
    let data = deposited(&s, t, &owner, 100);
    let accs = revoke_accounts(&s, t, &owner, data.clone(), owner, true);
    let r = process_revoke_governing_tokens(&program_id(), &accs, 101, t);
    assert_eq!(r.err(), Some(GovernanceError::InvalidRevokeAmount));
    assert_eq!(deposit_amount_of(&accs[2].data), 100);
}

#[test]
fn revoke_by_unsigned_owner_is_refused() {
    let s = setup(GoverningTokenType::Membership);
    let owner = key(31);
    let t = TokenType::SPL;
    let data = deposited(&s, t, &owner, 100);
    let accs = revoke_accounts(&s, t, &owner, data, owner, false);
    let r = process_revoke_governing_tokens(&program_id(), &accs, 1, t);
    assert_eq!(r.err(), Some(GovernanceError::GoverningTokenOwnerMustSign));
}

#[test]
fn revoke_by_mint_authority_is_allowed() {
    let s = setup(GoverningTokenType::Membership);
    let owner = key(31);
    let t = TokenType::SPL;
    let data = deposited(&s, t, &owner, 100);
    let accs = revoke_accounts(&s, t, &owner, data, s.mint_authority, true);
    let o = process_revoke_governing_tokens(&program_id(), &accs, 30, t).unwrap();
    assert_eq!(o.token_owner_record.governing_token_deposit_amount, 70);
}

#[test]
fn revoke_by_unsigned_mint_authority_is_refused() {
    let s = setup(GoverningTokenType::Membership);
    let owner = key(31);
    let t = TokenType::SPL;
    let data = deposited(&s, t, &owner, 100);
    let accs = revoke_accounts(&s, t, &owner, data, s.mint_authority, false);
    let r = process_revoke_governing_tokens(&program_id(), &accs, 30, t);
    assert_eq!(r.err(), Some(GovernanceError::MintAuthorityMustSign));
}

#[test]
fn revoke_by_stranger_is_refused_whatever_the_amount() {
    let s = setup(GoverningTokenType::Membership);
    let owner = key(31);
    let t = TokenType::SPL;
    let data = deposited(&s, t, &owner, 100);
    for amount in [0u64, 1, 100, 1_000] {
        let accs = revoke_accounts(&s, t, &owner, data.clone(), key(77), true);
        let r = process_revoke_governing_tokens(&program_id(), &accs, amount, t);
        assert_eq!(r.err(), Some(GovernanceError::InvalidMintAuthority));
    }
}

#[test]
fn revoke_when_mint_has_no_authority_is_refused() {
    let s = setup(GoverningTokenType::Membership);
    let owner = key(31);
    let t = TokenType::SPL;
    let data = deposited(&s, t, &owner, 100);
    let mut accs = revoke_accounts(&s, t, &owner, data, s.mint_authority, true);
    accs[3].data = mint_data(None);
    let r = process_revoke_governing_tokens(&program_id(), &accs, 1, t);
    assert_eq!(r.err(), Some(GovernanceError::MintHasNoAuthority));
}

#[test]
fn revoke_of_liquid_tokens_is_refused() {
    let s = setup(GoverningTokenType::Liquid);
    let owner = key(31);
    let t = TokenType::SPL;
    let data = deposited(&s, t, &owner, 100);
    let accs = revoke_accounts(&s, t, &owner, data, owner, true);
    let r = process_revoke_governing_tokens(&program_id(), &accs, 1, t);
    assert_eq!(r.err(), Some(GovernanceError::CannotRevokeGoverningTokens));
}

#[test]
fn revoke_with_record_of_other_mint_is_refused() {
    let s = setup(GoverningTokenType::Membership);
    let owner = key(31);
    let t = TokenType::SPL;
    let data = deposited(&s, t, &owner, 100);
    let mut r = decode_token_owner_record(&data).unwrap();
    r.governing_token_mint = key(99);
    let mut other = data.clone();
    r.serialize(&mut other).unwrap();
    let accs = revoke_accounts(&s, t, &owner, other, owner, true);
    let res = process_revoke_governing_tokens(&program_id(), &accs, 1, t);
    assert_eq!(res.err(), Some(GovernanceError::InvalidGoverningMintForTokenOwnerRecord));
}

#[test]
fn end_to_end_deposit_top_up_and_revoke() {
    let s = setup(GoverningTokenType::Membership);
    let owner = key(31);
    let t = TokenType::SPL;
    let mut holding: i128 = 0;

    let accs = deposit_accounts(&s, t, token_source(&s, t, &owner), &owner, true, vec![]);
    assert_eq!(accs[5].key, record_key(&s, &owner));
    let o = process_deposit_governing_tokens(&program_id(), &accs, 100, t).unwrap();
    holding += holding_change(&o.custody, &s.holding);
    assert_eq!(deposit_amount_of(&o.record_data), 100);
    assert_eq!(holding, 100);

    let accs = deposit_accounts(&s, t, token_source(&s, t, &owner), &owner, true, o.record_data);
    let o = process_deposit_governing_tokens(&program_id(), &accs, 50, t).unwrap();
    holding += holding_change(&o.custody, &s.holding);
    assert_eq!(deposit_amount_of(&o.record_data), 150);
    assert_eq!(holding, 150);

    let accs = revoke_accounts(&s, t, &owner, o.record_data, s.mint_authority, true);
    let o = process_revoke_governing_tokens(&program_id(), &accs, 30, t).unwrap();
    holding += holding_change(&o.custody, &s.holding);
    assert_eq!(deposit_amount_of(&o.record_data), 120);
    assert_eq!(holding, 120);

    let accs = revoke_accounts(&s, t, &owner, o.record_data.clone(), s.mint_authority, true);
    let r = process_revoke_governing_tokens(&program_id(), &accs, 200, t);
    assert_eq!(r.err(), Some(GovernanceError::InvalidRevokeAmount));
    assert_eq!(deposit_amount_of(&o.record_data), 120);
    assert_eq!(holding, 120);
}

#[test]
fn test_max_size() {
    let realm = realm_v2("test-realm", key(1), Some(key(2)), Some(key(3)));
    let config = (0u8, 0u8, [0u8; 6], 10u64, 1u8, 100u64, Some([2u8; 32]));
    let size = borsh::to_vec(&(
        16u8,
        [1u8; 32],
        config,
        false,
        [0u8; 5],
        0u16,
        Some([3u8; 32]),
        "test-realm".to_string(),
        [0u8; 128],
    ))
    .unwrap()
    .len();
    assert_eq!(realm.get_max_size(), Some(size));
    assert_eq!(encode_realm(&realm).len(), size);
}
