//! The revoke engine: debits a member's record and burns the same amount
//! from the realm's custody, on the owner's or the mint authority's say.

use crate::account::AccountInfo;
use crate::custody::{custody_delta, mint_authority_check, CustodyAction, TokenType};
use crate::error::GovernanceError;
use crate::pubkey::{find_program_address_and_bump, program_derived_address, seeds_view, Pubkey};
use crate::realm::{get_realm_address_seeds, holding_check, realm_seeds};
use crate::realm_config::{get_realm_config_data_for_realm, realm_config_data, revoke_permission};
use crate::realm_layout::{get_realm_data, realm_data};
use crate::token_owner_record::{
    get_token_owner_record_data_for_realm_and_governing_mint, lemma_parse_record_locks,
    record_data_for_realm_and_mint, record_write, RecordModel, TokenOwnerRecordV2,
};
use vstd::prelude::*;

verus! {

/// Number of accounts a revoke reads: the realm, the holding account, the
/// record, the governing token mint, the revoke authority, the realm config
/// and the token program.
pub const REVOKE_ACCOUNTS: usize = 7;

/// What a revoke does: the burn to carry out, and the record with the bytes
/// its account holds afterwards.
#[derive(Clone, Debug)]
pub struct RevokeOutcome {
    pub custody: CustodyAction,
    pub token_owner_record: TokenOwnerRecordV2,
    pub record_data: Vec<u8>,
}

/// The record, as loaded for the realm and mint, once the realm, its config,
/// the mint, the holding account and the mint's revoke permission pass.
pub open spec fn revoke_record(program_id: Seq<u8>, accs: Seq<AccountInfo>) -> Result<
    RecordModel,
    GovernanceError,
> {
    if accs.len() < REVOKE_ACCOUNTS {
        Err(GovernanceError::NotEnoughAccountKeys)
    } else {
        let realm_info = accs[0];
        let config_info = accs[5];
        let mint = accs[3].key@;
        match realm_data(program_id, realm_info.owner@, realm_info.data@) {
            Err(e) => Err(e),
            Ok(realm) => match realm_config_data(
                program_id,
                config_info.key@,
                config_info.owner@,
                config_info.data@,
                realm_info.key@,
            ) {
                Err(e) => Err(e),
                Ok(c) => match holding_check(realm, program_id, realm_info.key@, mint, accs[1].key@) {
                    Err(e) => Err(e),
                    Ok(_) => match revoke_permission(c, realm, mint) {
                        Err(e) => Err(e),
                        Ok(_) => record_data_for_realm_and_mint(
                            program_id,
                            accs[2].owner@,
                            accs[2].data@,
                            realm_info.key@,
                            mint,
                        ),
                    },
                },
            },
        }
    }
}

/// Whether the revoke authority may revoke from the record: the owner, having
/// signed, or else the mint's signing authority.
pub open spec fn revoke_authorization(t: TokenType, rec: RecordModel, accs: Seq<AccountInfo>) -> Result<
    (),
    GovernanceError,
> {
    let authority = accs[4];
    if authority.key@ == rec.governing_token_owner {
        if !authority.is_signer {
            Err(GovernanceError::GoverningTokenOwnerMustSign)
        } else {
            Ok(())
        }
    } else {
        mint_authority_check(t, accs[3].owner@, accs[3].data@, authority.key@, authority.is_signer)
    }
}

/// The errors by which an unauthorized revoke is refused.
pub open spec fn is_authorization_error(e: GovernanceError) -> bool {
    e == GovernanceError::GoverningTokenOwnerMustSign || e == GovernanceError::InvalidMint || e
        == GovernanceError::MintHasNoAuthority || e == GovernanceError::InvalidMintAuthority || e
        == GovernanceError::MintAuthorityMustSign
}

pub struct RevokeModel {
    pub record: RecordModel,
    pub record_data: Seq<u8>,
    /// The seeds the realm signs the burn with: its address seeds and bump.
    pub signer_seeds: Seq<Seq<u8>>,
}

/// What a revoke of `amount` gives, for the accounts in the order of
/// `REVOKE_ACCOUNTS`.
pub open spec fn revoke_spec(
    program_id: Seq<u8>,
    accs: Seq<AccountInfo>,
    amount: u64,
    t: TokenType,
) -> Result<RevokeModel, GovernanceError> {
    match revoke_record(program_id, accs) {
        Err(e) => Err(e),
        Ok(rec) => match revoke_authorization(t, rec, accs) {
            Err(e) => Err(e),
            Ok(_) => if amount > rec.governing_token_deposit_amount {
                Err(GovernanceError::InvalidRevokeAmount)
            } else {
                let r2 = RecordModel {
                    governing_token_deposit_amount: (rec.governing_token_deposit_amount
                        - amount) as u64,
                    ..rec
                };
                match record_write(r2, accs[2].data@) {
                    Err(e) => Err(e),
                    Ok(d) => {
                        let realm = realm_data(program_id, accs[0].owner@, accs[0].data@)->Ok_0;
                        match program_derived_address(realm_seeds(realm.name), program_id) {
                            None => Err(GovernanceError::AddressDerivationFailed),
                            Some((a, bump)) => if a != accs[0].key@ {
                                Err(GovernanceError::InvalidRealmAddress)
                            } else {
                                Ok(
                                    RevokeModel {
                                        record: r2,
                                        record_data: d,
                                        signer_seeds: realm_seeds(realm.name).push(seq![bump]),
                                    },
                                )
                            },
                        }
                    },
                }
            },
        },
    }
}

/// Whether a revoke's result is the one the model gives.
pub open spec fn revoke_matches(
    r: Result<RevokeOutcome, GovernanceError>,
    m: Result<RevokeModel, GovernanceError>,
    accs: Seq<AccountInfo>,
    amount: u64,
    t: TokenType,
) -> bool {
    match (r, m) {
        (Ok(o), Ok(v)) => o.token_owner_record@ == v.record && o.record_data@ == v.record_data
            && (o.custody matches CustodyAction::Burn {
            token_type,
            account,
            mint,
            authority,
            signer_seeds,
            amount: burnt,
        } && token_type == t && account == accs[1].key && mint == accs[3].key && authority
            == accs[0].key && seeds_view(signer_seeds@) == v.signer_seeds && burnt == amount),
        (Err(e), Err(f)) => e == f,
        _ => false,
    }
}

/// Revokes governing tokens: debits the record and burns the amount from the
/// holding account, signed by the realm's derived address. The accounts come
/// in the order of `REVOKE_ACCOUNTS`. The revoke authority is the record's
/// owner, who must sign, or the mint's authority, who must sign. The debit
/// fails with `InvalidRevokeAmount` where the amount exceeds the balance.
pub fn process_revoke_governing_tokens(
    program_id: &Pubkey,
    accounts: &[AccountInfo],
    amount: u64,
    token_type: TokenType,
) -> (r: Result<RevokeOutcome, GovernanceError>)
    ensures
        revoke_matches(r, revoke_spec(program_id@, accounts@, amount, token_type), accounts@, amount, token_type),
        r matches Ok(o) ==> custody_delta(o.custody, accounts@[1].key@) == -amount,
        r matches Ok(o) ==> (revoke_record(program_id@, accounts@) matches Ok(rec) && amount
            <= rec.governing_token_deposit_amount && o.token_owner_record.governing_token_deposit_amount
            == rec.governing_token_deposit_amount - amount && revoke_authorization(token_type, rec, accounts@) is Ok),
        revoke_record(program_id@, accounts@) matches Ok(rec) && revoke_authorization(token_type, rec, accounts@) is Ok
            && amount > rec.governing_token_deposit_amount ==> r == Err::<RevokeOutcome, GovernanceError>(
            GovernanceError::InvalidRevokeAmount,
        ),
        revoke_record(program_id@, accounts@) matches Ok(rec) && revoke_authorization(token_type, rec, accounts@)
            is Err ==> (r matches Err(e) && is_authorization_error(e)),
{
    if accounts.len() < REVOKE_ACCOUNTS {
        return Err(GovernanceError::NotEnoughAccountKeys);
    }
    let realm_info = &accounts[0];
    let holding_info = &accounts[1];
    let record_info = &accounts[2];
    let mint_info = &accounts[3];
    let revoke_authority_info = &accounts[4];
    let realm_config_info = &accounts[5];

    let realm_data = get_realm_data(program_id, realm_info)?;
    let realm_config_data = get_realm_config_data_for_realm(
        program_id,
        realm_config_info,
        &realm_info.key,
    )?;
    realm_data.assert_is_valid_governing_token_mint_and_holding(
        program_id,
        &realm_info.key,
        &mint_info.key,
        &holding_info.key,
    )?;
    realm_config_data.assert_can_revoke_governing_token(&realm_data, &mint_info.key)?;
    let mut record = get_token_owner_record_data_for_realm_and_governing_mint(
        program_id,
        record_info,
        &realm_info.key,
        &mint_info.key,
    )?;
    proof {
        lemma_parse_record_locks(record_info.data@);
    }

    if revoke_authority_info.key == record.governing_token_owner {
        if !revoke_authority_info.is_signer {
            return Err(GovernanceError::GoverningTokenOwnerMustSign);
        }
    } else {
        token_type.assert_mint_authority_is_signer(mint_info, revoke_authority_info)?;
    }

    if amount > record.governing_token_deposit_amount {
        return Err(GovernanceError::InvalidRevokeAmount);
    }
    record.governing_token_deposit_amount = record.governing_token_deposit_amount - amount;
    let mut record_data = record_info.data.clone();
    record.serialize(&mut record_data)?;

    let mut signer_seeds = get_realm_address_seeds(realm_data.name.as_str());
    match find_program_address_and_bump(&signer_seeds, program_id) {
        None => Err(GovernanceError::AddressDerivationFailed),
        Some((a, bump)) => {
            if a != realm_info.key {
                return Err(GovernanceError::InvalidRealmAddress);
            }
            let bump_seed: Vec<u8> = vec![bump];
            proof {
                assert(bump_seed@ =~= seq![bump]);
                assert(seeds_view(signer_seeds@.push(bump_seed)) =~= seeds_view(signer_seeds@).push(
                    bump_seed@,
                ));
            }
            signer_seeds.push(bump_seed);
            let custody = token_type.burn_signed(
                &holding_info.key,
                &mint_info.key,
                &realm_info.key,
                signer_seeds,
                amount,
            );
            Ok(RevokeOutcome { custody, token_owner_record: record, record_data })
        },
    }
}

} // verus!
