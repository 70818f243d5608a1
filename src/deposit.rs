//! The deposit engine: moves governing tokens into the realm's custody and
//! credits the owner's record, creating it on the first deposit.

use crate::account::AccountInfo;
use crate::custody::{
    account_mint, custody_delta, is_mint_spec, is_token_account_spec, CustodyAction, TokenType,
};
use crate::enums::GovernanceAccountType;
use crate::error::GovernanceError;
use crate::pubkey::{derived_address, find_program_address, Pubkey};
use crate::realm::holding_check;
use crate::realm_config::{deposit_permission, get_realm_config_data_for_realm, realm_config_data};
use crate::realm_layout::{get_realm_data, realm_data, zeros};
use crate::token_owner_record::{
    get_token_owner_record_address_seeds, get_token_owner_record_data_for_seeds,
    lemma_parse_record_locks, locks_view, parse_record, record_bytes, record_data_for_seeds,
    record_seeds, record_write, encode_token_owner_record, RecordModel, TokenOwnerRecordLock,
    TokenOwnerRecordV2, TOKEN_OWNER_RECORD_LAYOUT_VERSION,
};
use vstd::prelude::*;

verus! {

/// Number of accounts a deposit reads: the realm, the holding account, the
/// source, the owner, the source authority, the record, the payer, the system
/// program, the token program and the realm config.
pub const DEPOSIT_ACCOUNTS: usize = 10;

/// What a deposit does: the custody action to carry out, and the record with
/// the bytes its account holds afterwards.
#[derive(Clone, Debug)]
pub struct DepositOutcome {
    pub custody: CustodyAction,
    pub token_owner_record: TokenOwnerRecordV2,
    /// The record account's bytes after the deposit; where the record is
    /// created, the bytes the new account is made with.
    pub record_data: Vec<u8>,
    /// Whether the record is created by this deposit.
    pub created: bool,
}

pub struct DepositModel {
    pub custody: CustodyAction,
    pub record: RecordModel,
    pub record_data: Seq<u8>,
    pub created: bool,
}

pub open spec fn deposit_view(r: Result<DepositOutcome, GovernanceError>) -> Result<
    DepositModel,
    GovernanceError,
> {
    match r {
        Ok(o) => Ok(
            DepositModel {
                custody: o.custody,
                record: o.token_owner_record@,
                record_data: o.record_data@,
                created: o.created,
            },
        ),
        Err(e) => Err(e),
    }
}

/// How the tokens come in: by transfer from a token account of the mint, or
/// minted by the mint itself; any other source is refused with
/// `InvalidGoverningTokenSource`. The holding account as its own source is
/// refused with `DepositSourceIsHolding`: a transfer from it to itself moves
/// nothing, and would credit the record without any tokens in custody.
pub open spec fn deposit_source(
    t: TokenType,
    source: AccountInfo,
    mint: Seq<u8>,
    holding: AccountInfo,
    authority: AccountInfo,
    amount: u64,
) -> Result<CustodyAction, GovernanceError> {
    if is_token_account_spec(t, source.owner@, source.data@) && account_mint(source.data@) == mint {
        if source.key@ == holding.key@ {
            Err(GovernanceError::DepositSourceIsHolding)
        } else {
            Ok(
            CustodyAction::Transfer {
                token_type: t,
                source: source.key,
                destination: holding.key,
                authority: authority.key,
                amount: amount,
            },
        )
        }
    } else if is_mint_spec(t, source.owner@, source.data@) && source.key@ == mint {
        Ok(
            CustodyAction::MintTo {
                token_type: t,
                mint: source.key,
                destination: holding.key,
                authority: authority.key,
                amount: amount,
            },
        )
    } else {
        Err(GovernanceError::InvalidGoverningTokenSource)
    }
}

/// A record as a first deposit creates it.
pub open spec fn fresh_record(realm: Seq<u8>, mint: Seq<u8>, owner: Seq<u8>, amount: u64) -> RecordModel {
    RecordModel {
        account_type: GovernanceAccountType::TokenOwnerRecordV2,
        realm: realm,
        governing_token_mint: mint,
        governing_token_owner: owner,
        governing_token_deposit_amount: amount,
        unrelinquished_votes_count: 0,
        outstanding_proposal_count: 0,
        version: TOKEN_OWNER_RECORD_LAYOUT_VERSION,
        reserved: zeros(6),
        governance_delegate: None,
        reserved_v2: zeros(124),
        locks: Seq::empty(),
    }
}

/// The record after a deposit, its account's bytes, and whether it is new.
pub open spec fn record_after_deposit(
    program_id: Seq<u8>,
    realm: Seq<u8>,
    mint: Seq<u8>,
    owner: AccountInfo,
    record: AccountInfo,
    amount: u64,
) -> Result<(RecordModel, Seq<u8>, bool), GovernanceError> {
    let seeds = record_seeds(realm, mint, owner.key@);
    if record.data@.len() == 0 {
        if !owner.is_signer {
            Err(GovernanceError::GoverningTokenOwnerMustSign)
        } else {
            match derived_address(seeds, program_id) {
                None => Err(GovernanceError::AddressDerivationFailed),
                Some(a) => if a != record.key@ {
                    Err(GovernanceError::InvalidTokenOwnerRecordAccountAddress)
                } else {
                    let r = fresh_record(realm, mint, owner.key@, amount);
                    Ok((r, record_bytes(r), true))
                },
            }
        }
    } else {
        match record_data_for_seeds(program_id, record.key@, record.owner@, record.data@, seeds) {
            Err(e) => Err(e),
            Ok(r) => if r.governing_token_deposit_amount + amount > u64::MAX {
                Err(GovernanceError::DepositAmountOverflow)
            } else {
                let r2 = RecordModel {
                    governing_token_deposit_amount: (r.governing_token_deposit_amount
                        + amount) as u64,
                    ..r
                };
                match record_write(r2, record.data@) {
                    Err(e) => Err(e),
                    Ok(d) => Ok((r2, d, false)),
                }
            },
        }
    }
}

/// The governing mint of a deposit, once the realm, the holding account, the
/// realm config and the mint's deposit permission pass.
pub open spec fn deposit_mint(program_id: Seq<u8>, accs: Seq<AccountInfo>, t: TokenType) -> Result<
    Seq<u8>,
    GovernanceError,
> {
    if accs.len() < DEPOSIT_ACCOUNTS {
        Err(GovernanceError::NotEnoughAccountKeys)
    } else {
        let realm_info = accs[0];
        let holding = accs[1];
        let config_info = accs[9];
        match realm_data(program_id, realm_info.owner@, realm_info.data@) {
            Err(e) => Err(e),
            Ok(realm) => if !is_token_account_spec(t, holding.owner@, holding.data@) {
                Err(GovernanceError::InvalidTokenAccount)
            } else {
                let mint = account_mint(holding.data@);
                match holding_check(realm, program_id, realm_info.key@, mint, holding.key@) {
                    Err(e) => Err(e),
                    Ok(_) => match realm_config_data(
                        program_id,
                        config_info.key@,
                        config_info.owner@,
                        config_info.data@,
                        realm_info.key@,
                    ) {
                        Err(e) => Err(e),
                        Ok(c) => match deposit_permission(c, realm, mint) {
                            Err(e) => Err(e),
                            Ok(_) => Ok(mint),
                        },
                    },
                }
            },
        }
    }
}

/// What a deposit of `amount` gives, for the accounts in the order of
/// `DEPOSIT_ACCOUNTS`.
pub open spec fn deposit_spec(
    program_id: Seq<u8>,
    accs: Seq<AccountInfo>,
    amount: u64,
    t: TokenType,
) -> Result<DepositModel, GovernanceError> {
    match deposit_mint(program_id, accs, t) {
        Err(e) => Err(e),
        Ok(mint) => match deposit_source(t, accs[2], mint, accs[1], accs[4], amount) {
            Err(e) => Err(e),
            Ok(action) => match record_after_deposit(
                program_id,
                accs[0].key@,
                mint,
                accs[3],
                accs[5],
                amount,
            ) {
                Err(e) => Err(e),
                Ok((r, d, created)) => Ok(
                    DepositModel { custody: action, record: r, record_data: d, created: created },
                ),
            },
        },
    }
}

/// A first deposit by transfer succeeds once the realm, holding account and
/// config pass, the source is another token account of the governing mint,
/// the owner signed and the record account stands at its derived address: it
/// moves exactly `amount` into the holding account by one transfer under the
/// source authority, and creates the record with `amount` deposited.
pub proof fn lemma_fresh_deposit_by_transfer(
    program_id: Seq<u8>,
    accs: Seq<AccountInfo>,
    amount: u64,
    t: TokenType,
)
    requires
        deposit_mint(program_id, accs, t) matches Ok(mint) && is_token_account_spec(
            t,
            accs[2].owner@,
            accs[2].data@,
        ) && account_mint(accs[2].data@) == mint && accs[2].key@ != accs[1].key@,
        accs[5].data@.len() == 0,
        accs[3].is_signer,
        derived_address(
            record_seeds(accs[0].key@, account_mint(accs[1].data@), accs[3].key@),
            program_id,
        ) == Some(accs[5].key@),
    ensures
        deposit_spec(program_id, accs, amount, t) matches Ok(d) && d.created
            && d.record.governing_token_deposit_amount == amount && d.custody == (
        CustodyAction::Transfer {
            token_type: t,
            source: accs[2].key,
            destination: accs[1].key,
            authority: accs[4].key,
            amount: amount,
        }) && custody_delta(d.custody, accs[1].key@) == amount,
{
}

/// A top-up of an existing record does not depend on whether the owner
/// signed: only the creation of a record asks for the owner's signature.
pub proof fn lemma_top_up_needs_no_owner_signature(
    program_id: Seq<u8>,
    accs: Seq<AccountInfo>,
    amount: u64,
    t: TokenType,
    signed: bool,
)
    requires
        accs.len() >= DEPOSIT_ACCOUNTS,
        accs[5].data@.len() > 0,
    ensures
        deposit_spec(program_id, accs, amount, t) == deposit_spec(
            program_id,
            accs.update(3, AccountInfo { is_signer: signed, ..accs[3] }),
            amount,
            t,
        ),
{
    let accs2 = accs.update(3, AccountInfo { is_signer: signed, ..accs[3] });
    assert(accs2[0] == accs[0] && accs2[1] == accs[1] && accs2[2] == accs[2] && accs2[4] == accs[4]
        && accs2[5] == accs[5] && accs2[9] == accs[9] && accs2[3].key == accs[3].key);
    assert(deposit_mint(program_id, accs, t) == deposit_mint(program_id, accs2, t));
}

/// For either token standard, a deposit whose source is neither a token
/// account of the governing mint nor the mint itself fails with
/// `InvalidGoverningTokenSource`, once the realm, holding and config pass.
pub proof fn lemma_invalid_source_refused(
    program_id: Seq<u8>,
    accs: Seq<AccountInfo>,
    amount: u64,
    t: TokenType,
)
    requires
        deposit_mint(program_id, accs, t) matches Ok(mint) && !((is_token_account_spec(
            t,
            accs[2].owner@,
            accs[2].data@,
        ) && account_mint(accs[2].data@) == mint) || (is_mint_spec(
            t,
            accs[2].owner@,
            accs[2].data@,
        ) && accs[2].key@ == mint)),
    ensures
        deposit_spec(program_id, accs, amount, t) == Err::<DepositModel, GovernanceError>(
            GovernanceError::InvalidGoverningTokenSource,
        ),
{
}

fn new_token_owner_record(
    realm: &Pubkey,
    governing_token_mint: &Pubkey,
    governing_token_owner: &Pubkey,
    amount: u64,
) -> (r: TokenOwnerRecordV2)
    ensures
        r@ == fresh_record(realm@, governing_token_mint@, governing_token_owner@, amount),
        r.locks@.len() == 0,
{
    let reserved: [u8; 6] = [0u8; 6];
    assert(reserved@ =~= zeros(6));
    let reserved_v2: [u8; 124] = [0u8; 124];
    assert(reserved_v2@ =~= zeros(124));
    let locks: Vec<TokenOwnerRecordLock> = Vec::new();
    assert(locks_view(locks@) =~= Seq::<crate::token_owner_record::LockModel>::empty());
    TokenOwnerRecordV2 {
        account_type: GovernanceAccountType::TokenOwnerRecordV2,
        realm: *realm,
        governing_token_mint: *governing_token_mint,
        governing_token_owner: *governing_token_owner,
        governing_token_deposit_amount: amount,
        unrelinquished_votes_count: 0,
        outstanding_proposal_count: 0,
        version: TOKEN_OWNER_RECORD_LAYOUT_VERSION,
        reserved,
        governance_delegate: None,
        reserved_v2,
        locks,
    }
}

/// Deposits governing tokens into the realm's custody and credits the owner's
/// record. The accounts come in the order of `DEPOSIT_ACCOUNTS`. The source
/// is a token account of the governing mint other than the holding account
/// (the tokens are transferred) or the mint itself (the tokens are minted). A first deposit creates the
/// record and needs the owner's signature; later deposits need only the
/// source authority's, which the token program checks.
pub fn process_deposit_governing_tokens(
    program_id: &Pubkey,
    accounts: &[AccountInfo],
    amount: u64,
    token_type: TokenType,
) -> (r: Result<DepositOutcome, GovernanceError>)
    ensures
        deposit_view(r) == deposit_spec(program_id@, accounts@, amount, token_type),
        r matches Ok(o) ==> custody_delta(o.custody, accounts@[1].key@) == amount,
        r matches Ok(o) ==> o.token_owner_record.governing_token_deposit_amount == (if o.created {
            amount as int
        } else {
            parse_record(accounts@[5].data@).unwrap().governing_token_deposit_amount + amount
        }),
        r matches Ok(o) && o.created ==> accounts@[3].is_signer,
        accounts@.len() >= DEPOSIT_ACCOUNTS && accounts@[5].data@.len() == 0
            && !accounts@[3].is_signer ==> r is Err,
{
    if accounts.len() < DEPOSIT_ACCOUNTS {
        return Err(GovernanceError::NotEnoughAccountKeys);
    }
    let realm_info = &accounts[0];
    let holding_info = &accounts[1];
    let source_info = &accounts[2];
    let owner_info = &accounts[3];
    let source_authority_info = &accounts[4];
    let record_info = &accounts[5];
    let realm_config_info = &accounts[9];

    let realm_data = get_realm_data(program_id, realm_info)?;
    let governing_token_mint = token_type.get_mint(holding_info)?;
    realm_data.assert_is_valid_governing_token_mint_and_holding(
        program_id,
        &realm_info.key,
        &governing_token_mint,
        &holding_info.key,
    )?;
    let realm_config_data = get_realm_config_data_for_realm(
        program_id,
        realm_config_info,
        &realm_info.key,
    )?;
    realm_config_data.assert_can_deposit_governing_token(&realm_data, &governing_token_mint)?;

    let custody = if token_type.is_token_account(source_info) && token_type.get_mint(
        source_info,
    )? == governing_token_mint {
        if source_info.key == holding_info.key {
            return Err(GovernanceError::DepositSourceIsHolding);
        }
        token_type.transfer(&source_info.key, &holding_info.key, &source_authority_info.key, amount)
    } else if token_type.is_mint(source_info) && source_info.key == governing_token_mint {
        token_type.mint_to(&source_info.key, &holding_info.key, &source_authority_info.key, amount)
    } else {
        return Err(GovernanceError::InvalidGoverningTokenSource);
    };

    let seeds = get_token_owner_record_address_seeds(
        &realm_info.key,
        &governing_token_mint,
        &owner_info.key,
    );
    if record_info.data_is_empty() {
        if !owner_info.is_signer {
            return Err(GovernanceError::GoverningTokenOwnerMustSign);
        }
        match find_program_address(&seeds, program_id) {
            None => {
                return Err(GovernanceError::AddressDerivationFailed);
            },
            Some(a) => {
                if a != record_info.key {
                    return Err(GovernanceError::InvalidTokenOwnerRecordAccountAddress);
                }
            },
        }
        let record = new_token_owner_record(
            &realm_info.key,
            &governing_token_mint,
            &owner_info.key,
            amount,
        );
        let record_data = encode_token_owner_record(&record);
        Ok(DepositOutcome { custody, token_owner_record: record, record_data, created: true })
    } else {
        let mut record = get_token_owner_record_data_for_seeds(program_id, record_info, &seeds)?;
        proof {
            lemma_parse_record_locks(record_info.data@);
        }
        if record.governing_token_deposit_amount > u64::MAX - amount {
            return Err(GovernanceError::DepositAmountOverflow);
        }
        record.governing_token_deposit_amount = record.governing_token_deposit_amount + amount;
        let mut record_data = record_info.data.clone();
        record.serialize(&mut record_data)?;
        Ok(DepositOutcome { custody, token_owner_record: record, record_data, created: false })
    }
}

} // verus!
