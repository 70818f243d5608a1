//! The voter weight boundary: the weight a record votes with is its deposit,
//! or the weight an external plugin computed where the realm configures one
//! for the mint; and the check that gates creating a governance on it.
//!
//! The plugin's own record is read by the host, which hands the weight in.

use crate::account::AccountInfo;
use crate::error::GovernanceError;
use crate::pubkey::Pubkey;
use crate::realm::{RealmModel, RealmV2};
use crate::realm_config::{
    get_realm_config_data_for_realm, realm_config_data, token_config_of, RealmConfigAccount,
    RealmConfigAccountModel,
};
use crate::token_owner_record::{
    get_token_owner_record_data_for_realm, record_data_for_realm, RecordModel, TokenOwnerRecordV2,
};
use vstd::prelude::*;

verus! {

/// The weight a record votes with: the plugin's weight where the mint has a
/// voter weight plugin, the deposited amount otherwise.
pub open spec fn voter_weight_of(
    rec: RecordModel,
    realm: RealmModel,
    config: RealmConfigAccountModel,
    plugin_weight: Option<u64>,
) -> Result<u64, GovernanceError> {
    match token_config_of(config, realm, rec.governing_token_mint) {
        None => Err(GovernanceError::InvalidGoverningTokenMint),
        Some(tc) => if tc.voter_weight_addin is Some {
            match plugin_weight {
                Some(w) => Ok(w),
                None => Err(GovernanceError::MissingVoterWeightRecord),
            }
        } else {
            Ok(rec.governing_token_deposit_amount)
        },
    }
}

/// The weight needed to create a governance with the record's mint: the
/// realm's minimum for the community mint, one for the council mint.
pub open spec fn create_governance_check(rec: RecordModel, realm: RealmModel, weight: u64) -> Result<
    (),
    GovernanceError,
> {
    if rec.governing_token_mint == realm.community_mint {
        if weight < realm.config.min_community_weight_to_create_governance {
            Err(GovernanceError::NotEnoughTokensToCreateGovernance)
        } else {
            Ok(())
        }
    } else if realm.config.council_mint == Some(rec.governing_token_mint) {
        if weight < 1 {
            Err(GovernanceError::NotEnoughTokensToCreateGovernance)
        } else {
            Ok(())
        }
    } else {
        Err(GovernanceError::InvalidGoverningTokenMint)
    }
}

impl TokenOwnerRecordV2 {
    /// Returns the weight the record votes with. `plugin_voter_weight` is the
    /// weight the mint's voter weight plugin gave, if the host read one.
    pub fn resolve_voter_weight(
        &self,
        realm_data: &RealmV2,
        realm_config_data: &RealmConfigAccount,
        plugin_voter_weight: Option<u64>,
    ) -> (r: Result<u64, GovernanceError>)
        ensures
            r == voter_weight_of(self@, realm_data@, realm_config_data@, plugin_voter_weight),
    {
        let tc = realm_config_data.get_token_config(realm_data, &self.governing_token_mint)?;
        if tc.voter_weight_addin.is_some() {
            match plugin_voter_weight {
                Some(w) => Ok(w),
                None => Err(GovernanceError::MissingVoterWeightRecord),
            }
        } else {
            Ok(self.governing_token_deposit_amount)
        }
    }

    /// Asserts that the weight suffices to create a governance with the
    /// record's mint.
    pub fn assert_can_create_governance(&self, realm_data: &RealmV2, voter_weight: u64) -> (r:
        Result<(), GovernanceError>)
        ensures
            r == create_governance_check(self@, realm_data@, voter_weight),
    {
        let min_weight: u64 = if self.governing_token_mint == realm_data.community_mint {
            realm_data.config.min_community_weight_to_create_governance
        } else {
            match realm_data.config.council_mint {
                Some(council) => {
                    if council == self.governing_token_mint {
                        1
                    } else {
                        return Err(GovernanceError::InvalidGoverningTokenMint);
                    }
                },
                None => {
                    return Err(GovernanceError::InvalidGoverningTokenMint);
                },
            }
        };
        if voter_weight < min_weight {
            return Err(GovernanceError::NotEnoughTokensToCreateGovernance);
        }
        Ok(())
    }
}

/// Whether `authority` may create a governance in the realm: the realm
/// authority, having signed; or else the owner or delegate of the record,
/// having signed, with enough voter weight.
pub open spec fn create_authority_check(
    realm: RealmModel,
    program_id: Seq<u8>,
    realm_key: Seq<u8>,
    record_info: AccountInfo,
    authority: AccountInfo,
    config_info: AccountInfo,
    plugin_weight: Option<u64>,
) -> Result<(), GovernanceError> {
    if realm.authority == Some(authority.key@) {
        if !authority.is_signer {
            Err(GovernanceError::RealmAuthorityMustSign)
        } else {
            Ok(())
        }
    } else {
        match record_data_for_realm(program_id, record_info.owner@, record_info.data@, realm_key) {
            Err(e) => Err(e),
            Ok(rec) => if !(authority.is_signer && (authority.key@ == rec.governing_token_owner
                || rec.governance_delegate == Some(authority.key@))) {
                Err(GovernanceError::GoverningTokenOwnerOrDelegateMustSign)
            } else {
                match realm_config_data(
                    program_id,
                    config_info.key@,
                    config_info.owner@,
                    config_info.data@,
                    realm_key,
                ) {
                    Err(e) => Err(e),
                    Ok(c) => match voter_weight_of(rec, realm, c, plugin_weight) {
                        Err(e) => Err(e),
                        Ok(w) => create_governance_check(rec, realm, w),
                    },
                }
            },
        }
    }
}

impl RealmV2 {
    /// Asserts that the create authority may create a governance: the realm
    /// authority must have signed; anyone else must be the signing owner or
    /// delegate of a record of the realm whose voter weight suffices.
    /// `plugin_voter_weight` is the weight the mint's voter weight plugin
    /// gave, if the host read one.
    pub fn assert_create_authority_can_create_governance(
        &self,
        program_id: &Pubkey,
        realm: &Pubkey,
        token_owner_record_info: &AccountInfo,
        create_authority_info: &AccountInfo,
        realm_config_info: &AccountInfo,
        plugin_voter_weight: Option<u64>,
    ) -> (r: Result<(), GovernanceError>)
        ensures
            r == create_authority_check(
                self@,
                program_id@,
                realm@,
                *token_owner_record_info,
                *create_authority_info,
                *realm_config_info,
                plugin_voter_weight,
            ),
    {
        match self.authority {
            Some(a) => {
                if a == create_authority_info.key {
                    return if !create_authority_info.is_signer {
                        Err(GovernanceError::RealmAuthorityMustSign)
                    } else {
                        Ok(())
                    };
                }
            },
            None => {},
        }
        let record = get_token_owner_record_data_for_realm(
            program_id,
            token_owner_record_info,
            realm,
        )?;
        record.assert_token_owner_or_delegate_is_signer(create_authority_info)?;
        let realm_config_data = get_realm_config_data_for_realm(
            program_id,
            realm_config_info,
            realm,
        )?;
        let voter_weight = record.resolve_voter_weight(
            self,
            &realm_config_data,
            plugin_voter_weight,
        )?;
        record.assert_can_create_governance(self, voter_weight)
    }
}

} // verus!
