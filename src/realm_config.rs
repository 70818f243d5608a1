//! The realm config account: per mint, the voter weight plugins and how the
//! token is used.
//!
//! Layout, in order: the type tag, the realm, the community token config, the
//! council token config and 110 reserved bytes. A token config holds the
//! optional voter weight plugin, the optional max voter weight plugin, the
//! token type byte, four reserved bytes and the lock authorities (a `u32`
//! count, then each address). A realm whose config account was never written
//! has the default config: no plugins and liquid tokens.

use crate::account::AccountInfo;
use crate::codec::{
    enc_opt_key, enc_u32, opt_key_view, parse_bytes, parse_opt_key, parse_u32, parse_u8, push_all,
    read_array, read_key, read_opt_key, read_u32, read_u8, write_key, write_opt_key, write_u32,
    write_u8,
};
use crate::enums::{token_type_tag, GoverningTokenType};
use crate::error::GovernanceError;
use crate::pubkey::{derived_address, find_program_address, seeds_view, Pubkey};
use crate::realm::{RealmModel, RealmV2};
use crate::realm_layout::zeros;
use vstd::prelude::*;

verus! {

/// How one governing token mint is configured.
#[derive(Clone, Debug)]
pub struct GoverningTokenConfig {
    pub voter_weight_addin: Option<Pubkey>,
    pub max_voter_weight_addin: Option<Pubkey>,
    pub token_type: GoverningTokenType,
    pub reserved: [u8; 4],
    pub lock_authorities: Vec<Pubkey>,
}

pub struct TokenConfigModel {
    pub voter_weight_addin: Option<Seq<u8>>,
    pub max_voter_weight_addin: Option<Seq<u8>>,
    pub token_type: GoverningTokenType,
    pub reserved: Seq<u8>,
    pub lock_authorities: Seq<Seq<u8>>,
}

pub open spec fn keys_view(ks: Seq<Pubkey>) -> Seq<Seq<u8>> {
    ks.map_values(|k: Pubkey| k@)
}

impl View for GoverningTokenConfig {
    type V = TokenConfigModel;

    open spec fn view(&self) -> TokenConfigModel {
        TokenConfigModel {
            voter_weight_addin: opt_key_view(self.voter_weight_addin),
            max_voter_weight_addin: opt_key_view(self.max_voter_weight_addin),
            token_type: self.token_type,
            reserved: self.reserved@,
            lock_authorities: keys_view(self.lock_authorities@),
        }
    }
}

/// The realm config account.
#[derive(Clone, Debug)]
pub struct RealmConfigAccount {
    pub realm: Pubkey,
    pub community_token_config: GoverningTokenConfig,
    pub council_token_config: GoverningTokenConfig,
    pub reserved: [u8; 110],
}

pub struct RealmConfigAccountModel {
    pub realm: Seq<u8>,
    pub community_token_config: TokenConfigModel,
    pub council_token_config: TokenConfigModel,
    pub reserved: Seq<u8>,
}

impl View for RealmConfigAccount {
    type V = RealmConfigAccountModel;

    open spec fn view(&self) -> RealmConfigAccountModel {
        RealmConfigAccountModel {
            realm: self.realm@,
            community_token_config: self.community_token_config@,
            council_token_config: self.council_token_config@,
            reserved: self.reserved@,
        }
    }
}

/// The type tag of a realm config account.
pub const REALM_CONFIG_TAG: u8 = 11;

// ----- layout -----

pub open spec fn enc_keys(ks: Seq<Seq<u8>>) -> Seq<u8>
    decreases ks.len(),
{
    if ks.len() == 0 {
        Seq::empty()
    } else {
        enc_keys(ks.drop_last()) + ks.last()
    }
}

pub open spec fn enc_token_config(c: TokenConfigModel) -> Seq<u8> {
    enc_opt_key(c.voter_weight_addin) + enc_opt_key(c.max_voter_weight_addin) + seq![
        token_type_tag(c.token_type),
    ] + c.reserved + enc_u32(c.lock_authorities.len() as u32) + enc_keys(c.lock_authorities)
}

pub open spec fn realm_config_bytes(c: RealmConfigAccountModel) -> Seq<u8> {
    seq![REALM_CONFIG_TAG] + c.realm + enc_token_config(c.community_token_config)
        + enc_token_config(c.council_token_config) + c.reserved
}

pub open spec fn parse_token_type(s: Seq<u8>, p: int) -> Option<(GoverningTokenType, int)> {
    match parse_u8(s, p) {
        Some((b, q)) => if b == 0 {
            Some((GoverningTokenType::Liquid, q))
        } else if b == 1 {
            Some((GoverningTokenType::Membership, q))
        } else if b == 2 {
            Some((GoverningTokenType::Dormant, q))
        } else {
            None
        },
        None => None,
    }
}

/// Reads `n` addresses in a row.
pub open spec fn parse_keys(s: Seq<u8>, p: int, n: nat) -> Option<(Seq<Seq<u8>>, int)>
    decreases n,
{
    if n == 0 {
        Some((Seq::empty(), p))
    } else {
        match parse_keys(s, p, (n - 1) as nat) {
            Some((ks, q)) => match parse_bytes(s, q, 32) {
                Some((k, q2)) => Some((ks.push(k), q2)),
                None => None,
            },
            None => None,
        }
    }
}

pub open spec fn parse_token_config(s: Seq<u8>, p: int) -> Option<(TokenConfigModel, int)> {
    match parse_opt_key(s, p) {
        Some((vw, at1)) => match parse_opt_key(s, at1) {
            Some((mvw, at2)) => match parse_token_type(s, at2) {
                Some((tt, at3)) => match parse_bytes(s, at3, 4) {
                    Some((res, at4)) => match parse_u32(s, at4) {
                        Some((n, at5)) => match parse_keys(s, at5, n as nat) {
                            Some((ks, at6)) => Some(
                                (
                                    TokenConfigModel {
                                        voter_weight_addin: vw,
                                        max_voter_weight_addin: mvw,
                                        token_type: tt,
                                        reserved: res,
                                        lock_authorities: ks,
                                    },
                                    at6,
                                ),
                            ),
                            None => None,
                        },
                        None => None,
                    },
                    None => None,
                },
                None => None,
            },
            None => None,
        },
        None => None,
    }
}

/// The realm config that bytes tagged as one decode to.
pub open spec fn parse_realm_config(s: Seq<u8>) -> Option<RealmConfigAccountModel> {
    if s.len() >= 1 && s[0] == REALM_CONFIG_TAG {
        match parse_bytes(s, 1, 32) {
            Some((realm, at1)) => match parse_token_config(s, at1) {
                Some((community, at2)) => match parse_token_config(s, at2) {
                    Some((council, at3)) => match parse_bytes(s, at3, 110) {
                        Some((res, _)) => Some(
                            RealmConfigAccountModel {
                                realm: realm,
                                community_token_config: community,
                                council_token_config: council,
                                reserved: res,
                            },
                        ),
                        None => None,
                    },
                    None => None,
                },
                None => None,
            },
            None => None,
        }
    } else {
        None
    }
}


fn read_token_type(data: &[u8], pos: usize) -> (r: Option<(GoverningTokenType, usize)>)
    ensures
        match r {
            Some((v, q)) => parse_token_type(data@, pos as int) == Some((v, q as int)),
            None => parse_token_type(data@, pos as int) is None,
        },
{
    match read_u8(data, pos) {
        Some((b, q)) => {
            if b == 0 {
                Some((GoverningTokenType::Liquid, q))
            } else if b == 1 {
                Some((GoverningTokenType::Membership, q))
            } else if b == 2 {
                Some((GoverningTokenType::Dormant, q))
            } else {
                None
            }
        },
        None => None,
    }
}

/// Once an address cannot be read, no longer run of addresses can be.
proof fn lemma_parse_keys_stops(s: Seq<u8>, p: int, i: nat, n: nat)
    requires
        i < n,
        parse_keys(s, p, i) matches Some((_, q)) && parse_bytes(s, q, 32) is None,
    ensures
        parse_keys(s, p, n) is None,
    decreases n - i,
{
    if n > i + 1 {
        lemma_parse_keys_stops(s, p, i, (n - 1) as nat);
    }
}

fn read_keys(data: &[u8], pos: usize, n: u32) -> (r: Option<(Vec<Pubkey>, usize)>)
    ensures
        match r {
            Some((v, q)) => parse_keys(data@, pos as int, n as nat) == Some(
                (keys_view(v@), q as int),
            ),
            None => parse_keys(data@, pos as int, n as nat) is None,
        },
{
    let mut v: Vec<Pubkey> = Vec::new();
    let mut p: usize = pos;
    let mut i: u32 = 0;
    while i < n
        invariant
            0 <= i <= n,
            parse_keys(data@, pos as int, i as nat) == Some((keys_view(v@), p as int)),
        decreases n - i,
    {
        match read_key(data, p) {
            Some((k, q)) => {
                proof {
                    assert(keys_view(v@.push(k)) =~= keys_view(v@).push(k@));
                }
                v.push(k);
                p = q;
            },
            None => {
                proof {
                    lemma_parse_keys_stops(data@, pos as int, i as nat, n as nat);
                }
                return None;
            },
        }
        i = i + 1;
    }
    Some((v, p))
}

fn read_token_config(data: &[u8], pos: usize) -> (r: Option<(GoverningTokenConfig, usize)>)
    ensures
        match r {
            Some((v, q)) => parse_token_config(data@, pos as int) == Some((v@, q as int)),
            None => parse_token_config(data@, pos as int) is None,
        },
{
    let (vw, at1) = match read_opt_key(data, pos) {
        Some(x) => x,
        None => return None,
    };
    let (mvw, at2) = match read_opt_key(data, at1) {
        Some(x) => x,
        None => return None,
    };
    let (tt, at3) = match read_token_type(data, at2) {
        Some(x) => x,
        None => return None,
    };
    let (res, at4) = match read_array::<4>(data, at3) {
        Some(x) => x,
        None => return None,
    };
    let (n, at5) = match read_u32(data, at4) {
        Some(x) => x,
        None => return None,
    };
    let (ks, at6) = match read_keys(data, at5, n) {
        Some(x) => x,
        None => return None,
    };
    Some(
        (
            GoverningTokenConfig {
                voter_weight_addin: vw,
                max_voter_weight_addin: mvw,
                token_type: tt,
                reserved: res,
                lock_authorities: ks,
            },
            at6,
        ),
    )
}

/// Decodes the bytes of a realm config account.
pub fn decode_realm_config(data: &[u8]) -> (r: Option<RealmConfigAccount>)
    ensures
        match r {
            Some(v) => parse_realm_config(data@) == Some(v@),
            None => parse_realm_config(data@) is None,
        },
{
    if data.len() < 1 || data[0] != REALM_CONFIG_TAG {
        return None;
    }
    let (realm, at1) = match read_key(data, 1) {
        Some(x) => x,
        None => return None,
    };
    let (community, at2) = match read_token_config(data, at1) {
        Some(x) => x,
        None => return None,
    };
    let (council, at3) = match read_token_config(data, at2) {
        Some(x) => x,
        None => return None,
    };
    let (res, _) = match read_array::<110>(data, at3) {
        Some(x) => x,
        None => return None,
    };
    Some(
        RealmConfigAccount {
            realm,
            community_token_config: community,
            council_token_config: council,
            reserved: res,
        },
    )
}

fn encode_token_config(c: &GoverningTokenConfig, out: &mut Vec<u8>)
    requires
        c.lock_authorities@.len() <= u32::MAX,
    ensures
        final(out)@ == old(out)@ + enc_token_config(c@),
{
    write_opt_key(out, &c.voter_weight_addin);
    write_opt_key(out, &c.max_voter_weight_addin);
    let tag: u8 = match c.token_type {
        GoverningTokenType::Liquid => 0,
        GoverningTokenType::Membership => 1,
        GoverningTokenType::Dormant => 2,
    };
    write_u8(out, tag);
    push_all(out, c.reserved.as_slice());
    write_u32(out, c.lock_authorities.len() as u32);
    let ghost start = out@;
    let mut i: usize = 0;
    while i < c.lock_authorities.len()
        invariant
            0 <= i <= c.lock_authorities@.len(),
            out@ == start + enc_keys(keys_view(c.lock_authorities@.subrange(0, i as int))),
        decreases c.lock_authorities@.len() - i,
    {
        write_key(out, &c.lock_authorities[i]);
        proof {
            let before = keys_view(c.lock_authorities@.subrange(0, i as int));
            let after = keys_view(c.lock_authorities@.subrange(0, i + 1));
            assert(after.drop_last() =~= before);
        }
        i = i + 1;
    }
    assert(c.lock_authorities@.subrange(0, c.lock_authorities@.len() as int)
        =~= c.lock_authorities@);
    assert(final(out)@ =~= old(out)@ + enc_token_config(c@));
}

/// The bytes of a realm config account.
pub fn encode_realm_config(c: &RealmConfigAccount) -> (e: Vec<u8>)
    requires
        c.community_token_config.lock_authorities@.len() <= u32::MAX,
        c.council_token_config.lock_authorities@.len() <= u32::MAX,
    ensures
        e@ == realm_config_bytes(c@),
{
    let mut out: Vec<u8> = Vec::new();
    out.push(REALM_CONFIG_TAG);
    write_key(&mut out, &c.realm);
    encode_token_config(&c.community_token_config, &mut out);
    encode_token_config(&c.council_token_config, &mut out);
    push_all(&mut out, c.reserved.as_slice());
    assert(out@ =~= realm_config_bytes(c@));
    out
}

/// The default config of a mint: no plugins, liquid tokens.
pub open spec fn default_token_config() -> TokenConfigModel {
    TokenConfigModel {
        voter_weight_addin: None,
        max_voter_weight_addin: None,
        token_type: GoverningTokenType::Liquid,
        reserved: zeros(4),
        lock_authorities: Seq::empty(),
    }
}

impl GoverningTokenConfig {
    /// No plugins, liquid tokens, no lock authorities.
    pub fn new_default() -> (r: GoverningTokenConfig)
        ensures
            r@ == default_token_config(),
    {
        let reserved: [u8; 4] = [0u8; 4];
        assert(reserved@ =~= zeros(4));
        let lock_authorities: Vec<Pubkey> = Vec::new();
        assert(keys_view(lock_authorities@) =~= Seq::<Seq<u8>>::empty());
        GoverningTokenConfig {
            voter_weight_addin: None,
            max_voter_weight_addin: None,
            token_type: GoverningTokenType::Liquid,
            reserved,
            lock_authorities,
        }
    }
}

/// Seed of a realm config account's address: "realm-config".
pub open spec fn realm_config_seed() -> Seq<u8> {
    seq![114u8, 101u8, 97u8, 108u8, 109u8, 45u8, 99u8, 111u8, 110u8, 102u8, 105u8, 103u8]
}

pub open spec fn realm_config_seeds(realm: Seq<u8>) -> Seq<Seq<u8>> {
    seq![realm_config_seed(), realm]
}

/// Returns the seeds of a realm config account's address.
pub fn get_realm_config_address_seeds(realm: &Pubkey) -> (r: Vec<Vec<u8>>)
    ensures
        seeds_view(r@) == realm_config_seeds(realm@),
{
    let seed: Vec<u8> = vec![114u8, 101u8, 97u8, 108u8, 109u8, 45u8, 99u8, 111u8, 110u8, 102u8, 105u8, 103u8];
    assert(seed@ =~= realm_config_seed());
    let mut r: Vec<Vec<u8>> = Vec::new();
    r.push(seed);
    r.push(realm.to_vec());
    assert(seeds_view(r@) =~= realm_config_seeds(realm@));
    r
}

/// What loading the config account of a realm gives. An empty account at the
/// derived address stands for the default config.
pub open spec fn realm_config_data(
    program_id: Seq<u8>,
    key: Seq<u8>,
    owner: Seq<u8>,
    data: Seq<u8>,
    realm: Seq<u8>,
) -> Result<RealmConfigAccountModel, GovernanceError> {
    if data.len() == 0 {
        match derived_address(realm_config_seeds(realm), program_id) {
            None => Err(GovernanceError::AddressDerivationFailed),
            Some(a) => if a != key {
                Err(GovernanceError::InvalidRealmConfigForRealm)
            } else {
                Ok(
                    RealmConfigAccountModel {
                        realm: realm,
                        community_token_config: default_token_config(),
                        council_token_config: default_token_config(),
                        reserved: zeros(110),
                    },
                )
            },
        }
    } else if owner != program_id {
        Err(GovernanceError::InvalidAccountOwner)
    } else if data[0] != REALM_CONFIG_TAG {
        Err(GovernanceError::InvalidAccountType)
    } else {
        match parse_realm_config(data) {
            None => Err(GovernanceError::InvalidAccountData),
            Some(c) => if c.realm != realm {
                Err(GovernanceError::InvalidRealmConfigForRealm)
            } else {
                Ok(c)
            },
        }
    }
}

pub open spec fn config_result_view(r: Result<RealmConfigAccount, GovernanceError>) -> Result<
    RealmConfigAccountModel,
    GovernanceError,
> {
    match r {
        Ok(v) => Ok(v@),
        Err(e) => Err(e),
    }
}

/// Loads the config account of a realm; an empty account at the derived
/// address gives the default config.
pub fn get_realm_config_data_for_realm(
    program_id: &Pubkey,
    realm_config_info: &AccountInfo,
    realm: &Pubkey,
) -> (r: Result<RealmConfigAccount, GovernanceError>)
    ensures
        config_result_view(r) == realm_config_data(
            program_id@,
            realm_config_info.key@,
            realm_config_info.owner@,
            realm_config_info.data@,
            realm@,
        ),
{
    if realm_config_info.data_is_empty() {
        return match find_program_address(&get_realm_config_address_seeds(realm), program_id) {
            None => Err(GovernanceError::AddressDerivationFailed),
            Some(a) => {
                if a != realm_config_info.key {
                    Err(GovernanceError::InvalidRealmConfigForRealm)
                } else {
                    let reserved: [u8; 110] = [0u8; 110];
                    assert(reserved@ =~= zeros(110));
                    Ok(
                        RealmConfigAccount {
                            realm: *realm,
                            community_token_config: GoverningTokenConfig::new_default(),
                            council_token_config: GoverningTokenConfig::new_default(),
                            reserved,
                        },
                    )
                }
            },
        };
    }
    if realm_config_info.owner != *program_id {
        return Err(GovernanceError::InvalidAccountOwner);
    }
    if realm_config_info.data[0] != REALM_CONFIG_TAG {
        return Err(GovernanceError::InvalidAccountType);
    }
    match decode_realm_config(realm_config_info.data.as_slice()) {
        None => Err(GovernanceError::InvalidAccountData),
        Some(c) => {
            if c.realm != *realm {
                return Err(GovernanceError::InvalidRealmConfigForRealm);
            }
            Ok(c)
        },
    }
}

/// The config of a realm's mint: the community config for the community
/// mint, the council config for the council mint.
pub open spec fn token_config_of(c: RealmConfigAccountModel, r: RealmModel, mint: Seq<u8>) -> Option<
    TokenConfigModel,
> {
    if r.community_mint == mint {
        Some(c.community_token_config)
    } else if r.config.council_mint == Some(mint) {
        Some(c.council_token_config)
    } else {
        None
    }
}

/// Whether deposits of the mint are refused, or the error of an unknown mint.
pub open spec fn deposit_permission(c: RealmConfigAccountModel, r: RealmModel, mint: Seq<u8>) -> Result<
    (),
    GovernanceError,
> {
    match token_config_of(c, r, mint) {
        None => Err(GovernanceError::InvalidGoverningTokenMint),
        Some(t) => if t.token_type == GoverningTokenType::Dormant {
            Err(GovernanceError::CannotDepositDormantTokens)
        } else {
            Ok(())
        },
    }
}

/// Whether revokes of the mint are allowed: only membership tokens are
/// revocable.
pub open spec fn revoke_permission(c: RealmConfigAccountModel, r: RealmModel, mint: Seq<u8>) -> Result<
    (),
    GovernanceError,
> {
    match token_config_of(c, r, mint) {
        None => Err(GovernanceError::InvalidGoverningTokenMint),
        Some(t) => if t.token_type != GoverningTokenType::Membership {
            Err(GovernanceError::CannotRevokeGoverningTokens)
        } else {
            Ok(())
        },
    }
}

impl RealmConfigAccount {
    /// Returns the config of one of the realm's mints.
    pub fn get_token_config(&self, realm_data: &RealmV2, governing_token_mint: &Pubkey) -> (r:
        Result<&GoverningTokenConfig, GovernanceError>)
        ensures
            match token_config_of(self@, realm_data@, governing_token_mint@) {
                Some(t) => r matches Ok(c) && c@ == t,
                None => r == Err::<&GoverningTokenConfig, GovernanceError>(
                    GovernanceError::InvalidGoverningTokenMint,
                ),
            },
    {
        if realm_data.community_mint == *governing_token_mint {
            return Ok(&self.community_token_config);
        }
        match realm_data.config.council_mint {
            Some(council) => {
                if council == *governing_token_mint {
                    return Ok(&self.council_token_config);
                }
            },
            None => {},
        }
        Err(GovernanceError::InvalidGoverningTokenMint)
    }

    /// Asserts that the mint's tokens may be deposited: they are not dormant.
    pub fn assert_can_deposit_governing_token(
        &self,
        realm_data: &RealmV2,
        governing_token_mint: &Pubkey,
    ) -> (r: Result<(), GovernanceError>)
        ensures
            r == deposit_permission(self@, realm_data@, governing_token_mint@),
    {
        let c = self.get_token_config(realm_data, governing_token_mint)?;
        if c.token_type == GoverningTokenType::Dormant {
            return Err(GovernanceError::CannotDepositDormantTokens);
        }
        Ok(())
    }

    /// Asserts that the mint's tokens may be revoked: they are membership
    /// tokens.
    pub fn assert_can_revoke_governing_token(
        &self,
        realm_data: &RealmV2,
        governing_token_mint: &Pubkey,
    ) -> (r: Result<(), GovernanceError>)
        ensures
            r == revoke_permission(self@, realm_data@, governing_token_mint@),
    {
        let c = self.get_token_config(realm_data, governing_token_mint)?;
        if c.token_type != GoverningTokenType::Membership {
            return Err(GovernanceError::CannotRevokeGoverningTokens);
        }
        Ok(())
    }
}

} // verus!
