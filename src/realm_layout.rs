//! The stored layouts of a realm, current and legacy, and the registry's
//! loaders.
//!
//! Both layouts hold, in order: the type tag, the community mint, the config,
//! a flag byte, five reserved bytes, a 16-bit counter, the optional authority
//! and the name. In the current layout the flag byte is the token-standard
//! flag, and 128 reserved bytes follow the name. A legacy realm has no
//! token-standard flag: the byte in its place is reserved and must be zero.
//! It is read with the flag unset, the added bytes at zero and its counter as
//! stored, and is written back in the legacy layout.

use crate::account::{written_over, write_over, AccountInfo};
use crate::codec::{
    lemma_bool_bytes, lemma_max_source_bytes, lemma_opt_key_bytes, lemma_string_bytes,
    lemma_u16_bytes, lemma_u64_bytes, lemma_u8_bytes,
    enc_bool, enc_max_source, enc_opt_key, enc_string, enc_u16, enc_u64, enc_u8,
    parse_bool, parse_bytes, parse_max_source, parse_opt_key, parse_string, parse_u16, parse_u64,
    parse_u8, read_array, read_bool, read_key, read_max_source, read_opt_key, read_string,
    read_u16, read_u64, read_u8, push_all, write_bool, write_key, write_max_source, write_opt_key,
    write_string, write_u16, write_u64, write_u8,
};
use crate::enums::{account_type_tag, GovernanceAccountType};
use crate::error::GovernanceError;
use crate::pubkey::Pubkey;
use crate::realm::{
    is_governing_mint, RealmConfig, RealmConfigModel, RealmModel, RealmV2,
};
use vstd::prelude::*;

verus! {

pub open spec fn enc_config(c: RealmConfigModel) -> Seq<u8> {
    enc_u8(c.legacy1) + enc_u8(c.legacy2) + c.reserved + enc_u64(
        c.min_community_weight_to_create_governance,
    ) + enc_max_source(c.community_mint_max_voter_weight_source) + enc_opt_key(c.council_mint)
}

/// The fields that both layouts share, with the flag and counter given.
pub open spec fn enc_realm_common(r: RealmModel, flag: bool, counter: u16) -> Seq<u8> {
    enc_u8(account_type_tag(r.account_type)) + r.community_mint + enc_config(r.config) + enc_bool(
        flag,
    ) + r.reserved + enc_u16(counter) + enc_opt_key(r.authority) + enc_string(r.name)
}

/// What `serialize` writes for a realm: the current layout for a current
/// realm, the legacy layout for a legacy one.
pub open spec fn realm_bytes(r: RealmModel) -> Seq<u8> {
    if r.account_type == GovernanceAccountType::RealmV2 {
        enc_realm_common(r, r.is_token_2022, r.legacy1) + r.reserved_v2
    } else {
        enc_realm_common(r, false, r.legacy1)
    }
}

pub open spec fn zeros(n: nat) -> Seq<u8> {
    Seq::new(n, |i: int| 0u8)
}

pub open spec fn parse_config(s: Seq<u8>, p: int) -> Option<(RealmConfigModel, int)> {
    match parse_u8(s, p) {
        Some((l1, at1)) => match parse_u8(s, at1) {
            Some((l2, at2)) => match parse_bytes(s, at2, 6) {
                Some((res, at3)) => match parse_u64(s, at3) {
                    Some((w, at4)) => match parse_max_source(s, at4) {
                        Some((m, at5)) => match parse_opt_key(s, at5) {
                            Some((c, at6)) => Some(
                                (
                                    RealmConfigModel {
                                        legacy1: l1,
                                        legacy2: l2,
                                        reserved: res,
                                        min_community_weight_to_create_governance: w,
                                        community_mint_max_voter_weight_source: m,
                                        council_mint: c,
                                    },
                                    at6,
                                ),
                            ),
                            None => None,
                        },
                        None => None,
                    },
                    None => None,
                },
                None => None,
            },
            None => None,
        },
        None => None,
    }
}

/// Reads the shared fields of a realm whose tag is a realm tag. The flag and
/// counter are as stored; the added reserved bytes are left empty.
pub open spec fn parse_realm_common(s: Seq<u8>) -> Option<(RealmModel, int)> {
    if s.len() >= 1 && (s[0] == 1 || s[0] == 16) {
        let t = if s[0] == 1 {
            GovernanceAccountType::RealmV1
        } else {
            GovernanceAccountType::RealmV2
        };
        match parse_bytes(s, 1, 32) {
            Some((mint, at1)) => match parse_config(s, at1) {
                Some((c, at2)) => match parse_bool(s, at2) {
                    Some((flag, at3)) => match parse_bytes(s, at3, 5) {
                        Some((res, at4)) => match parse_u16(s, at4) {
                            Some((counter, at5)) => match parse_opt_key(s, at5) {
                                Some((auth, at6)) => match parse_string(s, at6) {
                                    Some((name, at7)) => Some(
                                        (
                                            RealmModel {
                                                account_type: t,
                                                community_mint: mint,
                                                config: c,
                                                is_token_2022: flag,
                                                reserved: res,
                                                legacy1: counter,
                                                authority: auth,
                                                name: name,
                                                reserved_v2: Seq::empty(),
                                            },
                                            at7,
                                        ),
                                    ),
                                    None => None,
                                },
                                None => None,
                            },
                            None => None,
                        },
                        None => None,
                    },
                    None => None,
                },
                None => None,
            },
            None => None,
        }
    } else {
        None
    }
}

/// The realm that bytes holding a realm tag decode to, a legacy one migrated.
/// A legacy realm has no token-standard flag: the byte in its place is
/// reserved and must be zero.
pub open spec fn parse_realm(s: Seq<u8>) -> Option<RealmModel> {
    match parse_realm_common(s) {
        Some((m, q)) => if m.account_type == GovernanceAccountType::RealmV1 {
            if m.is_token_2022 {
                None
            } else {
                Some(RealmModel { reserved_v2: zeros(128), ..m })
            }
        } else {
            match parse_bytes(s, q, 128) {
                Some((r2, _)) => Some(RealmModel { reserved_v2: r2, ..m }),
                None => None,
            }
        },
        None => None,
    }
}

/// What loading a realm account gives.
pub open spec fn realm_data(program_id: Seq<u8>, owner: Seq<u8>, data: Seq<u8>) -> Result<
    RealmModel,
    GovernanceError,
> {
    if owner != program_id {
        Err(GovernanceError::InvalidAccountOwner)
    } else if data.len() == 0 || !(data[0] == 1 || data[0] == 16) {
        Err(GovernanceError::InvalidAccountType)
    } else {
        match parse_realm(data) {
            Some(m) => Ok(m),
            None => Err(GovernanceError::InvalidAccountData),
        }
    }
}

pub open spec fn realm_result_view(r: Result<RealmV2, GovernanceError>) -> Result<
    RealmModel,
    GovernanceError,
> {
    match r {
        Ok(v) => Ok(v@),
        Err(e) => Err(e),
    }
}

fn read_config(data: &[u8], pos: usize) -> (r: Option<(RealmConfig, usize)>)
    ensures
        match r {
            Some((v, q)) => parse_config(data@, pos as int) == Some((v@, q as int)),
            None => parse_config(data@, pos as int) is None,
        },
{
    let (l1, at1) = match read_u8(data, pos) {
        Some(x) => x,
        None => return None,
    };
    let (l2, at2) = match read_u8(data, at1) {
        Some(x) => x,
        None => return None,
    };
    let (res, at3) = match read_array::<6>(data, at2) {
        Some(x) => x,
        None => return None,
    };
    let (w, at4) = match read_u64(data, at3) {
        Some(x) => x,
        None => return None,
    };
    let (m, at5) = match read_max_source(data, at4) {
        Some(x) => x,
        None => return None,
    };
    let (c, at6) = match read_opt_key(data, at5) {
        Some(x) => x,
        None => return None,
    };
    let v = RealmConfig {
        legacy1: l1,
        legacy2: l2,
        reserved: res,
        min_community_weight_to_create_governance: w,
        community_mint_max_voter_weight_source: m,
        council_mint: c,
    };
    Some((v, at6))
}


/// Decodes the bytes of a realm of either layout. A legacy realm comes back
/// with the token-standard flag unset and the added reserved bytes at zero,
/// its counter as stored; one whose reserved byte in the flag's place is not
/// zero is refused.
pub fn decode_realm(data: &[u8]) -> (r: Option<RealmV2>)
    ensures
        match r {
            Some(v) => parse_realm(data@) == Some(v@),
            None => parse_realm(data@) is None,
        },
{
    if data.len() < 1 || !(data[0] == 1 || data[0] == 16) {
        return None;
    }
    let legacy = data[0] == 1;
    let t = if legacy {
        GovernanceAccountType::RealmV1
    } else {
        GovernanceAccountType::RealmV2
    };
    let (mint, at1) = match read_key(data, 1) {
        Some(x) => x,
        None => return None,
    };
    let (c, at2) = match read_config(data, at1) {
        Some(x) => x,
        None => return None,
    };
    let (flag, at3) = match read_bool(data, at2) {
        Some(x) => x,
        None => return None,
    };
    let (res, at4) = match read_array::<5>(data, at3) {
        Some(x) => x,
        None => return None,
    };
    let (counter, at5) = match read_u16(data, at4) {
        Some(x) => x,
        None => return None,
    };
    let (auth, at6) = match read_opt_key(data, at5) {
        Some(x) => x,
        None => return None,
    };
    let (name, at7) = match read_string(data, at6) {
        Some(x) => x,
        None => return None,
    };
    if legacy {
        if flag {
            return None;
        }
        let r2: [u8; 128] = [0u8; 128];
        assert(r2@ =~= zeros(128));
        Some(
            RealmV2 {
                account_type: t,
                community_mint: mint,
                config: c,
                is_token_2022: flag,
                reserved: res,
                legacy1: counter,
                authority: auth,
                name,
                reserved_v2: r2,
            },
        )
    } else {
        let (r2, _) = match read_array::<128>(data, at7) {
            Some(x) => x,
            None => return None,
        };
        Some(
            RealmV2 {
                account_type: t,
                community_mint: mint,
                config: c,
                is_token_2022: flag,
                reserved: res,
                legacy1: counter,
                authority: auth,
                name,
                reserved_v2: r2,
            },
        )
    }
}

/// Loads a realm: the account must be owned by the program and tagged as a
/// realm of either version; a legacy realm is migrated on read.
pub fn get_realm_data(program_id: &Pubkey, realm_info: &AccountInfo) -> (r: Result<
    RealmV2,
    GovernanceError,
>)
    ensures
        realm_result_view(r) == realm_data(program_id@, realm_info.owner@, realm_info.data@),
{
    if realm_info.owner != *program_id {
        return Err(GovernanceError::InvalidAccountOwner);
    }
    let data = realm_info.data.as_slice();
    if data.len() == 0 || !(data[0] == 1 || data[0] == 16) {
        return Err(GovernanceError::InvalidAccountType);
    }
    match decode_realm(data) {
        Some(v) => Ok(v),
        None => Err(GovernanceError::InvalidAccountData),
    }
}


/// The outcome of validating a realm account without reading its fields.
pub open spec fn realm_account_check(program_id: Seq<u8>, owner: Seq<u8>, data: Seq<u8>) -> Result<
    (),
    GovernanceError,
> {
    if owner != program_id {
        Err(GovernanceError::InvalidAccountOwner)
    } else if data.len() == 0 || data[0] >= crate::enums::ACCOUNT_TYPE_COUNT {
        Err(GovernanceError::InvalidAccountData)
    } else if !(data[0] == 1 || data[0] == 16) {
        Err(GovernanceError::InvalidAccountType)
    } else {
        Ok(())
    }
}

/// Checks that the account is owned by the program and tagged as a realm of
/// either version.
pub fn assert_is_valid_realm(program_id: &Pubkey, realm_info: &AccountInfo) -> (r: Result<
    (),
    GovernanceError,
>)
    ensures
        r == realm_account_check(program_id@, realm_info.owner@, realm_info.data@),
{
    if realm_info.owner != *program_id {
        return Err(GovernanceError::InvalidAccountOwner);
    }
    if realm_info.data.len() == 0 {
        return Err(GovernanceError::InvalidAccountData);
    }
    match GovernanceAccountType::from_tag(realm_info.data[0]) {
        Some(t) => {
            if crate::realm::is_realm_account_type(&t) {
                Ok(())
            } else {
                Err(GovernanceError::InvalidAccountType)
            }
        },
        None => Err(GovernanceError::InvalidAccountData),
    }
}

/// What loading a realm for a claimed authority gives.
pub open spec fn realm_data_for_authority(
    program_id: Seq<u8>,
    owner: Seq<u8>,
    data: Seq<u8>,
    authority: Seq<u8>,
) -> Result<RealmModel, GovernanceError> {
    match realm_data(program_id, owner, data) {
        Ok(m) => match m.authority {
            None => Err(GovernanceError::RealmHasNoAuthority),
            Some(a) => if a == authority {
                Ok(m)
            } else {
                Err(GovernanceError::InvalidAuthorityForRealm)
            },
        },
        Err(e) => Err(e),
    }
}

/// Loads a realm and checks that the given authority is the realm's.
pub fn get_realm_data_for_authority(
    program_id: &Pubkey,
    realm_info: &AccountInfo,
    realm_authority: &Pubkey,
) -> (r: Result<RealmV2, GovernanceError>)
    ensures
        realm_result_view(r) == realm_data_for_authority(
            program_id@,
            realm_info.owner@,
            realm_info.data@,
            realm_authority@,
        ),
{
    let realm_data = get_realm_data(program_id, realm_info)?;
    match realm_data.authority {
        None => Err(GovernanceError::RealmHasNoAuthority),
        Some(a) => {
            if a != *realm_authority {
                return Err(GovernanceError::InvalidAuthorityForRealm);
            }
            Ok(realm_data)
        },
    }
}

/// What loading a realm for one of its governing mints gives.
pub open spec fn realm_data_for_mint(
    program_id: Seq<u8>,
    owner: Seq<u8>,
    data: Seq<u8>,
    mint: Seq<u8>,
) -> Result<RealmModel, GovernanceError> {
    match realm_data(program_id, owner, data) {
        Ok(m) => if is_governing_mint(m, mint) {
            Ok(m)
        } else {
            Err(GovernanceError::InvalidGoverningTokenMint)
        },
        Err(e) => Err(e),
    }
}

/// Loads a realm and checks that the mint is its community or council mint.
pub fn get_realm_data_for_governing_token_mint(
    program_id: &Pubkey,
    realm_info: &AccountInfo,
    governing_token_mint: &Pubkey,
) -> (r: Result<RealmV2, GovernanceError>)
    ensures
        realm_result_view(r) == realm_data_for_mint(
            program_id@,
            realm_info.owner@,
            realm_info.data@,
            governing_token_mint@,
        ),
{
    let realm_data = get_realm_data(program_id, realm_info)?;
    realm_data.assert_is_valid_governing_token_mint(governing_token_mint)?;
    Ok(realm_data)
}

/// What `serialize` does to an account's bytes: the error, or the new bytes.
pub open spec fn realm_write(r: RealmModel, data: Seq<u8>) -> Result<Seq<u8>, GovernanceError> {
    if r.account_type == GovernanceAccountType::RealmV2 || r.account_type
        == GovernanceAccountType::RealmV1 {
        if r.account_type == GovernanceAccountType::RealmV1 && (r.reserved_v2 != zeros(128)
            || r.is_token_2022) {
            Err(GovernanceError::ExtendedDataNotSupported)
        } else if realm_bytes(r).len() > data.len() {
            Err(GovernanceError::AccountDataTooSmall)
        } else {
            Ok(written_over(realm_bytes(r), data))
        }
    } else {
        Ok(data)
    }
}

fn encode_config(c: &RealmConfig, out: &mut Vec<u8>)
    ensures
        final(out)@ == old(out)@ + enc_config(c@),
{
    write_u8(out, c.legacy1);
    write_u8(out, c.legacy2);
    push_all(out, c.reserved.as_slice());
    write_u64(out, c.min_community_weight_to_create_governance);
    write_max_source(out, &c.community_mint_max_voter_weight_source);
    write_opt_key(out, &c.council_mint);
    assert(final(out)@ =~= old(out)@ + enc_config(c@));
}

/// The bytes of a realm in the layout of its version.
pub fn encode_realm(r: &RealmV2) -> (e: Vec<u8>)
    requires
        vstd::utf8::encode_utf8(r.name@).len() <= u32::MAX,
    ensures
        e@ == realm_bytes(r@),
{
    let current = r.account_type == GovernanceAccountType::RealmV2;
    let mut out: Vec<u8> = Vec::new();
    write_u8(&mut out, r.account_type.to_tag());
    write_key(&mut out, &r.community_mint);
    encode_config(&r.config, &mut out);
    write_bool(&mut out, if current { r.is_token_2022 } else { false });
    push_all(&mut out, r.reserved.as_slice());
    write_u16(&mut out, r.legacy1);
    write_opt_key(&mut out, &r.authority);
    write_string(&mut out, &r.name);
    if current {
        push_all(&mut out, r.reserved_v2.as_slice());
    }
    assert(out@ =~= realm_bytes(r@));
    out
}

fn is_zero_padding(b: &[u8; 128]) -> (r: bool)
    ensures
        r == (b@ == zeros(128)),
{
    let mut i: usize = 0;
    while i < 128
        invariant
            0 <= i <= 128,
            forall|j: int| 0 <= j < i ==> b@[j] == 0,
        decreases 128 - i,
    {
        if b[i] != 0 {
            assert(b@[i as int] != zeros(128)[i as int]);
            return false;
        }
        i = i + 1;
    }
    assert(b@ =~= zeros(128));
    true
}

impl RealmV2 {
    /// Writes the realm over the start of the account's bytes: a current realm
    /// in the current layout, a legacy realm in the legacy layout, so that a
    /// legacy account never grows. A legacy realm marked as of the extensible
    /// token standard, or whose added reserved bytes are not all zero, is
    /// refused: the legacy layout can hold neither. A record of another type
    /// writes nothing.
    pub fn serialize(self, data: &mut Vec<u8>) -> (r: Result<(), GovernanceError>)
        requires
            vstd::utf8::encode_utf8(self.name@).len() <= u32::MAX,
        ensures
            match realm_write(self@, old(data)@) {
                Ok(d) => r is Ok && final(data)@ == d,
                Err(e) => r == Err::<(), GovernanceError>(e) && final(data)@ == old(data)@,
            },
    {
        let current = self.account_type == GovernanceAccountType::RealmV2;
        let legacy = self.account_type == GovernanceAccountType::RealmV1;
        if !current && !legacy {
            return Ok(());
        }
        if legacy && (!is_zero_padding(&self.reserved_v2) || self.is_token_2022) {
            return Err(GovernanceError::ExtendedDataNotSupported);
        }
        let e = encode_realm(&self);
        if e.len() > data.len() {
            return Err(GovernanceError::AccountDataTooSmall);
        }
        write_over(data, &e);
        Ok(())
    }

    /// The largest number of bytes the realm takes in the current layout.
    pub fn get_max_size(&self) -> (r: Option<usize>)
        requires
            vstd::utf8::encode_utf8(self.name@).len() + 264 <= usize::MAX,
        ensures
            r == Some((vstd::utf8::encode_utf8(self.name@).len() + 264) as usize),
    {
        Some(self.name.as_str().len() + 264)
    }
}


/// A current realm's stored size is its name's length plus 264 bytes, less
/// 32 for each of the council mint and the authority that is absent: the
/// size `get_max_size` gives is the size with both present.
pub proof fn lemma_realm_size(r: RealmV2)
    requires
        r.account_type == GovernanceAccountType::RealmV2,
        vstd::utf8::encode_utf8(r.name@).len() <= u32::MAX,
    ensures
        realm_bytes(r@).len() + (if r.config.council_mint is None {
            32int
        } else {
            0int
        }) + (if r.authority is None {
            32int
        } else {
            0int
        }) == vstd::utf8::encode_utf8(r.name@).len() + 264,
{
    vstd::bytes::lemma_auto_spec_u16_to_from_le_bytes();
    vstd::bytes::lemma_auto_spec_u32_to_from_le_bytes();
    vstd::bytes::lemma_auto_spec_u64_to_from_le_bytes();
    assert(enc_u64(r.config.min_community_weight_to_create_governance).len() == 8);
    assert(enc_max_source(r.config.community_mint_max_voter_weight_source).len() == 9);
    assert(enc_u16(r.legacy1).len() == 2);
    assert(crate::codec::enc_u32(vstd::utf8::encode_utf8(r.name@).len() as u32).len() == 4);
}

proof fn lemma_config_bytes(s: Seq<u8>, p: int)
    ensures
        parse_config(s, p) matches Some((c, q)) ==> p <= q && s.subrange(p, q) == enc_config(c),
{
    if let Some((c, q)) = parse_config(s, p) {
        let (_, at1) = parse_u8(s, p).unwrap();
        let (_, at2) = parse_u8(s, at1).unwrap();
        let (_, at3) = parse_bytes(s, at2, 6).unwrap();
        let (_, at4) = parse_u64(s, at3).unwrap();
        let (_, at5) = parse_max_source(s, at4).unwrap();
        lemma_u8_bytes(s, p);
        lemma_u8_bytes(s, at1);
        lemma_u64_bytes(s, at3);
        lemma_max_source_bytes(s, at4);
        lemma_opt_key_bytes(s, at5);
        assert(s.subrange(p, q) =~= s.subrange(p, at1) + s.subrange(at1, at2) + s.subrange(at2, at3)
            + s.subrange(at3, at4) + s.subrange(at4, at5) + s.subrange(at5, q));
    }
}

proof fn lemma_realm_common_bytes(s: Seq<u8>)
    ensures
        parse_realm_common(s) matches Some((m, q)) ==> 0 <= q <= s.len() && s.subrange(0, q)
            == enc_realm_common(m, m.is_token_2022, m.legacy1),
{
    if let Some((m, q)) = parse_realm_common(s) {
        let at1 = 33int;
        let (_, at2) = parse_config(s, at1).unwrap();
        let (_, at3) = parse_bool(s, at2).unwrap();
        let (_, at4) = parse_bytes(s, at3, 5).unwrap();
        let (_, at5) = parse_u16(s, at4).unwrap();
        let (_, at6) = parse_opt_key(s, at5).unwrap();
        lemma_config_bytes(s, at1);
        lemma_bool_bytes(s, at2);
        lemma_u16_bytes(s, at4);
        lemma_opt_key_bytes(s, at5);
        lemma_string_bytes(s, at6);
        assert(s.subrange(0, 1) =~= enc_u8(account_type_tag(m.account_type)));
        assert(s.subrange(0, q) =~= s.subrange(0, 1) + s.subrange(1, at1) + s.subrange(at1, at2)
            + s.subrange(at2, at3) + s.subrange(at3, at4) + s.subrange(at4, at5) + s.subrange(at5, at6)
            + s.subrange(at6, q));
    }
}

/// A realm loaded from an account and written back leaves the account's bytes
/// as they were, in either layout. A legacy realm is loaded with the fields
/// its layout lacks (the token-standard flag and the added reserved bytes)
/// at zero, and written back in the legacy layout.
pub proof fn lemma_realm_load_store_identical(program_id: Seq<u8>, owner: Seq<u8>, data: Seq<u8>)
    requires
        realm_data(program_id, owner, data) is Ok,
    ensures
        realm_data(program_id, owner, data) matches Ok(m) && (m.account_type
            == GovernanceAccountType::RealmV1 ==> !m.is_token_2022 && m.reserved_v2 == zeros(
            128,
        )) && realm_write(m, data) == Ok::<
            Seq<u8>,
            GovernanceError,
        >(data),
{
    lemma_realm_common_bytes(data);
    let (raw, q) = parse_realm_common(data).unwrap();
    let m = parse_realm(data).unwrap();
    if raw.account_type == GovernanceAccountType::RealmV2 {
        assert(data.subrange(0, q + 128) =~= data.subrange(0, q) + data.subrange(q, q + 128));
        assert(realm_bytes(m) == data.subrange(0, q + 128));
    } else {
        assert(realm_bytes(m) == data.subrange(0, q));
    }
    assert(written_over(realm_bytes(m), data) =~= data);
}

} // verus!
