//! The token owner record: one member's deposit ledger for one realm and mint.
//!
//! Current layout, in order: the type tag, the realm, the governing token
//! mint, the owner, the deposited amount, the unrelinquished vote count, the
//! outstanding proposal count, the layout version, six reserved bytes, the
//! optional delegate, 124 reserved bytes and the lock entries (a `u32` count,
//! then each lock's type byte, authority and optional expiry). The legacy
//! layout stops after the delegate.

use crate::account::{written_over, write_over, AccountInfo};
use crate::codec::{
    lemma_opt_key_bytes, lemma_u32_bytes, lemma_u64_bytes, lemma_u8_bytes,
    enc_opt_key, enc_u32, enc_u64, enc_u8, opt_key_view, parse_bytes, parse_opt_key, parse_u32,
    parse_u64, parse_u8, push_all, read_array, read_key, read_opt_key, read_u32, read_u64, read_u8,
    write_key, write_opt_key, write_u32, write_u64, write_u8,
};
use crate::enums::{account_type_tag, GovernanceAccountType};
use crate::error::GovernanceError;
use crate::pubkey::{derived_address, find_program_address, seeds_view, Pubkey};
use crate::realm::{authority_seed, program_authority_seed};
use crate::realm_layout::zeros;
use vstd::prelude::*;

verus! {

/// The layout version that records are created with.
pub const TOKEN_OWNER_RECORD_LAYOUT_VERSION: u8 = 1;

/// A lock on a record's tokens, set by a lock authority of the realm.
#[derive(Clone, Copy, Debug)]
pub struct TokenOwnerRecordLock {
    pub lock_id: u8,
    pub authority: Pubkey,
    /// When the lock ends, as a unix timestamp; never where absent.
    pub expiry: Option<i64>,
}

pub struct LockModel {
    pub lock_id: u8,
    pub authority: Seq<u8>,
    pub expiry: Option<i64>,
}

impl View for TokenOwnerRecordLock {
    type V = LockModel;

    open spec fn view(&self) -> LockModel {
        LockModel { lock_id: self.lock_id, authority: self.authority@, expiry: self.expiry }
    }
}

/// A member's deposit ledger for one realm and one governing token mint.
#[derive(Clone, Debug)]
pub struct TokenOwnerRecordV2 {
    pub account_type: GovernanceAccountType,
    pub realm: Pubkey,
    pub governing_token_mint: Pubkey,
    pub governing_token_owner: Pubkey,
    /// The net amount deposited: all deposits less all revokes.
    pub governing_token_deposit_amount: u64,
    pub unrelinquished_votes_count: u64,
    pub outstanding_proposal_count: u8,
    pub version: u8,
    pub reserved: [u8; 6],
    pub governance_delegate: Option<Pubkey>,
    pub reserved_v2: [u8; 124],
    pub locks: Vec<TokenOwnerRecordLock>,
}

pub struct RecordModel {
    pub account_type: GovernanceAccountType,
    pub realm: Seq<u8>,
    pub governing_token_mint: Seq<u8>,
    pub governing_token_owner: Seq<u8>,
    pub governing_token_deposit_amount: u64,
    pub unrelinquished_votes_count: u64,
    pub outstanding_proposal_count: u8,
    pub version: u8,
    pub reserved: Seq<u8>,
    pub governance_delegate: Option<Seq<u8>>,
    pub reserved_v2: Seq<u8>,
    pub locks: Seq<LockModel>,
}

impl View for TokenOwnerRecordV2 {
    type V = RecordModel;

    open spec fn view(&self) -> RecordModel {
        RecordModel {
            account_type: self.account_type,
            realm: self.realm@,
            governing_token_mint: self.governing_token_mint@,
            governing_token_owner: self.governing_token_owner@,
            governing_token_deposit_amount: self.governing_token_deposit_amount,
            unrelinquished_votes_count: self.unrelinquished_votes_count,
            outstanding_proposal_count: self.outstanding_proposal_count,
            version: self.version,
            reserved: self.reserved@,
            governance_delegate: opt_key_view(self.governance_delegate),
            reserved_v2: self.reserved_v2@,
            locks: self.locks@.map_values(|l: TokenOwnerRecordLock| l@),
        }
    }
}

// ----- layout -----

/// The two's complement bits of a signed value.
pub open spec fn i64_bits(v: i64) -> u64 {
    if v >= 0 {
        v as u64
    } else {
        (v + 0x1_0000_0000_0000_0000) as u64
    }
}

/// The signed value of two's complement bits.
pub open spec fn bits_i64(x: u64) -> i64 {
    if x <= 0x7fff_ffff_ffff_ffff {
        x as i64
    } else {
        (x - 0x1_0000_0000_0000_0000) as i64
    }
}

fn to_bits(v: i64) -> (r: u64)
    ensures
        r == i64_bits(v),
{
    if v >= 0 {
        v as u64
    } else {
        ((v - i64::MIN) as u64) + 0x8000_0000_0000_0000
    }
}

fn from_bits(x: u64) -> (r: i64)
    ensures
        r == bits_i64(x),
{
    if x <= 0x7fff_ffff_ffff_ffff {
        x as i64
    } else {
        ((x - 0x8000_0000_0000_0000) as i64) + i64::MIN
    }
}

pub open spec fn enc_opt_i64(o: Option<i64>) -> Seq<u8> {
    match o {
        Some(v) => seq![1u8] + enc_u64(i64_bits(v)),
        None => seq![0u8],
    }
}

pub open spec fn enc_lock(l: LockModel) -> Seq<u8> {
    enc_u8(l.lock_id) + l.authority + enc_opt_i64(l.expiry)
}

pub open spec fn enc_locks(ls: Seq<LockModel>) -> Seq<u8>
    decreases ls.len(),
{
    if ls.len() == 0 {
        Seq::empty()
    } else {
        enc_locks(ls.drop_last()) + enc_lock(ls.last())
    }
}

/// The fields that both layouts share.
pub open spec fn enc_record_common(r: RecordModel) -> Seq<u8> {
    enc_u8(account_type_tag(r.account_type)) + r.realm + r.governing_token_mint
        + r.governing_token_owner + enc_u64(r.governing_token_deposit_amount) + enc_u64(
        r.unrelinquished_votes_count,
    ) + enc_u8(r.outstanding_proposal_count) + enc_u8(r.version) + r.reserved + enc_opt_key(
        r.governance_delegate,
    )
}

/// What `serialize` writes for a record: the current layout for a current
/// record, the legacy layout for a legacy one.
pub open spec fn record_bytes(r: RecordModel) -> Seq<u8> {
    if r.account_type == GovernanceAccountType::TokenOwnerRecordV2 {
        enc_record_common(r) + r.reserved_v2 + enc_u32(r.locks.len() as u32) + enc_locks(r.locks)
    } else {
        enc_record_common(r)
    }
}

pub open spec fn parse_opt_i64(s: Seq<u8>, p: int) -> Option<(Option<i64>, int)> {
    if 0 <= p < s.len() && s[p] == 0 {
        Some((None, p + 1))
    } else if 0 <= p < s.len() && s[p] == 1 {
        match parse_u64(s, p + 1) {
            Some((v, q)) => Some((Some(bits_i64(v)), q)),
            None => None,
        }
    } else {
        None
    }
}

pub open spec fn parse_lock(s: Seq<u8>, p: int) -> Option<(LockModel, int)> {
    match parse_u8(s, p) {
        Some((id, at1)) => match parse_bytes(s, at1, 32) {
            Some((a, at2)) => match parse_opt_i64(s, at2) {
                Some((e, at3)) => Some((LockModel { lock_id: id, authority: a, expiry: e }, at3)),
                None => None,
            },
            None => None,
        },
        None => None,
    }
}

/// Reads `n` locks in a row.
pub open spec fn parse_locks(s: Seq<u8>, p: int, n: nat) -> Option<(Seq<LockModel>, int)>
    decreases n,
{
    if n == 0 {
        Some((Seq::empty(), p))
    } else {
        match parse_locks(s, p, (n - 1) as nat) {
            Some((ls, q)) => match parse_lock(s, q) {
                Some((l, q2)) => Some((ls.push(l), q2)),
                None => None,
            },
            None => None,
        }
    }
}

/// Reads the shared fields of a record whose tag is a record tag; the added
/// reserved bytes and the locks are left empty.
pub open spec fn parse_record_common(s: Seq<u8>) -> Option<(RecordModel, int)> {
    if s.len() >= 1 && (s[0] == 2 || s[0] == 17) {
        let t = if s[0] == 2 {
            GovernanceAccountType::TokenOwnerRecordV1
        } else {
            GovernanceAccountType::TokenOwnerRecordV2
        };
        match parse_bytes(s, 1, 32) {
            Some((realm, at1)) => match parse_bytes(s, at1, 32) {
                Some((mint, at2)) => match parse_bytes(s, at2, 32) {
                    Some((owner, at3)) => match parse_u64(s, at3) {
                        Some((amount, at4)) => match parse_u64(s, at4) {
                            Some((votes, at5)) => match parse_u8(s, at5) {
                                Some((proposals, at6)) => match parse_u8(s, at6) {
                                    Some((version, at7)) => match parse_bytes(s, at7, 6) {
                                        Some((res, at8)) => match parse_opt_key(s, at8) {
                                            Some((delegate, at9)) => Some(
                                                (
                                                    RecordModel {
                                                        account_type: t,
                                                        realm: realm,
                                                        governing_token_mint: mint,
                                                        governing_token_owner: owner,
                                                        governing_token_deposit_amount: amount,
                                                        unrelinquished_votes_count: votes,
                                                        outstanding_proposal_count: proposals,
                                                        version: version,
                                                        reserved: res,
                                                        governance_delegate: delegate,
                                                        reserved_v2: Seq::empty(),
                                                        locks: Seq::empty(),
                                                    },
                                                    at9,
                                                ),
                                            ),
                                            None => None,
                                        },
                                        None => None,
                                    },
                                    None => None,
                                },
                                None => None,
                            },
                            None => None,
                        },
                        None => None,
                    },
                    None => None,
                },
                None => None,
            },
            None => None,
        }
    } else {
        None
    }
}

/// The record that bytes holding a record tag decode to; a legacy record comes
/// with its added reserved bytes at zero and no locks.
pub open spec fn parse_record(s: Seq<u8>) -> Option<RecordModel> {
    match parse_record_common(s) {
        Some((m, q)) => if m.account_type == GovernanceAccountType::TokenOwnerRecordV1 {
            Some(RecordModel { reserved_v2: zeros(124), locks: Seq::empty(), ..m })
        } else {
            match parse_bytes(s, q, 124) {
                Some((r2, q2)) => match parse_u32(s, q2) {
                    Some((n, q3)) => match parse_locks(s, q3, n as nat) {
                        Some((ls, _)) => Some(RecordModel { reserved_v2: r2, locks: ls, ..m }),
                        None => None,
                    },
                    None => None,
                },
                None => None,
            }
        },
        None => None,
    }
}


pub open spec fn locks_view(ls: Seq<TokenOwnerRecordLock>) -> Seq<LockModel> {
    ls.map_values(|l: TokenOwnerRecordLock| l@)
}

fn read_opt_i64(data: &[u8], pos: usize) -> (r: Option<(Option<i64>, usize)>)
    ensures
        match r {
            Some((v, q)) => parse_opt_i64(data@, pos as int) == Some((v, q as int)),
            None => parse_opt_i64(data@, pos as int) is None,
        },
{
    if pos < data.len() && data[pos] == 0 {
        Some((None, pos + 1))
    } else if pos < data.len() && data[pos] == 1 {
        match read_u64(data, pos + 1) {
            Some((v, q)) => Some((Some(from_bits(v)), q)),
            None => None,
        }
    } else {
        None
    }
}

fn read_lock(data: &[u8], pos: usize) -> (r: Option<(TokenOwnerRecordLock, usize)>)
    ensures
        match r {
            Some((v, q)) => parse_lock(data@, pos as int) == Some((v@, q as int)),
            None => parse_lock(data@, pos as int) is None,
        },
{
    let (id, at1) = match read_u8(data, pos) {
        Some(x) => x,
        None => return None,
    };
    let (a, at2) = match read_key(data, at1) {
        Some(x) => x,
        None => return None,
    };
    let (e, at3) = match read_opt_i64(data, at2) {
        Some(x) => x,
        None => return None,
    };
    Some((TokenOwnerRecordLock { lock_id: id, authority: a, expiry: e }, at3))
}

fn read_locks(data: &[u8], pos: usize, n: u32) -> (r: Option<(Vec<TokenOwnerRecordLock>, usize)>)
    ensures
        match r {
            Some((v, q)) => parse_locks(data@, pos as int, n as nat) == Some(
                (locks_view(v@), q as int),
            ),
            None => parse_locks(data@, pos as int, n as nat) is None,
        },
{
    let mut v: Vec<TokenOwnerRecordLock> = Vec::new();
    let mut p: usize = pos;
    let mut i: u32 = 0;
    while i < n
        invariant
            0 <= i <= n,
            parse_locks(data@, pos as int, i as nat) == Some((locks_view(v@), p as int)),
        decreases n - i,
    {
        match read_lock(data, p) {
            Some((l, q)) => {
                proof {
                    assert(locks_view(v@.push(l)) =~= locks_view(v@).push(l@));
                }
                v.push(l);
                p = q;
            },
            None => {
                proof {
                    lemma_parse_locks_stops(data@, pos as int, i as nat, n as nat);
                }
                return None;
            },
        }
        i = i + 1;
    }
    Some((v, p))
}

/// A run of `n` locks holds `n` locks.
pub proof fn lemma_parse_locks_len(s: Seq<u8>, p: int, n: nat)
    ensures
        parse_locks(s, p, n) matches Some((ls, _)) ==> ls.len() == n,
    decreases n,
{
    if n > 0 {
        lemma_parse_locks_len(s, p, (n - 1) as nat);
    }
}

/// A decoded record holds no more locks than a count can say.
pub proof fn lemma_parse_record_locks(s: Seq<u8>)
    ensures
        parse_record(s) matches Some(m) ==> m.locks.len() <= u32::MAX,
{
    if let Some((m, q)) = parse_record_common(s) {
        if m.account_type != GovernanceAccountType::TokenOwnerRecordV1 {
            if let Some((_, q2)) = parse_bytes(s, q, 124) {
                if let Some((n, q3)) = parse_u32(s, q2) {
                    lemma_parse_locks_len(s, q3, n as nat);
                }
            }
        }
    }
}

/// Once a lock cannot be read, no longer run of locks can be.
proof fn lemma_parse_locks_stops(s: Seq<u8>, p: int, i: nat, n: nat)
    requires
        i < n,
        parse_locks(s, p, i) matches Some((_, q)) && parse_lock(s, q) is None,
    ensures
        parse_locks(s, p, n) is None,
    decreases n - i,
{
    if n > i + 1 {
        lemma_parse_locks_stops(s, p, i, (n - 1) as nat);
    }
}

/// Decodes the bytes of a record of either layout; a legacy record comes back
/// with its added reserved bytes at zero and no locks.
pub fn decode_token_owner_record(data: &[u8]) -> (r: Option<TokenOwnerRecordV2>)
    ensures
        match r {
            Some(v) => parse_record(data@) == Some(v@),
            None => parse_record(data@) is None,
        },
{
    if data.len() < 1 || !(data[0] == 2 || data[0] == 17) {
        return None;
    }
    let legacy = data[0] == 2;
    let t = if legacy {
        GovernanceAccountType::TokenOwnerRecordV1
    } else {
        GovernanceAccountType::TokenOwnerRecordV2
    };
    let (realm, at1) = match read_key(data, 1) {
        Some(x) => x,
        None => return None,
    };
    let (mint, at2) = match read_key(data, at1) {
        Some(x) => x,
        None => return None,
    };
    let (owner, at3) = match read_key(data, at2) {
        Some(x) => x,
        None => return None,
    };
    let (amount, at4) = match read_u64(data, at3) {
        Some(x) => x,
        None => return None,
    };
    let (votes, at5) = match read_u64(data, at4) {
        Some(x) => x,
        None => return None,
    };
    let (proposals, at6) = match read_u8(data, at5) {
        Some(x) => x,
        None => return None,
    };
    let (version, at7) = match read_u8(data, at6) {
        Some(x) => x,
        None => return None,
    };
    let (res, at8) = match read_array::<6>(data, at7) {
        Some(x) => x,
        None => return None,
    };
    let (delegate, at9) = match read_opt_key(data, at8) {
        Some(x) => x,
        None => return None,
    };
    if legacy {
        let r2: [u8; 124] = [0u8; 124];
        assert(r2@ =~= zeros(124));
        let locks: Vec<TokenOwnerRecordLock> = Vec::new();
        assert(locks_view(locks@) =~= Seq::<LockModel>::empty());
        return Some(
            TokenOwnerRecordV2 {
                account_type: t,
                realm,
                governing_token_mint: mint,
                governing_token_owner: owner,
                governing_token_deposit_amount: amount,
                unrelinquished_votes_count: votes,
                outstanding_proposal_count: proposals,
                version,
                reserved: res,
                governance_delegate: delegate,
                reserved_v2: r2,
                locks,
            },
        );
    }
    let (r2, q2) = match read_array::<124>(data, at9) {
        Some(x) => x,
        None => return None,
    };
    let (n, q3) = match read_u32(data, q2) {
        Some(x) => x,
        None => return None,
    };
    let (locks, _) = match read_locks(data, q3, n) {
        Some(x) => x,
        None => return None,
    };
    Some(
        TokenOwnerRecordV2 {
            account_type: t,
            realm,
            governing_token_mint: mint,
            governing_token_owner: owner,
            governing_token_deposit_amount: amount,
            unrelinquished_votes_count: votes,
            outstanding_proposal_count: proposals,
            version,
            reserved: res,
            governance_delegate: delegate,
            reserved_v2: r2,
            locks,
        },
    )
}

fn write_lock(out: &mut Vec<u8>, l: &TokenOwnerRecordLock)
    ensures
        final(out)@ == old(out)@ + enc_lock(l@),
{
    write_u8(out, l.lock_id);
    write_key(out, &l.authority);
    match l.expiry {
        Some(e) => {
            out.push(1u8);
            write_u64(out, to_bits(e));
        },
        None => {
            out.push(0u8);
        },
    }
    assert(final(out)@ =~= old(out)@ + enc_lock(l@));
}

/// The bytes of a record in the layout of its version.
pub fn encode_token_owner_record(r: &TokenOwnerRecordV2) -> (e: Vec<u8>)
    requires
        r.locks@.len() <= u32::MAX,
    ensures
        e@ == record_bytes(r@),
{
    let mut out: Vec<u8> = Vec::new();
    write_u8(&mut out, r.account_type.to_tag());
    write_key(&mut out, &r.realm);
    write_key(&mut out, &r.governing_token_mint);
    write_key(&mut out, &r.governing_token_owner);
    write_u64(&mut out, r.governing_token_deposit_amount);
    write_u64(&mut out, r.unrelinquished_votes_count);
    write_u8(&mut out, r.outstanding_proposal_count);
    write_u8(&mut out, r.version);
    push_all(&mut out, r.reserved.as_slice());
    write_opt_key(&mut out, &r.governance_delegate);
    assert(out@ =~= enc_record_common(r@));
    if r.account_type == GovernanceAccountType::TokenOwnerRecordV2 {
        push_all(&mut out, r.reserved_v2.as_slice());
        write_u32(&mut out, r.locks.len() as u32);
        let ghost start = out@;
        let mut i: usize = 0;
        while i < r.locks.len()
            invariant
                0 <= i <= r.locks@.len(),
                out@ == start + enc_locks(locks_view(r.locks@.subrange(0, i as int))),
            decreases r.locks@.len() - i,
        {
            write_lock(&mut out, &r.locks[i]);
            proof {
                let before = locks_view(r.locks@.subrange(0, i as int));
                let after = locks_view(r.locks@.subrange(0, i + 1));
                assert(after.drop_last() =~= before);
                assert(after.last() == r.locks@[i as int]@);
            }
            i = i + 1;
        }
        assert(r.locks@.subrange(0, r.locks@.len() as int) =~= r.locks@);
    }
    out
}


proof fn lemma_opt_i64_bytes(s: Seq<u8>, p: int)
    ensures
        parse_opt_i64(s, p) matches Some((v, q)) ==> p <= q <= s.len() && s.subrange(p, q)
            == enc_opt_i64(v),
{
    lemma_u64_bytes(s, p + 1);
    if 0 <= p < s.len() && s[p] == 0 {
        assert(s.subrange(p, p + 1) =~= seq![0u8]);
    } else if let Some((Some(v), q)) = parse_opt_i64(s, p) {
        let x = parse_u64(s, p + 1).unwrap().0;
        assert(i64_bits(bits_i64(x)) == x);
        assert(s.subrange(p, q) =~= seq![1u8] + s.subrange(p + 1, q));
    }
}

proof fn lemma_lock_bytes(s: Seq<u8>, p: int)
    ensures
        parse_lock(s, p) matches Some((l, q)) ==> p <= q <= s.len() && s.subrange(p, q) == enc_lock(
            l,
        ),
{
    if let Some((l, q)) = parse_lock(s, p) {
        lemma_u8_bytes(s, p);
        lemma_opt_i64_bytes(s, p + 33);
        assert(s.subrange(p, q) =~= s.subrange(p, p + 1) + s.subrange(p + 1, p + 33) + s.subrange(
            p + 33,
            q,
        ));
    }
}

proof fn lemma_locks_bytes(s: Seq<u8>, p: int, n: nat)
    requires
        0 <= p <= s.len(),
    ensures
        parse_locks(s, p, n) matches Some((ls, q)) ==> p <= q <= s.len() && s.subrange(p, q)
            == enc_locks(ls),
    decreases n,
{
    if n > 0 {
        lemma_locks_bytes(s, p, (n - 1) as nat);
        if let Some((ls, q)) = parse_locks(s, p, n) {
            let (prev, q1) = parse_locks(s, p, (n - 1) as nat).unwrap();
            lemma_lock_bytes(s, q1);
            assert(ls.drop_last() =~= prev);
            assert(s.subrange(p, q) =~= s.subrange(p, q1) + s.subrange(q1, q));
        }
    } else {
        assert(s.subrange(p, p) =~= Seq::<u8>::empty());
    }
}

proof fn lemma_record_common_bytes(s: Seq<u8>)
    ensures
        parse_record_common(s) matches Some((m, q)) ==> 0 <= q <= s.len() && s.subrange(0, q)
            == enc_record_common(m),
{
    if let Some((m, q)) = parse_record_common(s) {
        lemma_u64_bytes(s, 97);
        lemma_u64_bytes(s, 105);
        lemma_u8_bytes(s, 113);
        lemma_u8_bytes(s, 114);
        lemma_opt_key_bytes(s, 121);
        assert(s.subrange(0, 1) =~= enc_u8(account_type_tag(m.account_type)));
        assert(s.subrange(0, q) =~= s.subrange(0, 1) + s.subrange(1, 33) + s.subrange(33, 65)
            + s.subrange(65, 97) + s.subrange(97, 105) + s.subrange(105, 113) + s.subrange(113, 114)
            + s.subrange(114, 115) + s.subrange(115, 121) + s.subrange(121, q));
    }
}

/// A record loaded from an account and written back leaves the account's
/// bytes as they were, in either layout: a legacy record is loaded with its
/// added reserved bytes at zero and no locks, and written back in the legacy
/// layout.
pub proof fn lemma_record_load_store_identical(program_id: Seq<u8>, owner: Seq<u8>, data: Seq<u8>)
    requires
        record_data(program_id, owner, data) is Ok,
    ensures
        record_data(program_id, owner, data) matches Ok(m) && (m.account_type
            == GovernanceAccountType::TokenOwnerRecordV1 ==> m.reserved_v2 == zeros(124)
            && m.locks.len() == 0) && record_write(m, data) == Ok::<Seq<u8>, GovernanceError>(data),
{
    lemma_record_common_bytes(data);
    let (raw, q) = parse_record_common(data).unwrap();
    let m = parse_record(data).unwrap();
    if raw.account_type == GovernanceAccountType::TokenOwnerRecordV2 {
        let (n, q3) = parse_u32(data, q + 124).unwrap();
        let (_, q4) = parse_locks(data, q3, n as nat).unwrap();
        lemma_u32_bytes(data, q + 124);
        lemma_locks_bytes(data, q3, n as nat);
        lemma_parse_locks_len(data, q3, n as nat);
        assert(data.subrange(0, q4) =~= data.subrange(0, q) + data.subrange(q, q + 124)
            + data.subrange(q + 124, q3) + data.subrange(q3, q4));
        assert(record_bytes(m) == data.subrange(0, q4));
    } else {
        assert(record_bytes(m) == data.subrange(0, q));
    }
    assert(written_over(record_bytes(m), data) =~= data);
}

/// Seeds of a record's address: the authority seed, the realm, the mint and
/// the owner.
pub open spec fn record_seeds(realm: Seq<u8>, mint: Seq<u8>, owner: Seq<u8>) -> Seq<Seq<u8>> {
    seq![authority_seed(), realm, mint, owner]
}

/// Record addresses are derived deterministically: the same program, realm,
/// mint and owner give the same address; and a different realm, mint or owner
/// gives a different list of seeds to derive from.
pub proof fn lemma_record_derivation(
    program_id: Seq<u8>,
    realm1: Seq<u8>,
    mint1: Seq<u8>,
    owner1: Seq<u8>,
    realm2: Seq<u8>,
    mint2: Seq<u8>,
    owner2: Seq<u8>,
)
    ensures
        realm1 == realm2 && mint1 == mint2 && owner1 == owner2 ==> derived_address(
            record_seeds(realm1, mint1, owner1),
            program_id,
        ) == derived_address(record_seeds(realm2, mint2, owner2), program_id),
        realm1 != realm2 || mint1 != mint2 || owner1 != owner2 ==> record_seeds(realm1, mint1, owner1)
            != record_seeds(realm2, mint2, owner2),
{
    let a = record_seeds(realm1, mint1, owner1);
    let b = record_seeds(realm2, mint2, owner2);
    if a == b {
        assert(a[1] == realm1 && b[1] == realm2);
        assert(a[2] == mint1 && b[2] == mint2);
        assert(a[3] == owner1 && b[3] == owner2);
    }
}

/// Returns the seeds of a record's address.
pub fn get_token_owner_record_address_seeds(
    realm: &Pubkey,
    governing_token_mint: &Pubkey,
    governing_token_owner: &Pubkey,
) -> (r: Vec<Vec<u8>>)
    ensures
        seeds_view(r@) == record_seeds(realm@, governing_token_mint@, governing_token_owner@),
{
    let mut r: Vec<Vec<u8>> = Vec::new();
    r.push(program_authority_seed());
    r.push(realm.to_vec());
    r.push(governing_token_mint.to_vec());
    r.push(governing_token_owner.to_vec());
    assert(seeds_view(r@) =~= record_seeds(realm@, governing_token_mint@, governing_token_owner@));
    r
}

/// Returns the address of the record of a realm, mint and owner, `None` where
/// none can be derived.
pub fn get_token_owner_record_address(
    program_id: &Pubkey,
    realm: &Pubkey,
    governing_token_mint: &Pubkey,
    governing_token_owner: &Pubkey,
) -> (r: Option<Pubkey>)
    ensures
        match r {
            Some(a) => derived_address(
                record_seeds(realm@, governing_token_mint@, governing_token_owner@),
                program_id@,
            ) == Some(a@),
            None => derived_address(
                record_seeds(realm@, governing_token_mint@, governing_token_owner@),
                program_id@,
            ) is None,
        },
{
    find_program_address(
        &get_token_owner_record_address_seeds(realm, governing_token_mint, governing_token_owner),
        program_id,
    )
}

/// What loading a record account gives.
pub open spec fn record_data(program_id: Seq<u8>, owner: Seq<u8>, data: Seq<u8>) -> Result<
    RecordModel,
    GovernanceError,
> {
    if owner != program_id {
        Err(GovernanceError::InvalidAccountOwner)
    } else if data.len() == 0 || !(data[0] == 2 || data[0] == 17) {
        Err(GovernanceError::InvalidAccountType)
    } else {
        match parse_record(data) {
            Some(m) => Ok(m),
            None => Err(GovernanceError::InvalidAccountData),
        }
    }
}

pub open spec fn record_result_view(r: Result<TokenOwnerRecordV2, GovernanceError>) -> Result<
    RecordModel,
    GovernanceError,
> {
    match r {
        Ok(v) => Ok(v@),
        Err(e) => Err(e),
    }
}

/// Loads a record: the account must be owned by the program and tagged as a
/// record of either version; a legacy record is migrated on read.
pub fn get_token_owner_record_data(program_id: &Pubkey, info: &AccountInfo) -> (r: Result<
    TokenOwnerRecordV2,
    GovernanceError,
>)
    ensures
        record_result_view(r) == record_data(program_id@, info.owner@, info.data@),
{
    if info.owner != *program_id {
        return Err(GovernanceError::InvalidAccountOwner);
    }
    let data = info.data.as_slice();
    if data.len() == 0 || !(data[0] == 2 || data[0] == 17) {
        return Err(GovernanceError::InvalidAccountType);
    }
    match decode_token_owner_record(data) {
        Some(v) => Ok(v),
        None => Err(GovernanceError::InvalidAccountData),
    }
}

/// What loading a record at the address derived from the seeds gives.
pub open spec fn record_data_for_seeds(
    program_id: Seq<u8>,
    key: Seq<u8>,
    owner: Seq<u8>,
    data: Seq<u8>,
    seeds: Seq<Seq<u8>>,
) -> Result<RecordModel, GovernanceError> {
    match derived_address(seeds, program_id) {
        None => Err(GovernanceError::AddressDerivationFailed),
        Some(a) => if a != key {
            Err(GovernanceError::InvalidTokenOwnerRecordAccountAddress)
        } else {
            record_data(program_id, owner, data)
        },
    }
}

/// Loads a record and checks that it stands at the address derived from the
/// seeds.
pub fn get_token_owner_record_data_for_seeds(
    program_id: &Pubkey,
    info: &AccountInfo,
    seeds: &Vec<Vec<u8>>,
) -> (r: Result<TokenOwnerRecordV2, GovernanceError>)
    ensures
        record_result_view(r) == record_data_for_seeds(
            program_id@,
            info.key@,
            info.owner@,
            info.data@,
            seeds_view(seeds@),
        ),
{
    match find_program_address(seeds, program_id) {
        None => Err(GovernanceError::AddressDerivationFailed),
        Some(a) => {
            if a != info.key {
                return Err(GovernanceError::InvalidTokenOwnerRecordAccountAddress);
            }
            get_token_owner_record_data(program_id, info)
        },
    }
}

/// What loading a record of a given realm gives.
pub open spec fn record_data_for_realm(
    program_id: Seq<u8>,
    owner: Seq<u8>,
    data: Seq<u8>,
    realm: Seq<u8>,
) -> Result<RecordModel, GovernanceError> {
    match record_data(program_id, owner, data) {
        Ok(m) => if m.realm != realm {
            Err(GovernanceError::InvalidRealmForTokenOwnerRecord)
        } else {
            Ok(m)
        },
        Err(e) => Err(e),
    }
}

/// Loads a record and checks that it belongs to the realm.
pub fn get_token_owner_record_data_for_realm(
    program_id: &Pubkey,
    info: &AccountInfo,
    realm: &Pubkey,
) -> (r: Result<TokenOwnerRecordV2, GovernanceError>)
    ensures
        record_result_view(r) == record_data_for_realm(program_id@, info.owner@, info.data@, realm@),
{
    let data = get_token_owner_record_data(program_id, info)?;
    if data.realm != *realm {
        return Err(GovernanceError::InvalidRealmForTokenOwnerRecord);
    }
    Ok(data)
}

/// What loading a record of a given realm and mint gives.
pub open spec fn record_data_for_realm_and_mint(
    program_id: Seq<u8>,
    owner: Seq<u8>,
    data: Seq<u8>,
    realm: Seq<u8>,
    mint: Seq<u8>,
) -> Result<RecordModel, GovernanceError> {
    match record_data_for_realm(program_id, owner, data, realm) {
        Ok(m) => if m.governing_token_mint != mint {
            Err(GovernanceError::InvalidGoverningMintForTokenOwnerRecord)
        } else {
            Ok(m)
        },
        Err(e) => Err(e),
    }
}

/// Loads a record and checks that it belongs to the realm and the mint.
pub fn get_token_owner_record_data_for_realm_and_governing_mint(
    program_id: &Pubkey,
    info: &AccountInfo,
    realm: &Pubkey,
    governing_token_mint: &Pubkey,
) -> (r: Result<TokenOwnerRecordV2, GovernanceError>)
    ensures
        record_result_view(r) == record_data_for_realm_and_mint(
            program_id@,
            info.owner@,
            info.data@,
            realm@,
            governing_token_mint@,
        ),
{
    let data = get_token_owner_record_data_for_realm(program_id, info, realm)?;
    if data.governing_token_mint != *governing_token_mint {
        return Err(GovernanceError::InvalidGoverningMintForTokenOwnerRecord);
    }
    Ok(data)
}

/// What `serialize` does to an account's bytes: the error, or the new bytes.
pub open spec fn record_write(r: RecordModel, data: Seq<u8>) -> Result<Seq<u8>, GovernanceError> {
    if r.account_type == GovernanceAccountType::TokenOwnerRecordV2 || r.account_type
        == GovernanceAccountType::TokenOwnerRecordV1 {
        if r.account_type == GovernanceAccountType::TokenOwnerRecordV1 && (r.reserved_v2 != zeros(
            124,
        ) || r.locks.len() != 0) {
            Err(GovernanceError::ExtendedDataNotSupported)
        } else if record_bytes(r).len() > data.len() {
            Err(GovernanceError::AccountDataTooSmall)
        } else {
            Ok(written_over(record_bytes(r), data))
        }
    } else {
        Ok(data)
    }
}

fn is_zero_reserve(b: &[u8; 124]) -> (r: bool)
    ensures
        r == (b@ == zeros(124)),
{
    let mut i: usize = 0;
    while i < 124
        invariant
            0 <= i <= 124,
            forall|j: int| 0 <= j < i ==> b@[j] == 0,
        decreases 124 - i,
    {
        if b[i] != 0 {
            assert(b@[i as int] != zeros(124)[i as int]);
            return false;
        }
        i = i + 1;
    }
    assert(b@ =~= zeros(124));
    true
}

impl TokenOwnerRecordV2 {
    /// Writes the record over the start of the account's bytes: a current
    /// record in the current layout, a legacy record in the legacy layout. A
    /// legacy record with locks or non-zero added reserved bytes is refused. A
    /// record of another type writes nothing.
    pub fn serialize(&self, data: &mut Vec<u8>) -> (r: Result<(), GovernanceError>)
        requires
            self.locks@.len() <= u32::MAX,
        ensures
            match record_write(self@, old(data)@) {
                Ok(d) => r is Ok && final(data)@ == d,
                Err(e) => r == Err::<(), GovernanceError>(e) && final(data)@ == old(data)@,
            },
    {
        let current = self.account_type == GovernanceAccountType::TokenOwnerRecordV2;
        let legacy = self.account_type == GovernanceAccountType::TokenOwnerRecordV1;
        if !current && !legacy {
            return Ok(());
        }
        if legacy && (!is_zero_reserve(&self.reserved_v2) || self.locks.len() != 0) {
            return Err(GovernanceError::ExtendedDataNotSupported);
        }
        let e = encode_token_owner_record(self);
        if e.len() > data.len() {
            return Err(GovernanceError::AccountDataTooSmall);
        }
        write_over(data, &e);
        Ok(())
    }

    /// Asserts that the owner or the delegate of the record signed.
    pub fn assert_token_owner_or_delegate_is_signer(&self, authority_info: &AccountInfo) -> (r:
        Result<(), GovernanceError>)
        ensures
            r is Ok <==> authority_info.is_signer && (authority_info.key@
                == self.governing_token_owner@ || opt_key_view(self.governance_delegate) == Some(
                authority_info.key@,
            )),
            r is Err ==> r == Err::<(), GovernanceError>(
                GovernanceError::GoverningTokenOwnerOrDelegateMustSign,
            ),
    {
        if authority_info.is_signer {
            if authority_info.key == self.governing_token_owner {
                return Ok(());
            }
            match self.governance_delegate {
                Some(d) => {
                    if authority_info.key == d {
                        return Ok(());
                    }
                },
                None => {},
            }
        }
        Err(GovernanceError::GoverningTokenOwnerOrDelegateMustSign)
    }
}

} // verus!
