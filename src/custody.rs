//! Token custody over the two token standards: the legacy fixed-width one and
//! the extensible one. Both read accounts through one contract and differ only
//! in the owning program and in the account lengths they accept.
//!
//! A token account holds the mint (bytes 0..32), the owner (32..64), the
//! amount (64..72) and, at byte 108, its state (zero while uninitialized). A
//! mint holds its optional mint authority (a four-byte tag, one where present,
//! then the address) in bytes 0..36 and, at byte 45, whether it is
//! initialized. An extensible account longer than the base length names its
//! kind at byte 165: one for a mint, two for a token account.
//!
//! Value moves are not performed here: an operation returns the custody action
//! that the host carries out through the selected token program, inside the
//! same all-or-nothing unit of work.

use crate::account::AccountInfo;
use crate::error::GovernanceError;
use crate::pubkey::Pubkey;
use vstd::prelude::*;

verus! {

/// Address of the legacy token program.
pub const SPL_TOKEN_PROGRAM_ID: [u8; 32] = [
    6u8, 221u8, 246u8, 225u8, 215u8, 101u8, 161u8, 147u8, 217u8, 203u8, 225u8, 70u8, 206u8, 235u8,
    121u8, 172u8, 28u8, 180u8, 133u8, 237u8, 95u8, 91u8, 55u8, 145u8, 58u8, 140u8, 245u8, 133u8,
    126u8, 255u8, 0u8, 169u8,
];

/// Address of the extensible token program.
pub const TOKEN_2022_PROGRAM_ID: [u8; 32] = [
    6u8, 221u8, 246u8, 225u8, 238u8, 117u8, 143u8, 222u8, 24u8, 66u8, 93u8, 188u8, 228u8, 108u8,
    205u8, 218u8, 182u8, 26u8, 252u8, 77u8, 131u8, 185u8, 13u8, 39u8, 254u8, 189u8, 249u8, 40u8,
    216u8, 161u8, 139u8, 252u8,
];

/// Length of a token account in the base layout.
pub const TOKEN_ACCOUNT_LEN: usize = 165;

/// Length of a mint in the base layout.
pub const MINT_LEN: usize = 82;

/// Which token standard the governing tokens are of.
#[derive(Clone, Copy, Debug, PartialEq, Eq, Structural)]
pub enum TokenType {
    /// The legacy fixed-width standard.
    SPL,
    /// The extensible standard, whose mints may carry transfer fees or hooks.
    Token2022,
}

pub open spec fn token_program_id(t: TokenType) -> Seq<u8> {
    match t {
        TokenType::SPL => SPL_TOKEN_PROGRAM_ID@,
        TokenType::Token2022 => TOKEN_2022_PROGRAM_ID@,
    }
}

/// Whether the bytes have the length of an account of the given kind:
/// `base_len`, or for the extensible standard longer than a token account
/// with the kind byte `kind`.
pub open spec fn has_kind_len(t: TokenType, data: Seq<u8>, base_len: int, kind: u8) -> bool {
    data.len() == base_len || (t == TokenType::Token2022 && data.len() > TOKEN_ACCOUNT_LEN
        && data[TOKEN_ACCOUNT_LEN as int] == kind)
}

/// Whether the account is an initialized token account of the standard.
pub open spec fn is_token_account_spec(t: TokenType, owner: Seq<u8>, data: Seq<u8>) -> bool {
    owner == token_program_id(t) && has_kind_len(t, data, TOKEN_ACCOUNT_LEN as int, 2) && data[108]
        != 0
}

/// Whether the account is an initialized mint of the standard.
pub open spec fn is_mint_spec(t: TokenType, owner: Seq<u8>, data: Seq<u8>) -> bool {
    owner == token_program_id(t) && has_kind_len(t, data, MINT_LEN as int, 1) && data[45] == 1
}

/// The mint of a token account's bytes.
pub open spec fn account_mint(data: Seq<u8>) -> Seq<u8> {
    data.subrange(0, 32)
}

/// The mint authority of a mint's bytes: `Some(None)` where it has none,
/// `None` where the tag is malformed.
pub open spec fn mint_authority_of(data: Seq<u8>) -> Option<Option<Seq<u8>>> {
    if data[0] == 0 && data[1] == 0 && data[2] == 0 && data[3] == 0 {
        Some(None)
    } else if data[0] == 1 && data[1] == 0 && data[2] == 0 && data[3] == 0 {
        Some(Some(data.subrange(4, 36)))
    } else {
        None
    }
}

fn bytes_key(data: &Vec<u8>, start: usize) -> (r: Pubkey)
    requires
        start + 32 <= data@.len(),
    ensures
        r@ == data@.subrange(start as int, start + 32),
{
    let n = data.len();
    assert(start + 32 <= n);
    let mut a: [u8; 32] = [0u8; 32];
    let mut i: usize = 0;
    while i < 32
        invariant
            0 <= i <= 32,
            start + 32 <= data@.len(),
            start + 32 <= n,
            forall|j: int| 0 <= j < i ==> a@[j] == data@[start + j],
        decreases 32 - i,
    {
        a[i] = data[start + i];
        i = i + 1;
    }
    assert(a@ =~= data@.subrange(start as int, start + 32));
    Pubkey { bytes: a }
}

impl TokenType {
    /// The address of the standard's token program.
    pub fn program_id(&self) -> (r: Pubkey)
        ensures
            r@ == token_program_id(*self),
    {
        match self {
            TokenType::SPL => Pubkey { bytes: SPL_TOKEN_PROGRAM_ID },
            TokenType::Token2022 => Pubkey { bytes: TOKEN_2022_PROGRAM_ID },
        }
    }

    fn kind_len(&self, data: &Vec<u8>, base_len: usize, kind: u8) -> (r: bool)
        ensures
            r == has_kind_len(*self, data@, base_len as int, kind),
    {
        data.len() == base_len || (*self == TokenType::Token2022 && data.len() > TOKEN_ACCOUNT_LEN
            && data[TOKEN_ACCOUNT_LEN] == kind)
    }

    /// Whether the account is an initialized token account of the standard.
    pub fn is_token_account(&self, info: &AccountInfo) -> (r: bool)
        ensures
            r == is_token_account_spec(*self, info.owner@, info.data@),
    {
        let pid = self.program_id();
        info.owner == pid && self.kind_len(&info.data, TOKEN_ACCOUNT_LEN, 2) && info.data[108] != 0
    }

    /// Whether the account is an initialized mint of the standard.
    pub fn is_mint(&self, info: &AccountInfo) -> (r: bool)
        ensures
            r == is_mint_spec(*self, info.owner@, info.data@),
    {
        let pid = self.program_id();
        info.owner == pid && self.kind_len(&info.data, MINT_LEN, 1) && info.data[45] == 1
    }

    /// The mint of a token account of the standard.
    pub fn get_mint(&self, info: &AccountInfo) -> (r: Result<Pubkey, GovernanceError>)
        ensures
            is_token_account_spec(*self, info.owner@, info.data@) ==> (r matches Ok(m) && m@
                == account_mint(info.data@)),
            !is_token_account_spec(*self, info.owner@, info.data@) ==> r == Err::<
                Pubkey,
                GovernanceError,
            >(GovernanceError::InvalidTokenAccount),
    {
        if !self.is_token_account(info) {
            return Err(GovernanceError::InvalidTokenAccount);
        }
        Ok(bytes_key(&info.data, 0))
    }

    /// Moves `amount` from `source` to `destination` under `authority`.
    pub fn transfer(&self, source: &Pubkey, destination: &Pubkey, authority: &Pubkey, amount: u64) -> (r:
        CustodyAction)
        ensures
            r == (CustodyAction::Transfer {
                token_type: *self,
                source: *source,
                destination: *destination,
                authority: *authority,
                amount,
            }),
    {
        CustodyAction::Transfer {
            token_type: *self,
            source: *source,
            destination: *destination,
            authority: *authority,
            amount,
        }
    }

    /// Mints `amount` of `mint` into `destination` under the mint authority
    /// `authority`.
    pub fn mint_to(&self, mint: &Pubkey, destination: &Pubkey, authority: &Pubkey, amount: u64) -> (r:
        CustodyAction)
        ensures
            r == (CustodyAction::MintTo {
                token_type: *self,
                mint: *mint,
                destination: *destination,
                authority: *authority,
                amount,
            }),
    {
        CustodyAction::MintTo {
            token_type: *self,
            mint: *mint,
            destination: *destination,
            authority: *authority,
            amount,
        }
    }

    /// Burns `amount` of `mint` from `account`, whose owner `authority` is a
    /// program address signing with `signer_seeds`.
    pub fn burn_signed(
        &self,
        account: &Pubkey,
        mint: &Pubkey,
        authority: &Pubkey,
        signer_seeds: Vec<Vec<u8>>,
        amount: u64,
    ) -> (r: CustodyAction)
        ensures
            r matches CustodyAction::Burn {
                token_type,
                account: a,
                mint: m,
                authority: au,
                signer_seeds: s,
                amount: n,
            } && token_type == *self && a == *account && m == *mint && au == *authority && s@
                == signer_seeds@ && n == amount,
    {
        CustodyAction::Burn {
            token_type: *self,
            account: *account,
            mint: *mint,
            authority: *authority,
            signer_seeds,
            amount,
        }
    }

    /// Asserts that the authority is the mint's authority and signed.
    pub fn assert_mint_authority_is_signer(
        &self,
        mint_info: &AccountInfo,
        mint_authority_info: &AccountInfo,
    ) -> (r: Result<(), GovernanceError>)
        ensures
            r == mint_authority_check(
                *self,
                mint_info.owner@,
                mint_info.data@,
                mint_authority_info.key@,
                mint_authority_info.is_signer,
            ),
    {
        if !self.is_mint(mint_info) {
            return Err(GovernanceError::InvalidMint);
        }
        let d = &mint_info.data;
        let tag_none = d[0] == 0 && d[1] == 0 && d[2] == 0 && d[3] == 0;
        let tag_some = d[0] == 1 && d[1] == 0 && d[2] == 0 && d[3] == 0;
        if tag_none {
            return Err(GovernanceError::MintHasNoAuthority);
        }
        if !tag_some {
            return Err(GovernanceError::InvalidMint);
        }
        let authority = bytes_key(d, 4);
        if authority != mint_authority_info.key {
            return Err(GovernanceError::InvalidMintAuthority);
        }
        if !mint_authority_info.is_signer {
            return Err(GovernanceError::MintAuthorityMustSign);
        }
        Ok(())
    }
}

/// The outcome of checking that an authority is a mint's signing authority.
pub open spec fn mint_authority_check(
    t: TokenType,
    owner: Seq<u8>,
    data: Seq<u8>,
    authority: Seq<u8>,
    signed: bool,
) -> Result<(), GovernanceError> {
    if !is_mint_spec(t, owner, data) {
        Err(GovernanceError::InvalidMint)
    } else {
        match mint_authority_of(data) {
            None => Err(GovernanceError::InvalidMint),
            Some(None) => Err(GovernanceError::MintHasNoAuthority),
            Some(Some(a)) => if a != authority {
                Err(GovernanceError::InvalidMintAuthority)
            } else if !signed {
                Err(GovernanceError::MintAuthorityMustSign)
            } else {
                Ok(())
            },
        }
    }
}

/// A value move that the host carries out through the selected token program.
#[derive(Clone, Debug)]
pub enum CustodyAction {
    /// Moves `amount` from `source` to `destination`, authorized by `authority`.
    Transfer {
        token_type: TokenType,
        source: Pubkey,
        destination: Pubkey,
        authority: Pubkey,
        amount: u64,
    },
    /// Mints `amount` of `mint` into `destination`, authorized by the mint
    /// authority `authority`.
    MintTo {
        token_type: TokenType,
        mint: Pubkey,
        destination: Pubkey,
        authority: Pubkey,
        amount: u64,
    },
    /// Burns `amount` of `mint` from `account`, whose owner `authority` is a
    /// program address that signs with `signer_seeds`.
    Burn {
        token_type: TokenType,
        account: Pubkey,
        mint: Pubkey,
        authority: Pubkey,
        signer_seeds: Vec<Vec<u8>>,
        amount: u64,
    },
}

/// The token program's instruction bytes for an action: the instruction's
/// tag (three for a transfer, seven for a mint, eight for a burn), then the
/// amount as a little-endian `u64`. Both standards take the same bytes.
pub open spec fn custody_instruction_bytes(a: CustodyAction) -> Seq<u8> {
    match a {
        CustodyAction::Transfer { amount, .. } => seq![3u8] + crate::codec::enc_u64(amount),
        CustodyAction::MintTo { amount, .. } => seq![7u8] + crate::codec::enc_u64(amount),
        CustodyAction::Burn { amount, .. } => seq![8u8] + crate::codec::enc_u64(amount),
    }
}

impl CustodyAction {
    /// The instruction bytes the token program is invoked with.
    pub fn instruction_data(&self) -> (r: Vec<u8>)
        ensures
            r@ == custody_instruction_bytes(*self),
    {
        let mut out: Vec<u8> = Vec::new();
        match self {
            CustodyAction::Transfer { amount, .. } => {
                out.push(3u8);
                crate::codec::write_u64(&mut out, *amount);
            },
            CustodyAction::MintTo { amount, .. } => {
                out.push(7u8);
                crate::codec::write_u64(&mut out, *amount);
            },
            CustodyAction::Burn { amount, .. } => {
                out.push(8u8);
                crate::codec::write_u64(&mut out, *amount);
            },
        }
        assert(out@ =~= custody_instruction_bytes(*self));
        out
    }
}

/// How much the action changes the balance of the account `holding` by.
pub open spec fn custody_delta(a: CustodyAction, holding: Seq<u8>) -> int {
    match a {
        CustodyAction::Transfer { source, destination, amount, .. } => if source@ == destination@ {
            0
        } else if destination@ == holding {
            amount as int
        } else if source@ == holding {
            -(amount as int)
        } else {
            0
        },
        CustodyAction::MintTo { destination, amount, .. } => if destination@ == holding {
            amount as int
        } else {
            0
        },
        CustodyAction::Burn { account, amount, .. } => if account@ == holding {
            -(amount as int)
        } else {
            0
        },
    }
}

} // verus!
