//! Governing-token custody ledger of a governance realm: realm records, token
//! owner records, the deposit and revoke engines, and the byte layouts they
//! are stored in.

pub mod pubkey;
pub mod error;
pub mod enums;
pub mod codec;
pub mod account;
pub mod realm;
pub mod realm_layout;
pub mod token_owner_record;
pub mod realm_config;
pub mod custody;
pub mod deposit;
pub mod revoke;
pub mod voter_weight;
