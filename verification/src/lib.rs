//! Records that live at derived addresses.
//!
//! An owner has two records, an address record and a profile record. Each
//! lives in an account of the host's ledger that the owner does not control:
//! the account's address is derived from a namespace tag, the owner's identity
//! and the orchestrator's identity, and the account is controlled by the
//! record service of its kind. The orchestrator has the accounts created and
//! forwards updates to the record services, proving each time that it is the
//! deriver of the address; the record services check controller and
//! authority before they overwrite a record.
//!
//! - `pubkey`, `account`, `error`, `host`: the values exchanged with the host.
//! - `buffer`, `wire`, `schema`: text buffers, field encodings, record layouts.
//! - `derivation`: derived addresses.
//! - `address_contract`, `profile_contract`: the two record services.
//! - `ecom_contract`: the orchestrator.

pub mod account;
pub mod address_contract;
pub mod buffer;
pub mod derivation;
pub mod ecom_contract;
pub mod error;
pub mod host;
pub mod profile_contract;
pub mod pubkey;
pub mod schema;
pub mod wire;
