//! A 1:1-backed token wrapper.
//!
//! A holder of a base fungible asset can obtain a wrapped representation of
//! it and later redeem that representation for the base asset.  The library
//! models the accounts the operations touch (mints, token accounts, the
//! registry record) as plain values, and verifies the three operations —
//! registration, wrap, unwrap — against the backing invariant: the custody
//! vault's base-asset balance always equals the wrapped mint's supply.
//!
//! Signing authorities are never stored: they are re-derived from a seed tag
//! and an asset identity on every operation and compared with what the caller
//! supplied.  The derivation itself is done by the host chain's program
//! derived address scheme, reached through a trusted wrapper in [`authority`].

pub mod authority;
pub mod errors;
pub mod ids;
pub mod laws;
pub mod state;
pub mod wrapper;
