//! Custody handoff for a unique asset token: a buyer deposits the token into
//! an escrow slot owned by a program-derived authority, and the custodian later
//! either returns it or burns it, closing the escrow and its redemption record.
pub mod accounts;
pub mod address;
pub mod lifecycle;
pub mod redemption;
