//! The endpoints that a [`crate::PlaidClient`] calls, one file for each family.

pub mod accounts;
pub mod items;
pub mod link;
pub mod processor;
