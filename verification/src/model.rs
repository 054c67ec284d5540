//! The records that travel to Plaid and back.

pub mod accounts;
pub mod common;
pub mod error;
pub mod items;
pub mod link;
pub mod processor;
