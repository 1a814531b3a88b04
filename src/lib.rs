//! Event-sourced bank accounts: the account state machine, its money type,
//! the bounded cache that decides when an account instance is spawned, and
//! the index of all account identifiers ever created.

pub mod euro_cent;
pub mod account;
pub mod account_laws;
pub mod account_ids;
pub mod entity_cache;
pub mod request;
