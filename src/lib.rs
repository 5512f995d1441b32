pub mod error;
pub mod fx;
pub mod last_update;
pub mod pubkey;
pub mod reserve;
pub mod obligation;
pub mod validate;
pub mod operations;
pub mod refresh;
pub mod flash;
pub mod market;
pub mod laws;
pub mod bank;
