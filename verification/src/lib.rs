pub mod account;
pub mod amount;
pub mod engine;
pub mod error;
pub mod transaction;
