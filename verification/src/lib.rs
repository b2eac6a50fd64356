//! The D6E command-line client: what it checks, builds and decides, with the proofs.

pub mod auth;
pub mod auth_client;
pub mod callback;
pub mod cli;
pub mod client;
pub mod error;
pub mod instance;
pub mod json;
pub mod organization;
pub mod output;
pub mod personal;
pub mod secret_output;
pub mod text;
pub mod token_store;
pub mod urls;
