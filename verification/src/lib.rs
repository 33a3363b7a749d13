//! Policy validation of notarized TLS transcripts and the binding of the
//! outcome to a signing identity attested by trusted hardware.

pub mod attestation;
pub mod auth;
pub mod config;
pub mod decoder;
pub mod dstack_client;
pub mod extract;
pub mod key_manager;
pub mod policy;
pub mod routes;
pub mod tappd_service;
pub mod text;
pub mod trusted;
pub mod transcript;
pub mod types;
pub mod utils;
pub mod verification;
