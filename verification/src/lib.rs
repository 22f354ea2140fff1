//! Payment-gate logic of an nginx module for the x402 HTTP micropayment
//! protocol: configuration parsing and validation, payment requirements,
//! request classification and the decisions of the request handlers.

pub mod text;
pub mod amount;
pub mod networks;
pub mod error;
pub mod validation;
pub mod config;
pub mod requirements;
pub mod nginx_config;
pub mod ffi;
pub mod payment;
pub mod request;
pub mod handler;
pub mod phase;
pub mod panic_handler;
