//! Authentication and identity hub: signed bearer tokens, per-client-type
//! sessions and the login, refresh and revocation rules that tie them together.

pub mod app;
pub mod common;
pub mod config;
pub mod error;
pub mod handlers;
pub mod hexadecimal;
pub mod http;
pub mod ident;
pub mod jwt;
pub mod keys;
pub mod models;
pub mod store;
pub mod text;
pub mod types;
pub mod utils;
