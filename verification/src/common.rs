//! Types shared between the hub and its clients.

pub mod hub;
pub mod responses;
pub mod token;
pub mod user;
