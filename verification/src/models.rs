//! What the hub stores, what it signs and what it is asked.

pub mod entities;
pub mod parsers;
pub mod queries;
pub mod tokens;
