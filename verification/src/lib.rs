//! Verified core of an MCP server that fronts the Traggo time tracker.
pub mod config;
pub mod cursor;
pub mod error;
pub mod graphql;
pub mod response;
pub mod text;
pub mod tools;
pub mod validation;
