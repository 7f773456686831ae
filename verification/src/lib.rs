//! Verified core of the Nexus headless CMS: error model, query AST and SQL
//! generation, schema type mapping, flow operations and configuration logic.

pub mod text;
pub mod errors;
pub mod emitter;
pub mod json;
pub mod search;
pub mod database;
pub mod flows;
pub mod env;
pub mod extensions;
pub mod auth;
pub mod oauth2_provider;
pub mod bus;
pub mod cache;
pub mod nosql;
pub mod stores;
pub mod wasm;
