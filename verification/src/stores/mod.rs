//! The admin client's state: what it lists and shows of collections,
//! fields, relations, settings, the signed-in user and notifications.

pub mod auth_state;
pub mod collections;
pub mod fields;
pub mod relations;
pub mod settings;
pub mod user;
pub mod notifications;
pub mod server;
