//! Verified core of the meli barber-shop backend: session identifiers and
//! session state, the in-memory session store, identity checks, and the
//! request rules of the shop handlers.

pub mod ids;
pub mod clock;
pub mod session_id;
pub mod text;
pub mod session_data;
pub mod config;
pub mod session_store;
pub mod session;
pub mod auth;
pub mod permissions;
pub mod api;
pub mod contact;
pub mod access;
pub mod barber_rules;
pub mod account_rules;
pub mod member_rules;
pub mod listing;
pub mod cookie;
pub mod laws;
