//! A minimal session-authenticated web library: a credential store queried by
//! exact match, a session codec that seals an identity into a tamper-evident
//! token, middleware that bridges tokens and per-request identity, and the
//! route handlers (home, login, logout) built on them.

pub mod config;
pub mod http;
pub mod laws;
pub mod handlers;
pub mod hex;
pub mod pages;
pub mod session;
pub mod sqlstore;
pub mod store;
