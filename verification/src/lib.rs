//! Verified core of the Builder ID device-code login flow of the admin API:
//! the registry of pending login sessions, proxy settings, the construction
//! of the OIDC requests, and the decisions taken on every reply of the
//! authorization server.

pub mod text;
pub mod proxy;
pub mod session;
pub mod oidc;
pub mod flow;
pub mod auth;
pub mod laws;
