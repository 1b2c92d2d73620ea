//! The server side: configuration, sessions, cookies and the login flow.
pub mod error;
pub mod types;
pub mod callbacks;
pub mod config;
pub mod cookies;
pub mod session;
pub mod store;
pub mod manager;
