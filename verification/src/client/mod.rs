//! The client side: talking to a JSS (Frappe) instance.
pub mod builders;
pub mod error;
pub mod http;
pub mod login;
pub mod query;
pub mod session;
pub mod settings;
pub mod types;
pub mod url;
