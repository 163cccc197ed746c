//! A lazily-initialized, runtime-selectable database connection cell.
//!
//! A single shared slot holds at most one live backend connection. The
//! first time it is needed, the connection URL's scheme selects one of
//! three mutually-exclusive backend connection types; exactly one
//! underlying connection is established, and every later access to it is
//! serialized behind a mutual-exclusion lock. The sole entry point for
//! doing work against the live connection is a callback-based `interact`
//! operation: the caller supplies one closure per supported backend and
//! receives the result of whichever backend is actually active.

pub mod error;

mod connection;
mod database;
mod locked_connection;
mod result;
mod settings;

pub use connection::Connection;
pub use database::dispatch;
pub use database::on_request_action;
pub use database::settings_from_config;
pub use database::ConfigValue;
pub use database::Database;
pub use database::HookAction;
pub use error::Error;
pub use error::ErrorKind;
pub use locked_connection::Connection as BackendConnection;
pub use settings::Scheme;
pub use settings::Settings;

pub use result::DbResult;
