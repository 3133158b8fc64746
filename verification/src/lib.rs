//! A generic CRUD service over a document store: the mapping between typed
//! records and store documents, pagination, the decisions each operation
//! makes on what the store answers, and the application's configuration.

pub mod config;
pub mod documents;
pub mod error;
pub mod mongo;
pub mod services;

pub use config::{AppConfig, AppEnv, LetsEncryptConf, MissingSetting, SSLConf};
