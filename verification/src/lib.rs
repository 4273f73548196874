//! Instance manager core: the rules by which a registry of named
//! application instances is created, started, stopped, updated and removed,
//! the bounded output log kept per instance, the bounded history of system
//! samples, and the replies the HTTP front end gives for each outcome.

pub mod info;
pub mod log_buffer;
pub mod history;
pub mod instance;
pub mod registry;
pub mod operations;
pub mod broker;
pub mod http;
pub mod config;
pub mod system_info;
pub mod laws;
