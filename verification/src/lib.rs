//! Policy, credential and request-handling core of an SSH adapter that lets
//! AI agents run commands on registered machines under per-machine rules.

pub mod text;
pub mod constraints;
pub mod security;
pub mod manager_db;
pub mod tools;
pub mod rpc;
pub mod ssh_auth;
