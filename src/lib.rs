//! Connectivity and session layer of an etcd workbench: namespace scoping of
//! keys, history walks, the re-authentication policy, watch bookkeeping,
//! tunnel decisions and the session registry, with the records and settings
//! around them, each stated and proved with Verus.

pub mod aes_util;
pub mod connection;
pub mod connector;
pub mod error;
pub mod event;
pub mod hex;
pub mod history;
pub mod k8s;
pub mod kv;
pub mod maintenance;
pub mod monitor;
pub mod namespace;
pub mod reauth;
pub mod registry;
pub mod settings;
pub mod text;
pub mod tunnel;
pub mod user;
pub mod watcher;
