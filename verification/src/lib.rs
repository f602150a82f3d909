//! Verified core of a local HTTPS development proxy: route table, DNS answers,
//! proxy routing, the control protocol and the UI's form logic.
pub mod cert;
pub mod client;
pub mod config;
pub mod dns;
pub mod ipc;
pub mod mint;
pub mod net;
pub mod paths;
pub mod persist;
pub mod pid;
pub mod protocol;
pub mod proxy;
pub mod route;
pub mod state;
pub mod store;
pub mod text;
pub mod ui;
