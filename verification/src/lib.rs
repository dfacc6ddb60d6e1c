//! Headless remote-desktop control: request parsing, manifest parsing,
//! login and rendezvous decisions, all with verified contracts.

pub mod text;
pub mod json;
pub mod rendezvous;
pub mod http;
pub mod peers;
pub mod login;
pub mod transfer;
pub mod batch;
pub mod oauth;
pub mod local;
pub mod laws;
