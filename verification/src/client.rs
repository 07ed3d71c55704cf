//! The cluster client and the pieces it is made of.

pub mod client;
pub mod comment;
pub mod error;
pub mod kv_client;
pub mod messages;
pub mod pd_client;
pub mod region_cache;
pub mod security;
