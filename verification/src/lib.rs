//! A client for a TiKV cluster: the region cache, the requests sent to the
//! placement driver (PD) and to TiKV, and the decisions taken on their replies.

pub mod client;
pub mod error;
pub mod workload;
