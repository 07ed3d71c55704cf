//! The requests that the client sends to TiKV, the options of the channel
//! that carries them, and how a failed call is reported.

use crate::client::error::{Error, Result};
use crate::client::messages::{
    Context, RawPutRequest, RawPutResponse, SplitRegionRequest, SplitRegionResponse,
};
use crate::client::security::{
    next_key_file, skip_empty, ChannelSecurity, KeyLoadStep, KeyLoader, SecurityConfig,
    SecurityManager,
};
use vstd::prelude::*;
use vstd::string::StringExecFns;

verus! {

/// The largest message that the client accepts: 1 GiB.
pub const MAX_GRPC_RECV_MSG_LEN: i32 = 1024 * 1024 * 1024;

/// The largest message that the client sends: no limit.
pub const MAX_GRPC_SEND_MSG_LEN: i32 = -1;

/// Seconds between two keepalive pings.
pub const KEEPALIVE_TIME_SECS: u64 = 10;

/// Seconds to wait for the answer to a keepalive ping.
pub const KEEPALIVE_TIMEOUT_SECS: u64 = 3;

/// The settings of the channel to a TiKV server.
#[derive(Clone, Copy, Debug, PartialEq, Eq, Structural)]
pub struct ChannelOptions {
    pub max_receive_message_len: i32,
    pub max_send_message_len: i32,
    pub keepalive_time_secs: u64,
    pub keepalive_timeout_secs: u64,
}

/// The message of a failed raw put, from the text of the transport error.
pub open spec fn raw_put_error_message(err: Seq<char>) -> Seq<char> {
    "raw put err : "@ + err
}

/// The message of a failed split, from the text of the transport error.
pub open spec fn split_region_error_message(err: Seq<char>) -> Seq<char> {
    "split_region err "@ + err
}

/// The client of one TiKV server.
#[derive(Debug)]
pub struct KvClient {
    pub address: String,
}

impl Clone for KvClient {
    fn clone(&self) -> (c: Self)
        ensures
            c.address@ == self.address@,
    {
        KvClient { address: self.address.clone() }
    }
}

impl KvClient {
    /// The client of the TiKV server at `addr`.
    pub fn new(addr: &str) -> (c: Self)
        ensures
            c.address@ == addr@,
    {
        KvClient { address: String::from_str(addr) }
    }

    /// The settings of the channel to the server.
    pub fn channel_options(&self) -> (o: ChannelOptions)
        ensures
            o == (ChannelOptions {
                max_receive_message_len: MAX_GRPC_RECV_MSG_LEN,
                max_send_message_len: MAX_GRPC_SEND_MSG_LEN,
                keepalive_time_secs: KEEPALIVE_TIME_SECS,
                keepalive_timeout_secs: KEEPALIVE_TIMEOUT_SECS,
            }),
    {
        ChannelOptions {
            max_receive_message_len: MAX_GRPC_RECV_MSG_LEN,
            max_send_message_len: MAX_GRPC_SEND_MSG_LEN,
            keepalive_time_secs: KEEPALIVE_TIME_SECS,
            keepalive_timeout_secs: KEEPALIVE_TIMEOUT_SECS,
        }
    }

    /// How the channel to the server is secured: with the default security
    /// configuration, which names no key file, hence in the clear.
    pub fn channel_security(&self) -> (s: ChannelSecurity)
        ensures
            s is Insecure,
    {
        let cfg = SecurityConfig::default();
        let mut loader = KeyLoader::new(&cfg);
        proof {
            reveal_with_fuel(next_key_file, 4);
            assert(skip_empty(loader.paths(), loader.loaded()) =~= seq![
                Seq::<u8>::empty(),
                Seq::<u8>::empty(),
                Seq::<u8>::empty(),
            ]);
        }
        match SecurityManager::new(&mut loader, None) {
            KeyLoadStep::Loaded(mut sm) => {
                let s = sm.connect();
                sm.clear_key();
                s
            },
            _ => {
                proof {
                    assert(false);
                }
                ChannelSecurity::Insecure
            },
        }
    }

    /// The request that stores `value` under `key` in the region of `ctx`.
    pub fn raw_put_request(&self, ctx: Context, key: Vec<u8>, value: Vec<u8>) -> (req:
        RawPutRequest)
        ensures
            req.context == ctx,
            req.key == key,
            req.value == value,
    {
        RawPutRequest { context: ctx, key, value }
    }

    /// The result of a raw put, from what the call gave: TiKV's reply, or
    /// the text of the transport error.
    pub fn raw_put(&self, outcome: std::result::Result<RawPutResponse, String>) -> (r: Result<
        RawPutResponse,
    >)
        ensures
            match outcome {
                Ok(resp) => r == Ok::<RawPutResponse, Error>(resp),
                Err(e) => r matches Err(Error::KvError(m)) && m@ == raw_put_error_message(e@),
            },
    {
        match outcome {
            Ok(resp) => Ok(resp),
            Err(e) => {
                let mut m = String::from_str("raw put err : ");
                m.append(e.as_str());
                Err(Error::KvError(m))
            },
        }
    }

    /// The request that splits the region of `ctx` at `key`.
    pub fn split_region_request(&self, ctx: Context, key: Vec<u8>) -> (req: SplitRegionRequest)
        ensures
            req.context == ctx,
            req.split_key == key,
    {
        SplitRegionRequest { context: ctx, split_key: key }
    }

    /// The result of a split, from what the call gave: TiKV's reply, or the
    /// text of the transport error.
    pub fn split_region(&self, outcome: std::result::Result<SplitRegionResponse, String>) -> (r:
        Result<SplitRegionResponse>)
        ensures
            match outcome {
                Ok(resp) => r == Ok::<SplitRegionResponse, Error>(resp),
                Err(e) => r matches Err(Error::KvError(m)) && m@ == split_region_error_message(
                    e@,
                ),
            },
    {
        match outcome {
            Ok(resp) => Ok(resp),
            Err(e) => {
                let mut m = String::from_str("split_region err ");
                m.append(e.as_str());
                Err(Error::KvError(m))
            },
        }
    }
}

} // verus!
