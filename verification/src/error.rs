//! The outcome of a request, with the reply of a failed one.

use crate::client::messages::{RawPutResponse, SplitRegionResponse};
use vstd::prelude::*;

verus! {

/// The errors of the cluster client.
#[derive(Debug)]
pub enum Error {
    TiKVError(String),
    PdError(String),
    OperationError(String),
    Other,
}

pub type Result<T> = std::result::Result<T, Error>;

/// Whether a request succeeded and, where it failed, TiKV's reply.
#[derive(Debug)]
pub struct Res {
    pub resp: bool,
    pub put_resp: Option<RawPutResponse>,
    pub split_resp: Option<SplitRegionResponse>,
}

impl Res {
    /// A success.
    pub fn new() -> (r: Self)
        ensures
            r.resp,
            r.put_resp is None,
            r.split_resp is None,
    {
        Res { resp: true, put_resp: None, split_resp: None }
    }

    /// A failed raw put, with its reply.
    pub fn put_err(resp: RawPutResponse) -> (r: Self)
        ensures
            !r.resp,
            r.put_resp == Some(resp),
            r.split_resp is None,
    {
        Res { resp: false, put_resp: Some(resp), split_resp: None }
    }

    /// A failed split, with its reply.
    pub fn split_err(resp: SplitRegionResponse) -> (r: Self)
        ensures
            !r.resp,
            r.put_resp is None,
            r.split_resp == Some(resp),
    {
        Res { resp: false, put_resp: None, split_resp: Some(resp) }
    }
}

} // verus!
