//! What the client asks of the placement driver (PD) and how it reads the
//! answers. The transport (gRPC) lies outside the library: it sends the
//! requests built here and hands the replies back.

use crate::client::comment::RegionLeader;
use crate::client::error::{Error, Result};
use crate::client::messages::{
    GetMembersResponse, GetRegionRequest, GetRegionResponse, Region, RequestHeader,
    ScanRegionsRequest, ScanRegionsResponse,
};
use vstd::prelude::*;
use vstd::string::StringExecFns;

verus! {

/// How many times the client tries to reach the placement driver before it
/// gives up.
pub const MAX_CONNECT_ATTEMPTS: u32 = 100;

/// How many regions one scan asks for.
pub const SCAN_REGIONS_LIMIT: i32 = 5;

/// What `{:?}` writes for a string slice: the string quoted, with its
/// special characters escaped.
pub uninterp spec fn str_debug_text(s: Seq<char>) -> Seq<char>;

/// `format!("{:?}", s)` of std: the string as `Debug` writes it, a function
/// of the string alone, named `str_debug_text`.
#[verifier::external_body]
fn debug_str(s: &str) -> (r: String)
    ensures
        r@ == str_debug_text(s@),
{
    format!("{:?}", s)
}

/// The message of the error that ends the attempts to reach `addr`.
pub open spec fn unreachable_message(addr: Seq<char>) -> Seq<char> {
    "unconnect to pd,pd addr is "@ + str_debug_text(addr)
}

/// The message of the error for a region reply that names no region, from
/// the text that `{:?}` writes for the reply as it came over the wire.
pub open spec fn no_region_message(reply_text: Seq<char>) -> Seq<char> {
    "get region error "@ + reply_text
}

/// What to do next while reaching the placement driver.
#[derive(Debug)]
pub enum EndpointStep {
    /// Try to connect (again).
    Connect,
    /// Connected: the cluster has this id.
    Connected(u64),
    /// Every attempt failed.
    Unreachable(Error),
}

/// The client's view of the placement driver: the cluster it serves.
#[derive(Clone, Copy, Debug)]
pub struct PDClient {
    pub cluster_id: u64,
}

impl PDClient {
    /// The client of a placement driver whose cluster has `cluster_id`.
    pub fn new(cluster_id: u64) -> (c: Self)
        ensures
            c.cluster_id == cluster_id,
    {
        PDClient { cluster_id }
    }

    /// The next step of reaching the placement driver at `addr`, after
    /// `failed_attempts` failed connections and, where the last one
    /// succeeded, its answer to the members request: the first success
    /// gives the cluster's id; up to `MAX_CONNECT_ATTEMPTS` attempts are made.
    pub fn validate_endpoints(
        failed_attempts: u32,
        connected: Option<GetMembersResponse>,
        addr: &str,
    ) -> (step: EndpointStep)
        ensures
            connected matches Some(resp) ==> step == EndpointStep::Connected(resp.header.cluster_id),
            connected is None && failed_attempts < MAX_CONNECT_ATTEMPTS ==> step
                == EndpointStep::Connect,
            connected is None && failed_attempts >= MAX_CONNECT_ATTEMPTS ==> (step matches EndpointStep::Unreachable(
                Error::PdError(m),
            ) && m@ == unreachable_message(addr@)),
    {
        match connected {
            Some(resp) => EndpointStep::Connected(resp.header.cluster_id),
            None => {
                if failed_attempts < MAX_CONNECT_ATTEMPTS {
                    EndpointStep::Connect
                } else {
                    let mut m = String::from_str("unconnect to pd,pd addr is ");
                    let d = debug_str(addr);
                    m.append(d.as_str());
                    EndpointStep::Unreachable(Error::PdError(m))
                }
            },
        }
    }

    /// The request for the region that holds `key`.
    pub fn get_regionleader_request(&self, key: Vec<u8>) -> (req: GetRegionRequest)
        ensures
            req.header.cluster_id == self.cluster_id,
            req.region_key == key,
    {
        GetRegionRequest { header: RequestHeader { cluster_id: self.cluster_id }, region_key: key }
    }

    /// The region leader that a region reply names: the region and its
    /// leader, or an error where the reply names no region. `reply_text` is
    /// what `{:?}` writes for the reply as it came over the wire; it goes
    /// into the error.
    pub fn get_regionleader(&self, resp: GetRegionResponse, reply_text: &str) -> (r: Result<
        RegionLeader,
    >)
        ensures
            match resp.region {
                Some(region) => r matches Ok(l) && l.region == region && l.leader == resp.leader,
                None => r matches Err(Error::PdError(m)) && m@ == no_region_message(reply_text@),
            },
    {
        let GetRegionResponse { header: _, region, leader } = resp;
        match region {
            Some(region) => Ok(RegionLeader::new(region, leader)),
            None => {
                let mut m = String::from_str("get region error ");
                m.append(reply_text);
                Err(Error::PdError(m))
            },
        }
    }

    /// The region that a region reply names, which must name one.
    pub fn get_region(&self, resp: GetRegionResponse) -> (r: Region)
        requires
            resp.region is Some,
        ensures
            r == resp.region->0,
    {
        resp.region.unwrap()
    }

    /// The request for the first regions from `start_key` on.
    pub fn scan_regions(&self, start_key: Vec<u8>) -> (req: ScanRegionsRequest)
        ensures
            req.header.cluster_id == self.cluster_id,
            req.start_key == start_key,
            req.limit == SCAN_REGIONS_LIMIT,
    {
        ScanRegionsRequest {
            header: RequestHeader { cluster_id: self.cluster_id },
            start_key,
            limit: SCAN_REGIONS_LIMIT,
        }
    }

    /// Takes the reply to a scan (which the caller reports): the scan is
    /// done, whatever the reply holds.
    pub fn scan_regions_reply(&self, resp: &ScanRegionsResponse) -> (r: bool)
        ensures
            r,
    {
        true
    }
}

} // verus!
