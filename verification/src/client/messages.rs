//! The messages of the TiKV and PD protocols that the client builds and reads,
//! with the fields that it uses.

use vstd::prelude::*;

verus! {

/// A replica of a region, kept by one store.
#[derive(Clone, Copy, Debug, PartialEq, Eq, Structural)]
pub struct Peer {
    pub id: u64,
    pub store_id: u64,
}

/// The version of a region: `conf_ver` grows with each membership change,
/// `version` with each split or merge.
#[derive(Clone, Copy, Debug, PartialEq, Eq, Structural)]
pub struct RegionEpoch {
    pub conf_ver: u64,
    pub version: u64,
}

/// The epoch that the protocol reads from a region that has none.
pub open spec fn default_epoch() -> RegionEpoch {
    RegionEpoch { conf_ver: 0, version: 0 }
}

/// A region: a range of keys, its epoch and its replicas.
#[derive(Debug)]
pub struct Region {
    pub id: u64,
    pub start_key: Vec<u8>,
    pub end_key: Vec<u8>,
    pub region_epoch: Option<RegionEpoch>,
    pub peers: Vec<Peer>,
}

/// A region as a mathematical value.
pub struct RegionView {
    pub id: u64,
    pub start_key: Seq<u8>,
    pub end_key: Seq<u8>,
    pub region_epoch: Option<RegionEpoch>,
    pub peers: Seq<Peer>,
}

impl View for Region {
    type V = RegionView;

    open spec fn view(&self) -> RegionView {
        RegionView {
            id: self.id,
            start_key: self.start_key@,
            end_key: self.end_key@,
            region_epoch: self.region_epoch,
            peers: self.peers@,
        }
    }
}

/// Copies a byte string.
pub fn copy_bytes(v: &Vec<u8>) -> (r: Vec<u8>)
    ensures
        r@ == v@,
{
    let mut r: Vec<u8> = Vec::with_capacity(v.len());
    let mut i: usize = 0;
    while i < v.len()
        invariant
            i <= v.len(),
            r@ == v@.subrange(0, i as int),
        decreases v.len() - i,
    {
        r.push(v[i]);
        i = i + 1;
    }
    r
}

/// Copies a list of peers.
pub fn copy_peers(v: &Vec<Peer>) -> (r: Vec<Peer>)
    ensures
        r@ == v@,
{
    let mut r: Vec<Peer> = Vec::with_capacity(v.len());
    let mut i: usize = 0;
    while i < v.len()
        invariant
            i <= v.len(),
            r@ == v@.subrange(0, i as int),
        decreases v.len() - i,
    {
        r.push(v[i]);
        i = i + 1;
    }
    r
}

impl Clone for Region {
    fn clone(&self) -> (r: Self)
        ensures
            r@ == self@,
    {
        Region {
            id: self.id,
            start_key: copy_bytes(&self.start_key),
            end_key: copy_bytes(&self.end_key),
            region_epoch: self.region_epoch,
            peers: copy_peers(&self.peers),
        }
    }
}

/// What a TiKV request says of the region that it is meant for.
#[derive(Clone, Copy, Debug, PartialEq, Eq, Structural)]
pub struct Context {
    pub region_id: u64,
    pub region_epoch: Option<RegionEpoch>,
    pub peer: Option<Peer>,
}

/// The header of a request to the placement driver.
#[derive(Clone, Copy, Debug, PartialEq, Eq, Structural)]
pub struct RequestHeader {
    pub cluster_id: u64,
}

/// The header of a reply of the placement driver.
#[derive(Clone, Copy, Debug, PartialEq, Eq, Structural)]
pub struct ResponseHeader {
    pub cluster_id: u64,
}

/// An error that TiKV reports about the region of a request (the leader
/// moved, the epoch is stale, the region is unknown, ...).
#[derive(Debug)]
pub struct RegionError {
    pub message: String,
}

/// A request to store `value` under `key`.
#[derive(Debug)]
pub struct RawPutRequest {
    pub context: Context,
    pub key: Vec<u8>,
    pub value: Vec<u8>,
}

/// TiKV's reply to a [`RawPutRequest`].
#[derive(Debug)]
pub struct RawPutResponse {
    pub region_error: Option<RegionError>,
    pub error: String,
}

/// A request to split a region at `split_key`.
#[derive(Debug)]
pub struct SplitRegionRequest {
    pub context: Context,
    pub split_key: Vec<u8>,
}

/// TiKV's reply to a [`SplitRegionRequest`].
#[derive(Debug)]
pub struct SplitRegionResponse {
    pub region_error: Option<RegionError>,
    pub left: Option<Region>,
    pub right: Option<Region>,
}

/// A request to the placement driver for the region that holds `region_key`.
#[derive(Debug)]
pub struct GetRegionRequest {
    pub header: RequestHeader,
    pub region_key: Vec<u8>,
}

/// The placement driver's reply to a [`GetRegionRequest`].
#[derive(Debug)]
pub struct GetRegionResponse {
    pub header: ResponseHeader,
    pub region: Option<Region>,
    pub leader: Option<Peer>,
}

/// A request to the placement driver for at most `limit` regions from
/// `start_key` on.
#[derive(Debug)]
pub struct ScanRegionsRequest {
    pub header: RequestHeader,
    pub start_key: Vec<u8>,
    pub limit: i32,
}

/// The placement driver's reply to a [`ScanRegionsRequest`].
#[derive(Debug)]
pub struct ScanRegionsResponse {
    pub header: ResponseHeader,
    pub regions: Vec<Region>,
    pub leaders: Vec<Peer>,
}

/// The placement driver's reply to a request for its members.
#[derive(Clone, Copy, Debug, PartialEq, Eq, Structural)]
pub struct GetMembersResponse {
    pub header: ResponseHeader,
}

} // verus!
