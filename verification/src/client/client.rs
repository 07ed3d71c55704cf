//! The cluster client: it finds the region of a key through its cache or
//! the placement driver, and drops a cached region that TiKV reports as
//! stale. The transport sends the requests built here and hands back the
//! replies; each step below takes the reply of the previous one.

use crate::client::comment::{context_for, RegionLeader, RegionLeaderView};
use crate::client::error::{Error, Result};
use crate::client::kv_client::KvClient;
use crate::client::messages::{
    GetRegionRequest, GetRegionResponse, RawPutRequest, RawPutResponse, ScanRegionsRequest,
    SplitRegionRequest, SplitRegionResponse,
};
use crate::client::pd_client::{no_region_message, PDClient, SCAN_REGIONS_LIMIT};
use crate::client::region_cache::{apply_event, lookup, CacheEvent, RegionCache};
use vstd::prelude::*;

verus! {

/// Where the region of a key comes from.
#[derive(Debug)]
pub enum RegionLookup {
    /// The cache holds it.
    Cached(RegionLeader),
    /// It must be asked of the placement driver with this request.
    Fetch(GetRegionRequest),
}

/// Whether a split went through: TiKV answered, and reported no region error.
pub open spec fn split_region_succeeded(outcome: Result<SplitRegionResponse>) -> bool {
    outcome matches Ok(resp) && resp.region_error is None
}

/// Whether TiKV answered a split with a region error.
pub open spec fn split_region_stale(outcome: Result<SplitRegionResponse>) -> bool {
    outcome matches Ok(resp) && resp.region_error is Some
}

/// Whether a raw put went through: TiKV answered, and reported no region error.
pub open spec fn raw_put_succeeded(outcome: Result<RawPutResponse>) -> bool {
    outcome matches Ok(resp) && resp.region_error is None
}

/// Whether TiKV answered a raw put with a region error.
pub open spec fn raw_put_stale(outcome: Result<RawPutResponse>) -> bool {
    outcome matches Ok(resp) && resp.region_error is Some
}

/// The change of the cache that a reply brings: a region error evicts the
/// key, anything else leaves the cache as it is.
pub open spec fn reply_event(key: Seq<u8>, stale: bool) -> CacheEvent {
    if stale {
        CacheEvent::Evicted(key)
    } else {
        CacheEvent::Unchanged
    }
}

/// A region fetched for a key is what the cache answers for that key next:
/// after `on_region_response` succeeds, `get_region` for the key gives the
/// fetched region leader, without asking the placement driver.
pub proof fn law_fetched_region_is_cached(
    cache: Map<Seq<u8>, RegionLeaderView>,
    key: Seq<u8>,
    l: RegionLeaderView,
)
    ensures
        lookup(apply_event(cache, CacheEvent::Fetched(key, l)), key) == Some(l),
{
}

/// A reply with a region error drops the key's region: the next
/// `get_region` for the key asks the placement driver again.
pub proof fn law_stale_reply_forces_refetch(cache: Map<Seq<u8>, RegionLeaderView>, key: Seq<u8>)
    ensures
        lookup(apply_event(cache, reply_event(key, true)), key) is None,
{
}

/// Any other reply, and a failed call, leave the cache as it was.
pub proof fn law_other_reply_keeps_cache(cache: Map<Seq<u8>, RegionLeaderView>, key: Seq<u8>)
    ensures
        apply_event(cache, reply_event(key, false)) == cache,
{
}

/// A split or a put is reported done only where TiKV answered without a
/// region error; a failed lookup or call (any error) reports it not done and
/// leaves the cache as it was.
pub proof fn law_only_clean_replies_succeed(
    split: Result<SplitRegionResponse>,
    put: Result<RawPutResponse>,
)
    ensures
        split_region_succeeded(split) ==> (split matches Ok(resp) && resp.region_error is None),
        split is Err ==> !split_region_succeeded(split) && !split_region_stale(split),
        raw_put_succeeded(put) ==> (put matches Ok(resp) && resp.region_error is None),
        put is Err ==> !raw_put_succeeded(put) && !raw_put_stale(put),
{
}

/// The client of a cluster: a TiKV server, the placement driver, and the
/// region leaders found so far, by key.
pub struct Client {
    pub tikv: KvClient,
    pub pd: PDClient,
    pub region_cache: RegionCache,
}

impl Clone for Client {
    fn clone(&self) -> (c: Self)
        ensures
            c.tikv.address@ == self.tikv.address@,
            c.pd == self.pd,
            c.cache() == self.cache(),
    {
        Client { tikv: self.tikv.clone(), pd: self.pd, region_cache: self.region_cache.clone() }
    }
}

impl Client {
    /// The region leaders cached, by key.
    pub open spec fn cache(&self) -> Map<Seq<u8>, RegionLeaderView> {
        self.region_cache@
    }

    /// A client with an empty cache.
    pub fn new(tikv: KvClient, pd: PDClient) -> (c: Self)
        ensures
            c.cache() == Map::<Seq<u8>, RegionLeaderView>::empty(),
            c.tikv == tikv,
            c.pd == pd,
    {
        Client { tikv, pd, region_cache: RegionCache::new() }
    }

    /// Forgets the region cached for `key`.
    pub fn remove(&mut self, key: Vec<u8>)
        ensures
            final(self).cache() == apply_event(old(self).cache(), CacheEvent::Evicted(key@)),
            final(self).tikv == old(self).tikv,
            final(self).pd == old(self).pd,
    {
        self.region_cache.remove(&key);
    }

    /// The region of `key`: the cached one, or else the request to send to
    /// the placement driver.
    pub fn get_region(&self, key: &Vec<u8>) -> (r: RegionLookup)
        ensures
            match r {
                RegionLookup::Cached(l) => lookup(self.cache(), key@) == Some(l@),
                RegionLookup::Fetch(req) => {
                    &&& lookup(self.cache(), key@) is None
                    &&& req.header.cluster_id == self.pd.cluster_id
                    &&& req.region_key@ == key@
                },
            },
    {
        match self.region_cache.get(key) {
            Some(l) => RegionLookup::Cached(l),
            None => {
                let k = crate::client::messages::copy_bytes(key);
                RegionLookup::Fetch(self.pd.get_regionleader_request(k))
            },
        }
    }

    /// Takes the placement driver's reply for `key`: a region it names is
    /// cached for `key` and returned; a reply without one is an error, whose
    /// message carries `reply_text`, what `{:?}` writes for the reply as it
    /// came over the wire.
    pub fn on_region_response(
        &mut self,
        key: Vec<u8>,
        resp: GetRegionResponse,
        reply_text: &str,
    ) -> (r: Result<
        RegionLeader,
    >)
        ensures
            final(self).tikv == old(self).tikv,
            final(self).pd == old(self).pd,
            match resp.region {
                Some(region) => r matches Ok(l) && l.region == region && l.leader == resp.leader
                    && final(self).cache() == apply_event(
                    old(self).cache(),
                    CacheEvent::Fetched(key@, l@),
                ),
                None => r matches Err(Error::PdError(m)) && m@ == no_region_message(reply_text@)
                    && final(self).cache() == old(self).cache(),
            },
    {
        let r = self.pd.get_regionleader(resp, reply_text);
        match r {
            Ok(l) => {
                self.region_cache.insert(key, l.clone());
                Ok(l)
            },
            Err(e) => Err(e),
        }
    }

    /// The request that splits, at `key`, the region cached for `key`,
    /// addressed to its leader; none where nothing is cached for `key` or
    /// the cached region has no leader.
    pub fn split_region_request(&self, key: Vec<u8>) -> (r: Option<SplitRegionRequest>)
        ensures
            r is Some <==> (lookup(self.cache(), key@) matches Some(l) && l.leader is Some),
            r matches Some(req) ==> req.context == context_for(self.cache()[key@])
                && req.context.peer == self.cache()[key@].leader && req.split_key == key,
    {
        match self.region_cache.get(&key) {
            Some(l) => {
                if l.leader.is_some() {
                    Some(self.tikv.split_region_request(l.form(), key))
                } else {
                    None
                }
            },
            None => None,
        }
    }

    /// The request that stores `value` under `key` in the region cached for
    /// `key`, addressed to its leader; none where nothing is cached for `key`
    /// or the cached region has no leader.
    pub fn raw_put_request(&self, key: Vec<u8>, value: Vec<u8>) -> (r: Option<RawPutRequest>)
        ensures
            r is Some <==> (lookup(self.cache(), key@) matches Some(l) && l.leader is Some),
            r matches Some(req) ==> req.context == context_for(self.cache()[key@])
                && req.context.peer == self.cache()[key@].leader && req.key == key && req.value
                == value,
    {
        match self.region_cache.get(&key) {
            Some(l) => {
                if l.leader.is_some() {
                    Some(self.tikv.raw_put_request(l.form(), key, value))
                } else {
                    None
                }
            },
            None => None,
        }
    }

    /// Takes the outcome of a split at `key` (the region lookup's error, or
    /// what the split call gave): true where TiKV split the region; a
    /// region error drops the region cached for `key`.
    pub fn split_region(&mut self, key: Vec<u8>, outcome: Result<SplitRegionResponse>) -> (r:
        bool)
        ensures
            r == split_region_succeeded(outcome),
            outcome is Err ==> !r,
            r ==> (outcome matches Ok(resp) && resp.region_error is None),
            final(self).cache() == apply_event(
                old(self).cache(),
                reply_event(key@, split_region_stale(outcome)),
            ),
            final(self).tikv == old(self).tikv,
            final(self).pd == old(self).pd,
    {
        match outcome {
            Ok(resp) => {
                if resp.region_error.is_some() {
                    self.remove(key);
                    false
                } else {
                    true
                }
            },
            Err(_) => false,
        }
    }

    /// Takes the outcome of a raw put of `key` (the region lookup's error,
    /// or what the put call gave): true where TiKV stored the value; a
    /// region error drops the region cached for `key`.
    pub fn raw_put(&mut self, key: Vec<u8>, outcome: Result<RawPutResponse>) -> (r: bool)
        ensures
            r == raw_put_succeeded(outcome),
            outcome is Err ==> !r,
            r ==> (outcome matches Ok(resp) && resp.region_error is None),
            final(self).cache() == apply_event(
                old(self).cache(),
                reply_event(key@, raw_put_stale(outcome)),
            ),
            final(self).tikv == old(self).tikv,
            final(self).pd == old(self).pd,
    {
        match outcome {
            Ok(resp) => {
                if resp.region_error.is_some() {
                    self.remove(key);
                    false
                } else {
                    true
                }
            },
            Err(_) => false,
        }
    }

    /// The request for the first regions from `start_key` on.
    pub fn scan_regions(&self, start_key: Vec<u8>) -> (req: ScanRegionsRequest)
        ensures
            req.header.cluster_id == self.pd.cluster_id,
            req.start_key == start_key,
            req.limit == SCAN_REGIONS_LIMIT,
    {
        self.pd.scan_regions(start_key)
    }
}

} // verus!
