use tikv_client::client::client::{Client, RegionLookup};
use tikv_client::client::comment::RegionLeader;
use tikv_client::client::error::Error;
use tikv_client::client::kv_client::KvClient;
use tikv_client::client::messages::{
    Context, GetRegionResponse, Peer, RawPutResponse, Region, RegionEpoch, RegionError, ResponseHeader,
    SplitRegionResponse,
};
use tikv_client::client::pd_client::PDClient;

fn region(id: u64) -> Region {
    Region {
        id,
        start_key: b"a".to_vec(),
        end_key: b"z".to_vec(),
        region_epoch: Some(RegionEpoch { conf_ver: 2, version: 7 }),
        peers: vec![Peer { id: 11, store_id: 1 }, Peer { id: 12, store_id: 2 }],
    }
}

fn reply(id: u64, leader: Option<Peer>) -> GetRegionResponse {
    GetRegionResponse { header: ResponseHeader { cluster_id: 42 }, region: Some(region(id)), leader }
}

fn client() -> Client {
    Client::new(KvClient::new("127.0.0.1:20160"), PDClient::new(42))
}

fn fetch_key(c: &mut Client, key: &[u8], id: u64) -> RegionLeader {
    match c.get_region(&key.to_vec()) {
        RegionLookup::Fetch(req) => {
            assert_eq!(req.header.cluster_id, 42);
            assert_eq!(req.region_key, key.to_vec());
        }
        RegionLookup::Cached(_) => panic!("expected a cache miss"),
    }
    c.on_region_response(key.to_vec(), reply(id, Some(Peer { id: 11, store_id: 1 })), "reply").unwrap()
}

fn cached_id(c: &Client, key: &[u8]) -> Option<u64> {
    match c.get_region(&key.to_vec()) {
        RegionLookup::Cached(l) => Some(l.id()),
        RegionLookup::Fetch(_) => None,
    }
}

#[test]
fn new_client_has_empty_cache() {
    let c = client();
    assert_eq!(cached_id(&c, b"k"), None);
    assert_eq!(c.pd.cluster_id, 42);
    assert_eq!(c.tikv.address, "127.0.0.1:20160");
}

#[test]
fn fetched_region_is_served_from_cache() {
    let mut c = client();
    let l = fetch_key(&mut c, b"k1", 5);
    assert_eq!(l.id(), 5);
    match c.get_region(&b"k1".to_vec()) {
        RegionLookup::Cached(cached) => {
            assert_eq!(cached.region.id, 5);
            assert_eq!(cached.region.start_key, b"a".to_vec());
            assert_eq!(cached.region.peers.len(), 2);
            assert_eq!(cached.leader, Some(Peer { id: 11, store_id: 1 }));
        }
        RegionLookup::Fetch(_) => panic!("expected a cache hit"),
    }
}

#[test]
fn later_fetch_replaces_earlier_one() {
    let mut c = client();
    fetch_key(&mut c, b"k1", 5);
    c.on_region_response(b"k1".to_vec(), reply(6, None), "reply").unwrap();
    assert_eq!(cached_id(&c, b"k1"), Some(6));
}

#[test]
fn remove_forces_refetch_and_keeps_other_keys() {
    let mut c = client();
    fetch_key(&mut c, b"k1", 5);
    fetch_key(&mut c, b"k2", 8);
    c.remove(b"k1".to_vec());
    assert_eq!(cached_id(&c, b"k1"), None);
    assert_eq!(cached_id(&c, b"k2"), Some(8));
    c.remove(b"absent".to_vec());
    assert_eq!(cached_id(&c, b"k2"), Some(8));
}

#[test]
fn reply_without_region_is_pd_error_and_caches_nothing() {
    let mut c = client();
    let resp = GetRegionResponse { header: ResponseHeader { cluster_id: 42 }, region: None, leader: None };
    match c.on_region_response(b"k".to_vec(), resp, "header { cluster_id: 42 }") {
        Err(Error::PdError(m)) => assert_eq!(m, "get region error header { cluster_id: 42 }"),
        other => panic!("unexpected {:?}", other),
    }
    assert_eq!(cached_id(&c, b"k"), None);
}

#[test]
fn split_region_error_evicts_key() {
    let mut c = client();
    fetch_key(&mut c, b"k", 5);
    let resp = SplitRegionResponse {
        region_error: Some(RegionError { message: "epoch not match".to_string() }),
        left: None,
        right: None,
    };
    assert!(!c.split_region(b"k".to_vec(), Ok(resp)));
    assert_eq!(cached_id(&c, b"k"), None);
}

#[test]
fn split_region_success_keeps_cache() {
    let mut c = client();
    fetch_key(&mut c, b"k", 5);
    let resp = SplitRegionResponse { region_error: None, left: Some(region(9)), right: Some(region(10)) };
    assert!(c.split_region(b"k".to_vec(), Ok(resp)));
    assert_eq!(cached_id(&c, b"k"), Some(5));
}

#[test]
fn split_region_transport_error_is_false_and_keeps_cache() {
    let mut c = client();
    fetch_key(&mut c, b"k", 5);
    assert!(!c.split_region(b"k".to_vec(), Err(Error::KvError("split_region err x".to_string()))));
    assert_eq!(cached_id(&c, b"k"), Some(5));
}

#[test]
fn raw_put_region_error_evicts_key() {
    let mut c = client();
    fetch_key(&mut c, b"k", 5);
    fetch_key(&mut c, b"other", 6);
    let resp = RawPutResponse {
        region_error: Some(RegionError { message: "not leader".to_string() }),
        error: String::new(),
    };
    assert!(!c.raw_put(b"k".to_vec(), Ok(resp)));
    assert_eq!(cached_id(&c, b"k"), None);
    assert_eq!(cached_id(&c, b"other"), Some(6));
}

#[test]
fn raw_put_success_is_true() {
    let mut c = client();
    fetch_key(&mut c, b"k", 5);
    let resp = RawPutResponse { region_error: None, error: String::new() };
    assert!(c.raw_put(b"k".to_vec(), Ok(resp)));
    assert_eq!(cached_id(&c, b"k"), Some(5));
}

#[test]
fn raw_put_pd_error_is_false() {
    let mut c = client();
    assert!(!c.raw_put(b"k".to_vec(), Err(Error::PdError("get region error".to_string()))));
}

#[test]
fn client_scan_regions_request() {
    let c = client();
    let req = c.scan_regions(b"a".to_vec());
    assert_eq!(req.header.cluster_id, 42);
    assert_eq!(req.start_key, b"a".to_vec());
    assert_eq!(req.limit, 5);
}

#[test]
fn cloned_client_keeps_cache() {
    let mut c = client();
    fetch_key(&mut c, b"k", 5);
    let d = c.clone();
    assert_eq!(cached_id(&d, b"k"), Some(5));
    assert_eq!(d.tikv.address, "127.0.0.1:20160");
    c.remove(b"k".to_vec());
    assert_eq!(cached_id(&d, b"k"), Some(5));
}

#[test]
fn split_region_request_uses_cached_region_context() {
    let mut c = client();
    assert!(c.split_region_request(b"k".to_vec()).is_none());
    fetch_key(&mut c, b"k", 5);
    let req = c.split_region_request(b"k".to_vec()).unwrap();
    assert_eq!(req.split_key, b"k".to_vec());
    assert_eq!(
        req.context,
        Context {
            region_id: 5,
            region_epoch: Some(RegionEpoch { conf_ver: 2, version: 7 }),
            peer: Some(Peer { id: 11, store_id: 1 }),
        }
    );
}

#[test]
fn raw_put_request_uses_cached_region_context() {
    let mut c = client();
    assert!(c.raw_put_request(b"k".to_vec(), b"v".to_vec()).is_none());
    fetch_key(&mut c, b"k", 5);
    let req = c.raw_put_request(b"k".to_vec(), b"v".to_vec()).unwrap();
    assert_eq!(req.key, b"k".to_vec());
    assert_eq!(req.value, b"v".to_vec());
    assert_eq!(req.context.region_id, 5);
    assert_eq!(req.context.peer, Some(Peer { id: 11, store_id: 1 }));
}

#[test]
fn request_without_leader_is_none() {
    let mut c = client();
    c.on_region_response(b"k".to_vec(), reply(5, None), "reply").unwrap();
    assert!(c.split_region_request(b"k".to_vec()).is_none());
    assert!(c.raw_put_request(b"k".to_vec(), b"v".to_vec()).is_none());
}
