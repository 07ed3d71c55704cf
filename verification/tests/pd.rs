use tikv_client::client::error::Error;
use tikv_client::client::messages::{
    GetMembersResponse, GetRegionResponse, Peer, Region, ResponseHeader, ScanRegionsResponse,
};
use tikv_client::client::pd_client::{EndpointStep, PDClient, MAX_CONNECT_ATTEMPTS};

#[test]
fn validate_endpoints_connects_until_max_attempts() {
    assert!(matches!(PDClient::validate_endpoints(0, None, "pd:2379"), EndpointStep::Connect));
    assert!(matches!(PDClient::validate_endpoints(99, None, "pd:2379"), EndpointStep::Connect));
    assert_eq!(MAX_CONNECT_ATTEMPTS, 100);
}

#[test]
fn validate_endpoints_gives_cluster_id() {
    let resp = GetMembersResponse { header: ResponseHeader { cluster_id: 77 } };
    assert!(matches!(PDClient::validate_endpoints(3, Some(resp), "pd:2379"), EndpointStep::Connected(77)));
}

#[test]
fn validate_endpoints_gives_up_after_max_attempts() {
    match PDClient::validate_endpoints(100, None, "127.0.0.1:2379") {
        EndpointStep::Unreachable(Error::PdError(m)) => {
            assert_eq!(m, "unconnect to pd,pd addr is \"127.0.0.1:2379\"")
        }
        other => panic!("unexpected {:?}", other),
    }
}

#[test]
fn get_regionleader_request_carries_cluster_id() {
    let pd = PDClient::new(9);
    let req = pd.get_regionleader_request(b"key".to_vec());
    assert_eq!(req.header.cluster_id, 9);
    assert_eq!(req.region_key, b"key".to_vec());
}

#[test]
fn get_regionleader_reads_region_and_leader() {
    let pd = PDClient::new(9);
    let region = Region { id: 5, start_key: vec![], end_key: vec![], region_epoch: None, peers: vec![] };
    let resp = GetRegionResponse { header: ResponseHeader { cluster_id: 9 }, region: Some(region), leader: None };
    let l = pd.get_regionleader(resp, "r").unwrap();
    assert_eq!(l.region.id, 5);
    assert_eq!(l.leader, None);
    let region = Region { id: 6, start_key: vec![], end_key: vec![], region_epoch: None, peers: vec![] };
    let resp = GetRegionResponse {
        header: ResponseHeader { cluster_id: 9 },
        region: Some(region),
        leader: Some(Peer { id: 2, store_id: 3 }),
    };
    assert_eq!(pd.get_regionleader(resp, "r").unwrap().leader, Some(Peer { id: 2, store_id: 3 }));
}

#[test]
fn get_regionleader_without_region_is_error() {
    let pd = PDClient::new(9);
    let resp = GetRegionResponse { header: ResponseHeader { cluster_id: 9 }, region: None, leader: None };
    match pd.get_regionleader(resp, "header { cluster_id: 9 }") {
        Err(Error::PdError(m)) => assert_eq!(m, "get region error header { cluster_id: 9 }"),
        other => panic!("unexpected {:?}", other),
    }
}

#[test]
fn scan_regions_asks_for_five() {
    let req = PDClient::new(1).scan_regions(b"a".to_vec());
    assert_eq!(req.header.cluster_id, 1);
    assert_eq!(req.start_key, b"a".to_vec());
    assert_eq!(req.limit, 5);
}

#[test]
fn get_region_gives_the_region() {
    let pd = PDClient::new(9);
    let region = Region { id: 7, start_key: vec![1], end_key: vec![], region_epoch: None, peers: vec![] };
    let resp = GetRegionResponse { header: ResponseHeader { cluster_id: 9 }, region: Some(region), leader: None };
    let r = pd.get_region(resp);
    assert_eq!(r.id, 7);
    assert_eq!(r.start_key, vec![1]);
}

#[test]
fn scan_regions_reply_is_true() {
    let pd = PDClient::new(1);
    let resp = ScanRegionsResponse { header: ResponseHeader { cluster_id: 1 }, regions: vec![], leaders: vec![] };
    assert!(pd.scan_regions_reply(&resp));
}
