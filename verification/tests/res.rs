use tikv_client::client::messages::{RawPutResponse, RegionError, SplitRegionResponse};
use tikv_client::error::{Error, Res};

#[test]
fn res_new_is_success() {
    let r = Res::new();
    assert!(r.resp);
    assert!(r.put_resp.is_none());
    assert!(r.split_resp.is_none());
}

#[test]
fn res_put_err_keeps_reply() {
    let r = Res::put_err(RawPutResponse {
        region_error: Some(RegionError { message: "m".to_string() }),
        error: String::new(),
    });
    assert!(!r.resp);
    assert_eq!(r.put_resp.unwrap().region_error.unwrap().message, "m");
    assert!(r.split_resp.is_none());
}

#[test]
fn res_split_err_keeps_reply() {
    let r = Res::split_err(SplitRegionResponse { region_error: None, left: None, right: None });
    assert!(!r.resp);
    assert!(r.put_resp.is_none());
    assert!(r.split_resp.is_some());
}

#[test]
fn error_variants_debug() {
    assert_eq!(format!("{:?}", Error::Other), "Other");
    assert_eq!(format!("{:?}", Error::TiKVError("t".to_string())), "TiKVError(\"t\")");
}
