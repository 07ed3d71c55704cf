use tikv_client::client::comment::RegionLeader;
use tikv_client::client::messages::{Context, Peer, Region, RegionEpoch};

fn region(epoch: Option<RegionEpoch>) -> Region {
    Region { id: 3, start_key: vec![], end_key: vec![9], region_epoch: epoch, peers: vec![] }
}

#[test]
fn region_leader_id_and_peer() {
    let l = RegionLeader::new(region(None), Some(Peer { id: 4, store_id: 1 }));
    assert_eq!(l.id(), 3);
    assert_eq!(l.peer(), Peer { id: 4, store_id: 1 });
}

#[test]
fn form_addresses_the_leader() {
    let l = RegionLeader::new(region(Some(RegionEpoch { conf_ver: 5, version: 6 })), Some(Peer { id: 4, store_id: 1 }));
    let ctx = l.form();
    assert_eq!(
        ctx,
        Context {
            region_id: 3,
            region_epoch: Some(RegionEpoch { conf_ver: 5, version: 6 }),
            peer: Some(Peer { id: 4, store_id: 1 }),
        }
    );
}

#[test]
fn form_without_epoch_uses_default_epoch() {
    let l = RegionLeader::new(region(None), Some(Peer { id: 4, store_id: 1 }));
    assert_eq!(l.form().region_epoch, Some(RegionEpoch { conf_ver: 0, version: 0 }));
}

#[test]
fn region_clone_is_equal() {
    let r = Region {
        id: 1,
        start_key: vec![1, 2],
        end_key: vec![3],
        region_epoch: None,
        peers: vec![Peer { id: 1, store_id: 2 }],
    };
    let c = r.clone();
    assert_eq!(c.start_key, vec![1, 2]);
    assert_eq!(c.end_key, vec![3]);
    assert_eq!(c.peers, vec![Peer { id: 1, store_id: 2 }]);
}
