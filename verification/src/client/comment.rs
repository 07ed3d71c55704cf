//! A region together with the peer that leads it.

use crate::client::messages::{default_epoch, Context, Peer, Region, RegionEpoch, RegionView};
use vstd::prelude::*;

verus! {

/// A region and, where the placement driver named one, its leader.
#[derive(Debug)]
pub struct RegionLeader {
    pub region: Region,
    pub leader: Option<Peer>,
}

/// A region leader as a mathematical value.
pub struct RegionLeaderView {
    pub region: RegionView,
    pub leader: Option<Peer>,
}

impl View for RegionLeader {
    type V = RegionLeaderView;

    open spec fn view(&self) -> RegionLeaderView {
        RegionLeaderView { region: self.region@, leader: self.leader }
    }
}

impl Clone for RegionLeader {
    fn clone(&self) -> (r: Self)
        ensures
            r@ == self@,
    {
        RegionLeader { region: self.region.clone(), leader: self.leader }
    }
}

/// The epoch that a region reports: its own, or the default one where it
/// has none.
pub open spec fn epoch_of(region: RegionView) -> RegionEpoch {
    match region.region_epoch {
        Some(e) => e,
        None => default_epoch(),
    }
}

/// The context that addresses a request to the leader of a region.
pub open spec fn context_for(rl: RegionLeaderView) -> Context
    recommends
        rl.leader is Some,
{
    Context {
        region_id: rl.region.id,
        region_epoch: Some(epoch_of(rl.region)),
        peer: Some(rl.leader->0),
    }
}

/// A request addressed to a region leader goes to the leader itself, with
/// the region's id and epoch (the default epoch where the region has none),
/// whatever replicas the region lists.
pub proof fn law_context_addresses_leader(rl: RegionLeaderView)
    requires
        rl.leader is Some,
    ensures
        context_for(rl).peer == rl.leader,
        context_for(rl).region_id == rl.region.id,
        context_for(rl).region_epoch == Some(
            match rl.region.region_epoch {
                Some(e) => e,
                None => RegionEpoch { conf_ver: 0, version: 0 },
            },
        ),
{
}

impl RegionLeader {
    pub fn new(region: Region, leader: Option<Peer>) -> (r: Self)
        ensures
            r.region == region,
            r.leader == leader,
    {
        RegionLeader { region, leader }
    }

    /// The region's id.
    pub fn id(&self) -> (r: u64)
        ensures
            r == self.region.id,
    {
        self.region.id
    }

    /// The context of a request to this region: its id, its epoch and its
    /// leader. There must be a leader.
    pub fn form(&self) -> (ctx: Context)
        requires
            self.leader is Some,
        ensures
            ctx == context_for(self@),
            ctx.peer == self.leader,
            ctx.region_id == self.region.id,
    {
        let epoch = match self.region.region_epoch {
            Some(e) => e,
            None => RegionEpoch { conf_ver: 0, version: 0 },
        };
        Context { region_id: self.id(), region_epoch: Some(epoch), peer: Some(self.peer()) }
    }

    /// The leader peer. There must be one.
    pub fn peer(&self) -> (p: Peer)
        requires
            self.leader is Some,
        ensures
            p == self.leader->0,
    {
        self.leader.unwrap()
    }
}

} // verus!
