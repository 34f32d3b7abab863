//! The snapshot store: a single slot holding the most recent sample.
//!
//! One producer merges decoded datagrams in; any number of readers copy
//! the latest committed value out. The surrounding application serializes
//! access with one lock around the whole store, so every write is atomic
//! from a reader's point of view; the store itself is the sequential core
//! those critical sections run.

use vstd::prelude::*;
use crate::simulator::{
    FlightData, spec_default_flight_data, spec_merge, spec_apply_packet, merge_sample,
    apply_packet, spec_parse_xplane_packet,
};

verus! {

/// The single slot. The X-Plane receiver writes through [`Self::write`]
/// and [`Self::apply_packet`]; readers take copies through [`Self::read`].
pub struct SnapshotStore {
    pub data: FlightData,
}

impl SnapshotStore {
    /// An empty store: the all-unknown sample.
    pub fn new() -> (r: SnapshotStore)
        ensures
            r.data@ == spec_default_flight_data(),
    {
        SnapshotStore { data: FlightData::default() }
    }

    /// Merge one decoded sample under the field-level overwrite policy.
    pub fn write(&mut self, incoming: &FlightData)
        ensures
            final(self).data@ == spec_merge(old(self).data@, incoming@),
    {
        merge_sample(&mut self.data, incoming);
    }

    /// Decode one datagram and merge whatever it carried; malformed
    /// datagrams leave the store unchanged.
    pub fn apply_packet(&mut self, buf: &[u8]) -> (applied: bool)
        ensures
            final(self).data@ == spec_apply_packet(old(self).data@, buf@),
            applied == (spec_parse_xplane_packet(buf@) is Some),
    {
        apply_packet(&mut self.data, buf)
    }

    /// Copy the latest committed sample out.
    pub fn read(&self) -> (r: FlightData)
        ensures
            r@ == self.data@,
    {
        FlightData {
            callsign: self.data.callsign.clone(),
            altitude: self.data.altitude,
            speed: self.data.speed,
            heading: self.data.heading,
            vertical_speed: self.data.vertical_speed,
            latitude: self.data.latitude,
            longitude: self.data.longitude,
        }
    }
}

} // verus!
