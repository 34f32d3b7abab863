//! Samples from the bridged simulator.
//!
//! A helper process speaks that simulator's native interface and
//! republishes complete snapshots over a local socket, one JSON document
//! per datagram. The surrounding application owns the process and the
//! socket and decodes each document into an [`MSFSData`]; because the
//! helper always sends a whole record, a decoded sample replaces the
//! stored one outright instead of being field-merged.

use vstd::prelude::*;
use vstd::string::StringExecFns;
use crate::fbits::{hundreds_code, spec_hundreds_code};
use crate::text::{padded_code, spec_padded_code};

verus! {

/// One complete sample from the bridge. Numeric fields hold raw IEEE-754
/// bit patterns, in the same units as the canonical sample.
#[derive(Debug, Clone)]
pub struct MSFSData {
    pub callsign: String,
    pub altitude: u32,
    pub speed: u32,
    pub heading: u32,
    pub vertical_speed: u32,
    pub latitude: u32,
    pub longitude: u32,
    pub on_ground: bool,
}

/// The mathematical image of a bridge sample.
pub struct MSFSDataView {
    pub callsign: Seq<char>,
    pub altitude: u32,
    pub speed: u32,
    pub heading: u32,
    pub vertical_speed: u32,
    pub latitude: u32,
    pub longitude: u32,
    pub on_ground: bool,
}

impl View for MSFSData {
    type V = MSFSDataView;

    open spec fn view(&self) -> MSFSDataView {
        MSFSDataView {
            callsign: self.callsign@,
            altitude: self.altitude,
            speed: self.speed,
            heading: self.heading,
            vertical_speed: self.vertical_speed,
            latitude: self.latitude,
            longitude: self.longitude,
            on_ground: self.on_ground,
        }
    }
}

/// The sample held before the bridge has reported anything: every value
/// zero, parked on the ground.
pub open spec fn spec_default_msfs_data() -> MSFSDataView {
    MSFSDataView {
        callsign: Seq::<char>::empty(),
        altitude: 0,
        speed: 0,
        heading: 0,
        vertical_speed: 0,
        latitude: 0,
        longitude: 0,
        on_ground: true,
    }
}

impl Default for MSFSData {
    /// The sample held before the bridge has reported anything.
    fn default() -> (r: MSFSData)
        ensures
            r@ == spec_default_msfs_data(),
    {
        MSFSData {
            callsign: String::new(),
            altitude: 0,
            speed: 0,
            heading: 0,
            vertical_speed: 0,
            latitude: 0,
            longitude: 0,
            on_ground: true,
        }
    }
}

/// The bridge write policy: a decoded document replaces the stored sample
/// wholesale.
pub fn replace_sample(current: &mut MSFSData, incoming: MSFSData)
    ensures
        final(current)@ == incoming@,
{
    *current = incoming;
}

/// A read of the stored sample synthesizes a callsign from the altitude
/// when none has been received yet.
pub open spec fn spec_finalize_msfs_callsign(d: MSFSDataView) -> MSFSDataView {
    if d.callsign.len() == 0 {
        MSFSDataView { callsign: "MSFS"@ + spec_padded_code(spec_hundreds_code(d.altitude)), ..d }
    } else {
        d
    }
}

/// Copy the stored sample for a caller, synthesizing a callsign from the
/// altitude when none has been received yet.
pub fn finalize_flight_data(data: &MSFSData) -> (r: MSFSData)
    ensures
        r@ == spec_finalize_msfs_callsign(data@),
{
    let mut out = MSFSData {
        callsign: data.callsign.clone(),
        altitude: data.altitude,
        speed: data.speed,
        heading: data.heading,
        vertical_speed: data.vertical_speed,
        latitude: data.latitude,
        longitude: data.longitude,
        on_ground: data.on_ground,
    };
    if out.callsign.as_str().is_empty() {
        let mut callsign = String::new();
        callsign.append("MSFS");
        let code = padded_code(hundreds_code(data.altitude));
        callsign.append(code.as_str());
        out.callsign = callsign;
    }
    out
}

} // verus!
