//! The telemetry facade: the seam the rest of the application calls
//! through.
//!
//! At most one simulator connection is active at a time. The facade keeps
//! which kind is active and owns the phase detector; the sockets, threads
//! and helper process behind a connection live in the surrounding
//! application, which hands the latest stored sample in on every read.
//! A read never blocks waiting for fresh data: it reflects whatever the
//! active receiver has stored, classifies it, and reports the phase
//! alongside the sample.

use vstd::prelude::*;
use vstd::string::StringSliceAdditionalSpecFns;
use vstd::string::StringExecFns;
use crate::fbits::{spec_lt, abs_bits, lt_bits, abs_value_bits};
use crate::flight_phase::{
    FlightPhase, FlightData as PhaseSample, FlightPhaseDetector, spec_detect_phase,
    spec_update_detector, spec_phase_key, spec_phase_display_name,
};
use crate::msfs::{MSFSData, MSFSDataView, spec_finalize_msfs_callsign};
use crate::simulator::{FlightData, FlightDataView, spec_finalize_callsign};
use crate::text::str_eq;

verus! {

/// The two supported simulators.
#[derive(Debug, Clone, Copy, PartialEq, Eq, Structural)]
pub enum SimulatorKind {
    XPlane,
    Msfs,
}

/// A read was requested while no matching receiver is active.
#[derive(Debug, Clone, Copy, PartialEq, Eq, Structural)]
pub enum NotConnectedError {
    /// No connection has been made at all.
    NoSimulator,
    /// The X-Plane connection is selected but not running.
    XPlaneInactive,
    /// The bridged connection is selected but not running.
    MsfsInactive,
}

/// A failure to establish a connection, fatal to the connect call.
#[derive(Debug, Clone)]
pub enum ConnectionError {
    /// The local socket could not be bound.
    Bind(String),
    /// A subscription request could not be sent.
    Subscribe(String),
    /// The bridge helper is not present at its known path.
    MissingHelper,
    /// The bridge helper process could not be started.
    Spawn(String),
}

/// The message for each read failure.
pub open spec fn spec_not_connected_message(e: NotConnectedError) -> Seq<char> {
    match e {
        NotConnectedError::NoSimulator => "No simulator connected"@,
        NotConnectedError::XPlaneInactive => "Not connected to X-Plane"@,
        NotConnectedError::MsfsInactive => "Not connected to MSFS"@,
    }
}

impl NotConnectedError {
    /// The message for this read failure.
    pub fn message(&self) -> (r: String)
        ensures
            r@ == spec_not_connected_message(*self),
    {
        match self {
            NotConnectedError::NoSimulator => "No simulator connected".to_owned(),
            NotConnectedError::XPlaneInactive => "Not connected to X-Plane".to_owned(),
            NotConnectedError::MsfsInactive => "Not connected to MSFS".to_owned(),
        }
    }
}

/// The message for each connection failure.
pub open spec fn spec_connection_message(e: ConnectionError) -> Seq<char> {
    match e {
        ConnectionError::Bind(s) => "Failed to bind UDP socket: "@ + s@,
        ConnectionError::Subscribe(s) => "Failed to send subscription request: "@ + s@,
        ConnectionError::MissingHelper => "MSFS bridge script not found. Please run setup first."@,
        ConnectionError::Spawn(s) => "Failed to start MSFS bridge process: "@ + s@,
    }
}

impl ConnectionError {
    /// The message for this connection failure.
    pub fn message(&self) -> (r: String)
        ensures
            r@ == spec_connection_message(*self),
    {
        match self {
            ConnectionError::Bind(s) => {
                let mut out = String::new();
                out.append("Failed to bind UDP socket: ");
                out.append(s.as_str());
                out
            },
            ConnectionError::Subscribe(s) => {
                let mut out = String::new();
                out.append("Failed to send subscription request: ");
                out.append(s.as_str());
                out
            },
            ConnectionError::MissingHelper => {
                "MSFS bridge script not found. Please run setup first.".to_owned()
            },
            ConnectionError::Spawn(s) => {
                let mut out = String::new();
                out.append("Failed to start MSFS bridge process: ");
                out.append(s.as_str());
                out
            },
        }
    }
}

/// 10 ft: below this altitude the X-Plane path may call the aircraft
/// grounded.
pub const ON_GROUND_ALT_MAX_BITS: u32 = 0x4120_0000;

/// 100 fpm: the vertical-speed band within which the X-Plane path may
/// call the aircraft grounded.
pub const ON_GROUND_VSPEED_BAND_BITS: u32 = 0x42c8_0000;

/// The X-Plane stream carries no ground flag, so one is derived: on the
/// ground means essentially at field elevation and essentially level.
pub open spec fn spec_derived_on_ground(altitude: u32, vertical_speed: u32) -> bool {
    spec_lt(altitude, ON_GROUND_ALT_MAX_BITS) && spec_lt(
        abs_bits(vertical_speed),
        ON_GROUND_VSPEED_BAND_BITS,
    )
}

/// Whether the X-Plane path calls this sample grounded, computed.
pub fn derived_on_ground(altitude: u32, vertical_speed: u32) -> (r: bool)
    ensures
        r == spec_derived_on_ground(altitude, vertical_speed),
{
    lt_bits(altitude, ON_GROUND_ALT_MAX_BITS) && lt_bits(
        abs_value_bits(vertical_speed),
        ON_GROUND_VSPEED_BAND_BITS,
    )
}

/// What a successful read hands back: the sample and its classification.
#[derive(Debug, Clone)]
pub struct FlightDataResponse {
    pub callsign: String,
    pub altitude: u32,
    pub speed: u32,
    pub heading: u32,
    pub vertical_speed: u32,
    pub latitude: u32,
    pub longitude: u32,
    pub phase: String,
    pub phase_display: String,
}

/// The mathematical image of a read response.
pub struct FlightDataResponseView {
    pub callsign: Seq<char>,
    pub altitude: u32,
    pub speed: u32,
    pub heading: u32,
    pub vertical_speed: u32,
    pub latitude: u32,
    pub longitude: u32,
    pub phase: Seq<char>,
    pub phase_display: Seq<char>,
}

impl View for FlightDataResponse {
    type V = FlightDataResponseView;

    open spec fn view(&self) -> FlightDataResponseView {
        FlightDataResponseView {
            callsign: self.callsign@,
            altitude: self.altitude,
            speed: self.speed,
            heading: self.heading,
            vertical_speed: self.vertical_speed,
            latitude: self.latitude,
            longitude: self.longitude,
            phase: self.phase@,
            phase_display: self.phase_display@,
        }
    }
}

/// The phase report: key, display name, and whole seconds in the phase.
#[derive(Debug, Clone)]
pub struct PhaseInfo {
    pub phase: String,
    pub display_name: String,
    pub duration_seconds: u64,
}

/// The mathematical image of a phase report.
pub struct PhaseInfoView {
    pub phase: Seq<char>,
    pub display_name: Seq<char>,
    pub duration_seconds: u64,
}

impl View for PhaseInfo {
    type V = PhaseInfoView;

    open spec fn view(&self) -> PhaseInfoView {
        PhaseInfoView {
            phase: self.phase@,
            display_name: self.display_name@,
            duration_seconds: self.duration_seconds,
        }
    }
}

/// The classifier sample the X-Plane path derives from a stored sample.
pub open spec fn spec_xplane_sample(d: FlightDataView) -> PhaseSample {
    PhaseSample {
        altitude: d.altitude,
        speed: d.speed,
        heading: d.heading,
        vertical_speed: d.vertical_speed,
        on_ground: spec_derived_on_ground(d.altitude, d.vertical_speed),
    }
}

/// The classifier sample the bridged path derives from a stored sample.
pub open spec fn spec_msfs_sample(d: MSFSDataView) -> PhaseSample {
    PhaseSample {
        altitude: d.altitude,
        speed: d.speed,
        heading: d.heading,
        vertical_speed: d.vertical_speed,
        on_ground: d.on_ground,
    }
}

/// The response assembled from a finalized X-Plane sample.
pub open spec fn spec_xplane_response(d: FlightDataView, phase: FlightPhase) -> FlightDataResponseView {
    FlightDataResponseView {
        callsign: d.callsign,
        altitude: d.altitude,
        speed: d.speed,
        heading: d.heading,
        vertical_speed: d.vertical_speed,
        latitude: d.latitude,
        longitude: d.longitude,
        phase: spec_phase_key(phase),
        phase_display: spec_phase_display_name(phase),
    }
}

/// The response assembled from a finalized bridge sample.
pub open spec fn spec_msfs_response(d: MSFSDataView, phase: FlightPhase) -> FlightDataResponseView {
    FlightDataResponseView {
        callsign: d.callsign,
        altitude: d.altitude,
        speed: d.speed,
        heading: d.heading,
        vertical_speed: d.vertical_speed,
        latitude: d.latitude,
        longitude: d.longitude,
        phase: spec_phase_key(phase),
        phase_display: spec_phase_display_name(phase),
    }
}

/// The facade: which simulator is active, and the phase detector fed by
/// every successful read.
pub struct TelemetryFacade {
    pub current_sim: Option<SimulatorKind>,
    pub detector: FlightPhaseDetector,
}

/// The stored X-Plane sample handed to a read, viewed.
pub open spec fn spec_opt_xplane(o: Option<&FlightData>) -> Option<FlightDataView> {
    match o {
        Some(d) => Some(d@),
        None => None,
    }
}

/// The stored bridge sample handed to a read, viewed.
pub open spec fn spec_opt_msfs(o: Option<&MSFSData>) -> Option<MSFSDataView> {
    match o {
        Some(d) => Some(d@),
        None => None,
    }
}

/// What a read returns, given the facade state and the stored samples.
pub open spec fn spec_read_result(
    f: TelemetryFacade,
    xplane: Option<FlightDataView>,
    msfs: Option<MSFSDataView>,
) -> Result<FlightDataResponseView, NotConnectedError> {
    match f.current_sim {
        None => Err(NotConnectedError::NoSimulator),
        Some(SimulatorKind::XPlane) => match xplane {
            None => Err(NotConnectedError::XPlaneInactive),
            Some(d) => {
                let fin = spec_finalize_callsign(d);
                let phase = spec_detect_phase(spec_xplane_sample(fin), f.detector.current_phase);
                Ok(spec_xplane_response(fin, phase))
            },
        },
        Some(SimulatorKind::Msfs) => match msfs {
            None => Err(NotConnectedError::MsfsInactive),
            Some(d) => {
                let fin = spec_finalize_msfs_callsign(d);
                let phase = spec_detect_phase(spec_msfs_sample(fin), f.detector.current_phase);
                Ok(spec_msfs_response(fin, phase))
            },
        },
    }
}

/// How a read changes the facade: a successful read steps the detector,
/// a failed one changes nothing.
pub open spec fn spec_read_state(
    f: TelemetryFacade,
    xplane: Option<FlightDataView>,
    msfs: Option<MSFSDataView>,
    now_ms: u64,
) -> TelemetryFacade {
    match f.current_sim {
        None => f,
        Some(SimulatorKind::XPlane) => match xplane {
            None => f,
            Some(d) => TelemetryFacade {
                current_sim: f.current_sim,
                detector: spec_update_detector(
                    f.detector,
                    spec_xplane_sample(spec_finalize_callsign(d)),
                    now_ms,
                ),
            },
        },
        Some(SimulatorKind::Msfs) => match msfs {
            None => f,
            Some(d) => TelemetryFacade {
                current_sim: f.current_sim,
                detector: spec_update_detector(
                    f.detector,
                    spec_msfs_sample(spec_finalize_msfs_callsign(d)),
                    now_ms,
                ),
            },
        },
    }
}

/// The facade after a disconnect: no simulator selected, detector kept.
pub open spec fn spec_disconnect(f: TelemetryFacade) -> TelemetryFacade {
    TelemetryFacade { current_sim: None, detector: f.detector }
}

impl TelemetryFacade {
    /// A fresh facade: nothing connected, detector at pre-flight.
    pub fn new(now_ms: u64) -> (r: TelemetryFacade)
        ensures
            r.current_sim is None,
            r.detector.current_phase == FlightPhase::PreFlight,
            r.detector.previous_altitude == 0,
            r.detector.previous_speed == 0,
            r.detector.phase_start_ms == now_ms,
    {
        TelemetryFacade { current_sim: None, detector: FlightPhaseDetector::new(now_ms) }
    }

    /// Record that a connection of the given kind is now active. The
    /// surrounding application calls this only after its sockets, thread
    /// and (for the bridge) helper process came up; a failed attempt
    /// leaves the facade untouched, so the system stays in its
    /// pre-connection state.
    pub fn connect(&mut self, kind: SimulatorKind)
        ensures
            final(self).current_sim == Some(kind),
            final(self).detector == old(self).detector,
    {
        self.current_sim = Some(kind);
    }

    /// Record that the active connection has been torn down. Infallible:
    /// whatever cleanup the application attempted, the facade ends up
    /// disconnected.
    pub fn disconnect(&mut self)
        ensures
            *final(self) == spec_disconnect(*old(self)),
    {
        self.current_sim = None;
    }

    /// Whether a connection is currently recorded as active.
    pub fn is_connected(&self) -> (r: bool)
        ensures
            r == (self.current_sim is Some),
    {
        match self.current_sim {
            Some(_) => true,
            None => false,
        }
    }

    /// Read the latest stored sample of the active simulator, classify
    /// it, and report sample and phase together. Fails exactly when no
    /// simulator is selected or the selected one has no store.
    pub fn read_snapshot(
        &mut self,
        xplane: Option<&FlightData>,
        msfs: Option<&MSFSData>,
        now_ms: u64,
    ) -> (r: Result<FlightDataResponse, NotConnectedError>)
        ensures
            *final(self) == spec_read_state(
                *old(self),
                spec_opt_xplane(xplane),
                spec_opt_msfs(msfs),
                now_ms,
            ),
            (match r {
                Ok(resp) => spec_read_result(
                    *old(self),
                    spec_opt_xplane(xplane),
                    spec_opt_msfs(msfs),
                ) == Ok::<FlightDataResponseView, NotConnectedError>(resp@),
                Err(e) => spec_read_result(
                    *old(self),
                    spec_opt_xplane(xplane),
                    spec_opt_msfs(msfs),
                ) == Err::<FlightDataResponseView, NotConnectedError>(e),
            }),
    {
        match self.current_sim {
            None => Err(NotConnectedError::NoSimulator),
            Some(SimulatorKind::XPlane) => match xplane {
                None => Err(NotConnectedError::XPlaneInactive),
                Some(d) => {
                    let data = crate::simulator::finalize_flight_data(d);
                    let sample = PhaseSample {
                        altitude: data.altitude,
                        speed: data.speed,
                        heading: data.heading,
                        vertical_speed: data.vertical_speed,
                        on_ground: derived_on_ground(data.altitude, data.vertical_speed),
                    };
                    let phase = self.detector.update(&sample, now_ms);
                    Ok(FlightDataResponse {
                        callsign: data.callsign,
                        altitude: data.altitude,
                        speed: data.speed,
                        heading: data.heading,
                        vertical_speed: data.vertical_speed,
                        latitude: data.latitude,
                        longitude: data.longitude,
                        phase: phase.as_str().to_owned(),
                        phase_display: phase.display_name().to_owned(),
                    })
                },
            },
            Some(SimulatorKind::Msfs) => match msfs {
                None => Err(NotConnectedError::MsfsInactive),
                Some(d) => {
                    let data = crate::msfs::finalize_flight_data(d);
                    let sample = PhaseSample {
                        altitude: data.altitude,
                        speed: data.speed,
                        heading: data.heading,
                        vertical_speed: data.vertical_speed,
                        on_ground: data.on_ground,
                    };
                    let phase = self.detector.update(&sample, now_ms);
                    Ok(FlightDataResponse {
                        callsign: data.callsign,
                        altitude: data.altitude,
                        speed: data.speed,
                        heading: data.heading,
                        vertical_speed: data.vertical_speed,
                        latitude: data.latitude,
                        longitude: data.longitude,
                        phase: phase.as_str().to_owned(),
                        phase_display: phase.display_name().to_owned(),
                    })
                },
            },
        }
    }

    /// The phase report for the current detector state.
    pub fn current_phase_info(&self, now_ms: u64) -> (r: PhaseInfo)
        ensures
            r@.phase == spec_phase_key(self.detector.current_phase),
            r@.display_name == spec_phase_display_name(self.detector.current_phase),
            r@.duration_seconds == (if now_ms >= self.detector.phase_start_ms {
                (now_ms - self.detector.phase_start_ms) as u64
            } else {
                0u64
            }) / 1000,
    {
        let phase = self.detector.get_current_phase();
        let duration_ms = self.detector.get_phase_duration(now_ms);
        PhaseInfo {
            phase: phase.as_str().to_owned(),
            display_name: phase.display_name().to_owned(),
            duration_seconds: duration_ms / 1000,
        }
    }
}

/// The context handed to the language-model collaborator alongside a
/// pilot message: the airport context, the current phase, the phase
/// advisory text, and the message itself.
pub fn build_atc_prompt(
    airport_context: &str,
    phase_display: &str,
    phase_context: &str,
    message: &str,
) -> (r: String)
    ensures
        r@ == airport_context@ + "\n\n当前飞行阶段："@ + phase_display@ + "\n\n"@ + phase_context@
            + "\n\n飞行员消息："@ + message@,
{
    let mut out = String::new();
    out.append(airport_context);
    out.append("\n\n当前飞行阶段：");
    out.append(phase_display);
    out.append("\n\n");
    out.append(phase_context);
    out.append("\n\n飞行员消息：");
    out.append(message);
    out
}

/// Parse a simulator selector as the application receives it.
pub fn parse_sim_kind(s: &str) -> (r: Option<SimulatorKind>)
    ensures
        r == (if s.spec_bytes() =~= "xplane".spec_bytes() {
            Some(SimulatorKind::XPlane)
        } else if s.spec_bytes() =~= "msfs".spec_bytes() {
            Some(SimulatorKind::Msfs)
        } else {
            None::<SimulatorKind>
        }),
{
    if str_eq(s, "xplane") {
        Some(SimulatorKind::XPlane)
    } else if str_eq(s, "msfs") {
        Some(SimulatorKind::Msfs)
    } else {
        None
    }
}

/// A read right after a disconnect fails with the no-simulator error,
/// whatever was stored and whatever the clock reads.
pub proof fn lemma_read_after_disconnect_fails(
    f: TelemetryFacade,
    xplane: Option<FlightDataView>,
    msfs: Option<MSFSDataView>,
)
    ensures
        spec_read_result(spec_disconnect(f), xplane, msfs) == Err::<
            FlightDataResponseView,
            NotConnectedError,
        >(NotConnectedError::NoSimulator),
{
}

} // verus!
