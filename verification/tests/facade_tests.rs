use virtual_atc::facade::{
    parse_sim_kind, ConnectionError, NotConnectedError, SimulatorKind, TelemetryFacade,
};
use virtual_atc::flight_phase::FlightPhase;
use virtual_atc::msfs::MSFSData;
use virtual_atc::simulator::FlightData;

fn bits(v: f32) -> u32 {
    v.to_bits()
}

fn xplane_sample() -> FlightData {
    FlightData {
        callsign: String::new(),
        altitude: bits(35000.0),
        speed: bits(450.0),
        heading: bits(270.0),
        vertical_speed: bits(0.0),
        latitude: bits(40.08),
        longitude: bits(116.58),
    }
}

fn msfs_sample() -> MSFSData {
    MSFSData {
        callsign: "DLH441".to_string(),
        altitude: bits(0.0),
        speed: bits(12.0),
        heading: bits(90.0),
        vertical_speed: bits(0.0),
        latitude: bits(50.03),
        longitude: bits(8.56),
        on_ground: true,
    }
}

#[test]
fn test_read_without_connection_fails() {
    let mut facade = TelemetryFacade::new(0);
    let r = facade.read_snapshot(None, None, 0);
    assert_eq!(r.unwrap_err(), NotConnectedError::NoSimulator);
}

#[test]
fn test_read_with_missing_store_fails() {
    let mut facade = TelemetryFacade::new(0);
    facade.connect(SimulatorKind::XPlane);
    let r = facade.read_snapshot(None, None, 0);
    assert_eq!(r.unwrap_err(), NotConnectedError::XPlaneInactive);

    facade.connect(SimulatorKind::Msfs);
    let r = facade.read_snapshot(None, None, 0);
    assert_eq!(r.unwrap_err(), NotConnectedError::MsfsInactive);
}

#[test]
fn test_xplane_read_classifies_and_synthesizes_callsign() {
    let mut facade = TelemetryFacade::new(0);
    facade.connect(SimulatorKind::XPlane);
    let data = xplane_sample();
    let resp = facade.read_snapshot(Some(&data), None, 10).unwrap();
    // 35000 ft in hundreds is 350.
    assert_eq!(resp.callsign, "CCA350");
    assert_eq!(resp.altitude, bits(35000.0));
    assert_eq!(resp.phase, "cruise");
    assert_eq!(resp.phase_display, "巡航");

    let info = facade.current_phase_info(2510);
    assert_eq!(info.phase, "cruise");
    assert_eq!(info.display_name, "巡航");
    assert_eq!(info.duration_seconds, 2);
}

#[test]
fn test_msfs_read_uses_reported_ground_flag() {
    let mut facade = TelemetryFacade::new(0);
    facade.connect(SimulatorKind::Msfs);
    let data = msfs_sample();
    let resp = facade.read_snapshot(None, Some(&data), 5).unwrap();
    assert_eq!(resp.callsign, "DLH441");
    assert_eq!(resp.phase, "taxi");
}

#[test]
fn test_read_after_disconnect_fails() {
    let mut facade = TelemetryFacade::new(0);
    facade.connect(SimulatorKind::XPlane);
    let data = xplane_sample();
    assert!(facade.read_snapshot(Some(&data), None, 1).is_ok());

    facade.disconnect();
    assert!(!facade.is_connected());
    let r = facade.read_snapshot(Some(&data), None, 2);
    assert_eq!(r.unwrap_err(), NotConnectedError::NoSimulator);
    // The detector survives the disconnect.
    assert_eq!(facade.detector.current_phase, FlightPhase::Cruise);
}

#[test]
fn test_parse_sim_kind() {
    assert_eq!(parse_sim_kind("xplane"), Some(SimulatorKind::XPlane));
    assert_eq!(parse_sim_kind("msfs"), Some(SimulatorKind::Msfs));
    assert_eq!(parse_sim_kind("fsx"), None);
    assert_eq!(parse_sim_kind(""), None);
}

#[test]
fn test_error_messages() {
    assert_eq!(NotConnectedError::NoSimulator.message(), "No simulator connected");
    assert_eq!(NotConnectedError::XPlaneInactive.message(), "Not connected to X-Plane");
    assert_eq!(NotConnectedError::MsfsInactive.message(), "Not connected to MSFS");

    assert_eq!(
        ConnectionError::MissingHelper.message(),
        "MSFS bridge script not found. Please run setup first."
    );
    assert_eq!(
        ConnectionError::Bind("address in use".to_string()).message(),
        "Failed to bind UDP socket: address in use"
    );
    assert_eq!(
        ConnectionError::Subscribe("unreachable".to_string()).message(),
        "Failed to send subscription request: unreachable"
    );
    assert_eq!(
        ConnectionError::Spawn("no interpreter".to_string()).message(),
        "Failed to start MSFS bridge process: no interpreter"
    );
}

#[test]
fn test_build_atc_prompt() {
    let prompt = virtual_atc::facade::build_atc_prompt(
        "airport info",
        "巡航",
        "advice",
        "request descent",
    );
    assert_eq!(
        prompt,
        "airport info\n\n当前飞行阶段：巡航\n\nadvice\n\n飞行员消息：request descent"
    );
}

#[test]
fn test_msfs_callsign_synthesis() {
    let mut facade = TelemetryFacade::new(0);
    facade.connect(SimulatorKind::Msfs);
    let mut data = msfs_sample();
    data.callsign = String::new();
    data.altitude = bits(4500.0);
    data.on_ground = false;
    let resp = facade.read_snapshot(None, Some(&data), 5).unwrap();
    assert_eq!(resp.callsign, "MSFS045");
}
