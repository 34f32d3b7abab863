use virtual_atc::flight_phase::{FlightData, FlightPhase, FlightPhaseDetector};

fn bits(v: f32) -> u32 {
    v.to_bits()
}

#[test]
fn test_preflight_detection() {
    let mut detector = FlightPhaseDetector::new(0);
    let data = FlightData {
        altitude: bits(0.0),
        speed: bits(0.0),
        heading: bits(0.0),
        vertical_speed: bits(0.0),
        on_ground: true,
    };

    let phase = detector.update(&data, 0);
    assert_eq!(phase, FlightPhase::PreFlight);
}

#[test]
fn test_taxi_detection() {
    let mut detector = FlightPhaseDetector::new(0);
    let data = FlightData {
        altitude: bits(0.0),
        speed: bits(20.0),
        heading: bits(90.0),
        vertical_speed: bits(0.0),
        on_ground: true,
    };

    let phase = detector.update(&data, 0);
    assert_eq!(phase, FlightPhase::Taxi);
}

#[test]
fn test_takeoff_detection() {
    let mut detector = FlightPhaseDetector::new(0);
    let data = FlightData {
        altitude: bits(100.0),
        speed: bits(120.0),
        heading: bits(90.0),
        vertical_speed: bits(1500.0),
        on_ground: false,
    };

    let phase = detector.update(&data, 0);
    assert_eq!(phase, FlightPhase::Takeoff);
}

#[test]
fn test_cruise_detection() {
    let mut detector = FlightPhaseDetector::new(0);
    let data = FlightData {
        altitude: bits(35000.0),
        speed: bits(450.0),
        heading: bits(270.0),
        vertical_speed: bits(0.0),
        on_ground: false,
    };

    let phase = detector.update(&data, 0);
    assert_eq!(phase, FlightPhase::Cruise);
}

#[test]
fn test_low_altitude_surge_classifies_by_rule_order() {
    let sample = FlightData {
        altitude: bits(2000.0),
        speed: bits(140.0),
        heading: bits(180.0),
        vertical_speed: bits(1200.0),
        on_ground: false,
    };

    // The climb rule sits above the go-around rule in the priority order
    // and already claims this sample, so even an approach history yields
    // a climb: the go-around rule is shadowed (see
    // lemma_go_around_only_sticky).
    let mut from_approach = FlightPhaseDetector {
        current_phase: FlightPhase::Approach,
        previous_altitude: bits(2500.0),
        previous_speed: bits(140.0),
        phase_start_ms: 0,
    };
    assert_eq!(from_approach.update(&sample, 10), FlightPhase::Climb);

    let mut from_cruise = FlightPhaseDetector {
        current_phase: FlightPhase::Cruise,
        previous_altitude: bits(2500.0),
        previous_speed: bits(140.0),
        phase_start_ms: 0,
    };
    assert_eq!(from_cruise.update(&sample, 10), FlightPhase::Climb);
}

#[test]
fn test_go_around_persists_only_as_history() {
    // No rule matches a level sample just above the approach band, so an
    // existing go-around phase is kept by the sticky default.
    let mut detector = FlightPhaseDetector {
        current_phase: FlightPhase::GoAround,
        previous_altitude: bits(2500.0),
        previous_speed: bits(150.0),
        phase_start_ms: 0,
    };
    let level = FlightData {
        altitude: bits(4000.0),
        speed: bits(180.0),
        heading: bits(90.0),
        vertical_speed: bits(0.0),
        on_ground: false,
    };
    assert_eq!(detector.update(&level, 10), FlightPhase::GoAround);
}

#[test]
fn test_classifier_is_deterministic() {
    let sample = FlightData {
        altitude: bits(7350.5),
        speed: bits(233.25),
        heading: bits(12.5),
        vertical_speed: bits(-450.75),
        on_ground: false,
    };
    let mut a = FlightPhaseDetector::new(0);
    let mut b = FlightPhaseDetector::new(0);
    assert_eq!(a.update(&sample, 5), b.update(&sample, 5));
    assert_eq!(a.update(&sample, 9), b.update(&sample, 9));
}

#[test]
fn test_descent_and_approach_and_landing() {
    let mut detector = FlightPhaseDetector::new(0);

    let descending = FlightData {
        altitude: bits(12000.0),
        speed: bits(280.0),
        heading: bits(45.0),
        vertical_speed: bits(-1200.0),
        on_ground: false,
    };
    assert_eq!(detector.update(&descending, 1), FlightPhase::Descent);

    let approaching = FlightData {
        altitude: bits(2500.0),
        speed: bits(160.0),
        heading: bits(45.0),
        vertical_speed: bits(-600.0),
        on_ground: false,
    };
    assert_eq!(detector.update(&approaching, 2), FlightPhase::Approach);

    let landing = FlightData {
        altitude: bits(200.0),
        speed: bits(130.0),
        heading: bits(45.0),
        vertical_speed: bits(-400.0),
        on_ground: false,
    };
    assert_eq!(detector.update(&landing, 3), FlightPhase::Landing);

    let rollout = FlightData {
        altitude: bits(0.0),
        speed: bits(80.0),
        heading: bits(45.0),
        vertical_speed: bits(0.0),
        on_ground: true,
    };
    assert_eq!(detector.update(&rollout, 4), FlightPhase::Landing);
}

#[test]
fn test_sticky_phase_when_no_rule_matches() {
    let mut detector = FlightPhaseDetector {
        current_phase: FlightPhase::Climb,
        previous_altitude: bits(22000.0),
        previous_speed: bits(400.0),
        phase_start_ms: 7,
    };
    // Airborne at altitude with a gentle climb matches no rule: high for
    // the climb band, climbing too fast for cruise, not sinking.
    let sample = FlightData {
        altitude: bits(25000.0),
        speed: bits(430.0),
        heading: bits(300.0),
        vertical_speed: bits(800.0),
        on_ground: false,
    };
    assert_eq!(detector.update(&sample, 9), FlightPhase::Climb);
    assert_eq!(detector.phase_start_ms, 7);
}

#[test]
fn test_phase_duration_and_transition_stamp() {
    let mut detector = FlightPhaseDetector::new(100);
    assert_eq!(detector.get_phase_duration(100), 0);
    assert_eq!(detector.get_phase_duration(1600), 1500);
    // Clock reading earlier than the entry stamp reports zero.
    assert_eq!(detector.get_phase_duration(50), 0);

    let taxiing = FlightData {
        altitude: bits(0.0),
        speed: bits(15.0),
        heading: bits(0.0),
        vertical_speed: bits(0.0),
        on_ground: true,
    };
    let phase = detector.update(&taxiing, 2000);
    assert_eq!(phase, FlightPhase::Taxi);
    assert_eq!(detector.phase_start_ms, 2000);
    assert_eq!(detector.get_phase_duration(2500), 500);

    // A repeated classification keeps the entry stamp.
    detector.update(&taxiing, 3000);
    assert_eq!(detector.phase_start_ms, 2000);
}

#[test]
fn test_phase_names() {
    assert_eq!(FlightPhase::PreFlight.as_str(), "pre_flight");
    assert_eq!(FlightPhase::Taxi.as_str(), "taxi");
    assert_eq!(FlightPhase::Takeoff.as_str(), "takeoff");
    assert_eq!(FlightPhase::Climb.as_str(), "climb");
    assert_eq!(FlightPhase::Cruise.as_str(), "cruise");
    assert_eq!(FlightPhase::Descent.as_str(), "descent");
    assert_eq!(FlightPhase::Approach.as_str(), "approach");
    assert_eq!(FlightPhase::Landing.as_str(), "landing");
    assert_eq!(FlightPhase::GoAround.as_str(), "go_around");

    assert_eq!(FlightPhase::PreFlight.display_name(), "飞行前");
    assert_eq!(FlightPhase::GoAround.display_name(), "复飞");
}

#[test]
fn test_atc_context_by_language() {
    let detector = FlightPhaseDetector::new(0);
    let zh = detector.get_atc_context("zh");
    assert!(zh.contains("飞行员正在准备起飞"));
    let en = detector.get_atc_context("en");
    assert!(en.contains("Pilot is preparing for departure"));
    // Any unknown tag falls back to English.
    let other = detector.get_atc_context("fr");
    assert_eq!(other, en);
}
