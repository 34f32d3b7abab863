use virtual_atc::simulator::{
    build_rref_request, parse_xplane_packet, subscription_messages, FlightData,
};
use virtual_atc::store::SnapshotStore;

fn bits(v: f32) -> u32 {
    v.to_bits()
}

fn rref_datagram(records: &[(u32, f32)]) -> Vec<u8> {
    let mut buf = b"RREF\0".to_vec();
    for &(id, value) in records {
        buf.extend_from_slice(&id.to_le_bytes());
        buf.extend_from_slice(&value.to_le_bytes());
    }
    buf
}

fn data_datagram(records: &[(u8, [f32; 8])]) -> Vec<u8> {
    let mut buf = b"DATA\0".to_vec();
    for &(index, values) in records {
        buf.push(index);
        buf.extend_from_slice(&[0, 0, 0]);
        for v in values {
            buf.extend_from_slice(&v.to_le_bytes());
        }
    }
    buf
}

#[test]
fn test_rref_decode_is_bit_exact() {
    let datagram = rref_datagram(&[
        (1, 123.45),
        (2, 12000.25),
        (3, 270.5),
        (4, -850.125),
        (5, 39.9042),
        (6, 116.4074),
    ]);
    let decoded = parse_xplane_packet(&datagram).expect("well-formed datagram");
    assert_eq!(decoded.speed, bits(123.45));
    assert_eq!(decoded.altitude, bits(12000.25));
    assert_eq!(decoded.heading, bits(270.5));
    assert_eq!(decoded.vertical_speed, bits(-850.125));
    assert_eq!(decoded.latitude, bits(39.9042));
    assert_eq!(decoded.longitude, bits(116.4074));
    assert_eq!(decoded.callsign, "");
}

#[test]
fn test_rref_unknown_ids_ignored_and_last_wins() {
    let datagram = rref_datagram(&[(42, 9.9), (1, 100.0), (1, 215.5)]);
    let decoded = parse_xplane_packet(&datagram).expect("well-formed datagram");
    assert_eq!(decoded.speed, bits(215.5));
    assert_eq!(decoded.altitude, bits(0.0));
}

#[test]
fn test_rref_trailing_partial_record_ignored() {
    let mut datagram = rref_datagram(&[(2, 5500.0)]);
    datagram.extend_from_slice(&[1, 0, 0]);
    let decoded = parse_xplane_packet(&datagram).expect("well-formed datagram");
    assert_eq!(decoded.altitude, bits(5500.0));
}

#[test]
fn test_malformed_datagrams_dropped() {
    assert!(parse_xplane_packet(&[]).is_none());
    assert!(parse_xplane_packet(b"RRE").is_none());
    assert!(parse_xplane_packet(b"XXXX\0AAAAAAAA").is_none());
    // A subscription-reply datagram with less than one whole record.
    assert!(parse_xplane_packet(b"RREF\0AAAA").is_none());
}

#[test]
fn test_data_decode_extracts_mapped_indices() {
    let mut speeds = [0.0f32; 8];
    speeds[0] = 145.5;
    let mut attitude = [0.0f32; 8];
    attitude[2] = 88.25;
    let mut position = [0.0f32; 8];
    position[2] = 6025.75;
    let mut other = [0.0f32; 8];
    other[0] = 42.0;

    let datagram = data_datagram(&[(3, speeds), (17, attitude), (20, position), (11, other)]);
    let decoded = parse_xplane_packet(&datagram).expect("well-formed datagram");
    assert_eq!(decoded.speed, bits(145.5));
    assert_eq!(decoded.heading, bits(88.25));
    assert_eq!(decoded.altitude, bits(6025.75));
    assert_eq!(decoded.vertical_speed, bits(0.0));
    assert_eq!(decoded.latitude, bits(0.0));
    assert_eq!(decoded.longitude, bits(0.0));
}

#[test]
fn test_data_decode_leaves_other_fields_at_store_values() {
    let mut store = SnapshotStore::new();
    let previous = FlightData {
        callsign: String::new(),
        altitude: bits(11000.0),
        speed: bits(250.0),
        heading: bits(90.0),
        vertical_speed: bits(-500.0),
        latitude: bits(51.47),
        longitude: bits(-0.4543),
    };
    store.write(&previous);

    let mut speeds = [0.0f32; 8];
    speeds[0] = 210.0;
    let datagram = data_datagram(&[(3, speeds)]);
    assert!(store.apply_packet(&datagram));

    let after = store.read();
    assert_eq!(after.speed, bits(210.0));
    assert_eq!(after.vertical_speed, bits(-500.0));
    assert_eq!(after.latitude, bits(51.47));
    assert_eq!(after.longitude, bits(-0.4543));
    assert_eq!(after.altitude, bits(11000.0));
}

#[test]
fn test_merge_zero_altitude_not_informative() {
    let mut store = SnapshotStore::new();
    let first = FlightData {
        callsign: String::new(),
        altitude: bits(12000.0),
        speed: bits(0.0),
        heading: bits(0.0),
        vertical_speed: bits(0.0),
        latitude: bits(0.0),
        longitude: bits(0.0),
    };
    store.write(&first);
    assert_eq!(store.read().altitude, bits(12000.0));

    let zero_altitude = FlightData { altitude: bits(0.0), ..first.clone() };
    store.write(&zero_altitude);
    assert_eq!(store.read().altitude, bits(12000.0));

    let new_altitude = FlightData { altitude: bits(650.5), ..first };
    store.write(&new_altitude);
    assert_eq!(store.read().altitude, bits(650.5));
}

#[test]
fn test_merge_per_field_rules() {
    let mut store = SnapshotStore::new();
    let first = FlightData {
        callsign: String::new(),
        altitude: bits(8000.0),
        speed: bits(240.0),
        heading: bits(180.0),
        vertical_speed: bits(700.0),
        latitude: bits(40.0),
        longitude: bits(116.0),
    };
    store.write(&first);

    // Speed zero and negative are not informative; heading zero is.
    let quiet = FlightData {
        callsign: String::new(),
        altitude: bits(0.0),
        speed: bits(0.0),
        heading: bits(0.0),
        vertical_speed: bits(0.0),
        latitude: bits(0.0),
        longitude: bits(0.0),
    };
    store.write(&quiet);
    let after = store.read();
    assert_eq!(after.altitude, bits(8000.0));
    assert_eq!(after.speed, bits(240.0));
    assert_eq!(after.heading, bits(0.0));
    assert_eq!(after.vertical_speed, bits(700.0));
    assert_eq!(after.latitude, bits(40.0));
    assert_eq!(after.longitude, bits(116.0));

    let negative_speed = FlightData { speed: bits(-5.0), ..quiet.clone() };
    store.write(&negative_speed);
    assert_eq!(store.read().speed, bits(240.0));

    let negative_heading = FlightData { heading: bits(-10.0), ..quiet };
    store.write(&negative_heading);
    assert_eq!(store.read().heading, bits(0.0));
}

#[test]
fn test_subscription_request_layout() {
    let msg = build_rref_request(1, 4, "sim/flightmodel/position/vh_ind_fpm");
    assert_eq!(msg.len(), 413);
    assert_eq!(&msg[0..5], b"RREF\0");
    assert_eq!(&msg[5..9], &1i32.to_le_bytes());
    assert_eq!(&msg[9..13], &4i32.to_le_bytes());
    let path = b"sim/flightmodel/position/vh_ind_fpm";
    assert_eq!(&msg[13..13 + path.len()], path);
    for &b in &msg[13 + path.len()..] {
        assert_eq!(b, 0);
    }
}

#[test]
fn test_subscription_messages_cover_all_fields() {
    let msgs = subscription_messages();
    assert_eq!(msgs.len(), 6);
    let paths: [&[u8]; 6] = [
        b"sim/flightmodel/position/indicated_airspeed",
        b"sim/flightmodel/position/elevation",
        b"sim/flightmodel/position/psi",
        b"sim/flightmodel/position/vh_ind_fpm",
        b"sim/flightmodel/position/latitude",
        b"sim/flightmodel/position/longitude",
    ];
    for (i, msg) in msgs.iter().enumerate() {
        assert_eq!(msg.len(), 413);
        assert_eq!(&msg[0..5], b"RREF\0");
        assert_eq!(&msg[5..9], &1u32.to_le_bytes());
        assert_eq!(&msg[9..13], &((i as u32) + 1).to_le_bytes());
        assert_eq!(&msg[13..13 + paths[i].len()], paths[i]);
        assert_eq!(msg[13 + paths[i].len()], 0);
    }
}

#[test]
fn test_callsign_synthesis_from_altitude() {
    let data = FlightData {
        callsign: String::new(),
        altitude: bits(12000.0),
        speed: bits(0.0),
        heading: bits(0.0),
        vertical_speed: bits(0.0),
        latitude: bits(0.0),
        longitude: bits(0.0),
    };
    let finalized = virtual_atc::simulator::finalize_flight_data(&data);
    assert_eq!(finalized.callsign, "CCA120");

    let named = FlightData { callsign: "CES5302".to_string(), ..data.clone() };
    assert_eq!(
        virtual_atc::simulator::finalize_flight_data(&named).callsign,
        "CES5302"
    );

    // The altitude code truncates like a saturating float-to-integer
    // cast: negatives to zero, huge values to the largest word.
    let negative = FlightData { altitude: bits(-2500.0), ..data.clone() };
    assert_eq!(
        virtual_atc::simulator::finalize_flight_data(&negative).callsign,
        "CCA000"
    );

    let low = FlightData { altitude: bits(990.0), ..data.clone() };
    assert_eq!(virtual_atc::simulator::finalize_flight_data(&low).callsign, "CCA009");

    let huge = FlightData { altitude: bits(1.0e30), ..data };
    let expected = format!("CCA{:03}", (1.0e30f64 / 100.0) as u32 % 1000);
    assert_eq!(virtual_atc::simulator::finalize_flight_data(&huge).callsign, expected);
}

#[test]
fn test_altitude_code_matches_float_cast() {
    // The verified truncation agrees with the reference formula, a
    // float division and saturating cast, across ordinary altitudes.
    let samples: [f32; 13] = [
        0.0,
        0.5,
        99.9,
        100.0,
        101.0,
        12000.0,
        35000.5,
        99999.0,
        123456.78,
        -1.0,
        1.0e9,
        f32::INFINITY,
        f32::NAN,
    ];
    for v in samples {
        let expected = ((v as f64) / 100.0) as u32 % 1000;
        let data = FlightData {
            callsign: String::new(),
            altitude: v.to_bits(),
            speed: 0,
            heading: 0,
            vertical_speed: 0,
            latitude: 0,
            longitude: 0,
        };
        let callsign = virtual_atc::simulator::finalize_flight_data(&data).callsign;
        assert_eq!(callsign, format!("CCA{:03}", expected), "altitude {}", v);
    }
}
