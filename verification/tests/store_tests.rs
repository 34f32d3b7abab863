use std::sync::{Arc, Mutex};
use virtual_atc::msfs::{replace_sample, MSFSData};
use virtual_atc::simulator::FlightData;
use virtual_atc::store::SnapshotStore;

fn bits(v: f32) -> u32 {
    v.to_bits()
}

#[test]
fn test_store_starts_unknown() {
    let store = SnapshotStore::new();
    let data = store.read();
    assert_eq!(data.callsign, "");
    assert_eq!(data.altitude, bits(0.0));
    assert_eq!(data.speed, bits(0.0));
}

#[test]
fn test_store_apply_packet_merges() {
    let mut store = SnapshotStore::new();
    let mut datagram = b"RREF\0".to_vec();
    datagram.extend_from_slice(&2u32.to_le_bytes());
    datagram.extend_from_slice(&(28000.0f32).to_le_bytes());
    assert!(store.apply_packet(&datagram));
    assert_eq!(store.read().altitude, bits(28000.0));

    // A malformed datagram leaves the store unchanged.
    assert!(!store.apply_packet(b"JUNK\0data"));
    assert_eq!(store.read().altitude, bits(28000.0));
}

#[test]
fn test_msfs_replace_is_wholesale() {
    let mut current = MSFSData::default();
    assert!(current.on_ground);
    let incoming = MSFSData {
        callsign: "CCA101".to_string(),
        altitude: bits(1500.0),
        speed: bits(180.0),
        heading: bits(270.0),
        vertical_speed: bits(-700.0),
        latitude: bits(40.1),
        longitude: bits(116.6),
        on_ground: false,
    };
    replace_sample(&mut current, incoming.clone());
    assert_eq!(current.callsign, "CCA101");
    assert_eq!(current.altitude, bits(1500.0));
    assert!(!current.on_ground);

    // Unlike the field-merge path, zeroes replace too.
    replace_sample(&mut current, MSFSData::default());
    assert_eq!(current.altitude, bits(0.0));
    assert!(current.on_ground);
}

#[test]
fn test_many_interleaved_writes_and_reads_stay_consistent() {
    // Each write stores one value in all six fields; a read between any
    // two writes must see a single write's values, never a mixture.
    let store = Arc::new(Mutex::new(SnapshotStore::new()));
    let writes: u32 = 10_000;

    for i in 1..=writes {
        let v = bits(i as f32);
        let sample = FlightData {
            callsign: String::new(),
            altitude: v,
            speed: v,
            heading: v,
            vertical_speed: v,
            latitude: v,
            longitude: v,
        };
        store.lock().unwrap().write(&sample);

        let data = store.lock().unwrap().read();
        assert_eq!(data.altitude, data.speed);
        assert_eq!(data.altitude, data.heading);
        assert_eq!(data.altitude, data.vertical_speed);
        assert_eq!(data.altitude, data.latitude);
        assert_eq!(data.altitude, data.longitude);
    }

    let last = store.lock().unwrap().read();
    assert_eq!(last.altitude, bits(writes as f32));
}
