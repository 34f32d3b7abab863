//! The X-Plane wire protocol: subscription requests out, telemetry
//! datagrams in.
//!
//! Subscriptions are fixed-size request messages naming a data-reference
//! path and an update frequency. Inbound datagrams come in two binary
//! layouts, told apart by a four-byte tag: the subscription-reply format
//! carries eight-byte records of a little-endian identifier and a
//! little-endian float word; the legacy format carries thirty-six-byte
//! records of an index byte, padding, and eight float words. Decoded float
//! words are kept as raw bit patterns and merged into the stored sample
//! under a field-level overwrite policy: a field is overwritten only when
//! the incoming word is informative for it.
//!
//! The sockets and the receive thread live in the surrounding application;
//! everything here is a pure function of bytes and samples.

use vstd::prelude::*;
use vstd::bytes::{spec_u32_from_le_bytes, spec_u32_to_le_bytes, u32_from_le_bytes, u32_to_le_bytes};
use vstd::string::StringSliceAdditionalSpecFns;
use vstd::string::StringExecFns;
use vstd::utf8::{encode_utf8, is_ascii_chars, is_ascii_chars_encode_utf8};
use crate::fbits::{
    spec_gt, spec_ge, spec_ne_zero, is_zero_bits, is_nan_bits, gt_bits, ge_bits, ne_zero_bits,
    ZERO_BITS,
};
use crate::fbits::{hundreds_code, spec_hundreds_code};
use crate::text::{padded_code, spec_padded_code};

verus! {

/// One canonical telemetry sample. Numeric fields hold raw IEEE-754 bit
/// patterns: altitude in feet, speed in knots, heading in degrees,
/// vertical speed in feet per minute, latitude and longitude in degrees.
#[derive(Debug, Clone)]
pub struct FlightData {
    pub callsign: String,
    pub altitude: u32,
    pub speed: u32,
    pub heading: u32,
    pub vertical_speed: u32,
    pub latitude: u32,
    pub longitude: u32,
}

/// The mathematical image of a sample.
pub struct FlightDataView {
    pub callsign: Seq<char>,
    pub altitude: u32,
    pub speed: u32,
    pub heading: u32,
    pub vertical_speed: u32,
    pub latitude: u32,
    pub longitude: u32,
}

impl View for FlightData {
    type V = FlightDataView;

    open spec fn view(&self) -> FlightDataView {
        FlightDataView {
            callsign: self.callsign@,
            altitude: self.altitude,
            speed: self.speed,
            heading: self.heading,
            vertical_speed: self.vertical_speed,
            latitude: self.latitude,
            longitude: self.longitude,
        }
    }
}

/// The all-unknown sample: empty callsign, every value zero.
pub open spec fn spec_default_flight_data() -> FlightDataView {
    FlightDataView {
        callsign: Seq::<char>::empty(),
        altitude: 0,
        speed: 0,
        heading: 0,
        vertical_speed: 0,
        latitude: 0,
        longitude: 0,
    }
}

impl Default for FlightData {
    /// The all-unknown sample.
    fn default() -> (r: FlightData)
        ensures
            r@ == spec_default_flight_data(),
    {
        FlightData {
            callsign: String::new(),
            altitude: 0,
            speed: 0,
            heading: 0,
            vertical_speed: 0,
            latitude: 0,
            longitude: 0,
        }
    }
}

/// The little-endian word starting at `off`.
pub open spec fn spec_le_word(buf: Seq<u8>, off: int) -> u32 {
    spec_u32_from_le_bytes(buf.subrange(off, off + 4))
}

/// Identifiers chosen at subscription time, one per telemetry field.
pub const DATAREF_ID_SPEED: u32 = 1;

pub const DATAREF_ID_ALTITUDE: u32 = 2;

pub const DATAREF_ID_HEADING: u32 = 3;

pub const DATAREF_ID_VSPEED: u32 = 4;

pub const DATAREF_ID_LATITUDE: u32 = 5;

pub const DATAREF_ID_LONGITUDE: u32 = 6;

/// One subscription-reply record lands in the field its identifier was
/// subscribed for; unknown identifiers are ignored.
pub open spec fn spec_apply_rref_record(d: FlightDataView, id: u32, value: u32) -> FlightDataView {
    if id == DATAREF_ID_SPEED {
        FlightDataView { speed: value, ..d }
    } else if id == DATAREF_ID_ALTITUDE {
        FlightDataView { altitude: value, ..d }
    } else if id == DATAREF_ID_HEADING {
        FlightDataView { heading: value, ..d }
    } else if id == DATAREF_ID_VSPEED {
        FlightDataView { vertical_speed: value, ..d }
    } else if id == DATAREF_ID_LATITUDE {
        FlightDataView { latitude: value, ..d }
    } else if id == DATAREF_ID_LONGITUDE {
        FlightDataView { longitude: value, ..d }
    } else {
        d
    }
}

/// The first `n` eight-byte records of a subscription-reply payload,
/// folded over the all-unknown sample.
pub open spec fn spec_parse_rref_records(buf: Seq<u8>, n: int) -> FlightDataView
    decreases n,
{
    if n <= 0 {
        spec_default_flight_data()
    } else {
        spec_apply_rref_record(
            spec_parse_rref_records(buf, n - 1),
            spec_le_word(buf, 8 * (n - 1)),
            spec_le_word(buf, 8 * (n - 1) + 4),
        )
    }
}

/// A subscription-reply payload: eight-byte records; a payload shorter
/// than one record is malformed; a trailing partial record is ignored.
pub open spec fn spec_parse_rref_data(buf: Seq<u8>) -> Option<FlightDataView> {
    if buf.len() < 8 {
        None
    } else {
        Some(spec_parse_rref_records(buf, buf.len() as int / 8))
    }
}

/// Indices of the legacy records this receiver consumes.
pub const DATA_INDEX_SPEED: u8 = 3;

pub const DATA_INDEX_HEADING: u8 = 17;

pub const DATA_INDEX_ALTITUDE: u8 = 20;

/// One legacy record starting at `base`: airspeed sits in the first float
/// word of its record, heading and altitude in the third word of theirs;
/// unknown indices are ignored.
pub open spec fn spec_apply_data_record(d: FlightDataView, buf: Seq<u8>, base: int) -> FlightDataView {
    let idx = buf[base];
    if idx == DATA_INDEX_SPEED {
        FlightDataView { speed: spec_le_word(buf, base + 4), ..d }
    } else if idx == DATA_INDEX_HEADING {
        FlightDataView { heading: spec_le_word(buf, base + 12), ..d }
    } else if idx == DATA_INDEX_ALTITUDE {
        FlightDataView { altitude: spec_le_word(buf, base + 12), ..d }
    } else {
        d
    }
}

/// The first `n` thirty-six-byte records of a legacy payload, folded over
/// the all-unknown sample.
pub open spec fn spec_parse_data_records(buf: Seq<u8>, n: int) -> FlightDataView
    decreases n,
{
    if n <= 0 {
        spec_default_flight_data()
    } else {
        spec_apply_data_record(spec_parse_data_records(buf, n - 1), buf, 36 * (n - 1))
    }
}

/// A legacy payload: thirty-six-byte records; a trailing partial record
/// (or an empty payload) yields no fields rather than an error.
pub open spec fn spec_parse_data_packet(buf: Seq<u8>) -> Option<FlightDataView> {
    Some(spec_parse_data_records(buf, buf.len() as int / 36))
}

/// A datagram is told apart by its four-byte tag; the fifth byte is
/// skipped. Unknown tags and runt datagrams are dropped.
pub open spec fn spec_parse_xplane_packet(buf: Seq<u8>) -> Option<FlightDataView> {
    if buf.len() < 5 {
        None
    } else if buf[0] == 82 && buf[1] == 82 && buf[2] == 69 && buf[3] == 70 {
        spec_parse_rref_data(buf.skip(5))
    } else if buf[0] == 68 && buf[1] == 65 && buf[2] == 84 && buf[3] == 65 {
        spec_parse_data_packet(buf.skip(5))
    } else {
        None
    }
}

/// The merge policy: a field of the stored sample is overwritten only when
/// the incoming word is informative for it. Altitude, vertical speed,
/// latitude and longitude are informative when nonzero, speed when
/// positive, heading when non-negative; the callsign is never touched by a
/// merge. Zero means "no new data" here, so a genuine return to exactly
/// zero cannot be represented for these fields.
pub open spec fn spec_merge(cur: FlightDataView, inc: FlightDataView) -> FlightDataView {
    FlightDataView {
        callsign: cur.callsign,
        altitude: if spec_ne_zero(inc.altitude) {
            inc.altitude
        } else {
            cur.altitude
        },
        speed: if spec_gt(inc.speed, ZERO_BITS) {
            inc.speed
        } else {
            cur.speed
        },
        heading: if spec_ge(inc.heading, ZERO_BITS) {
            inc.heading
        } else {
            cur.heading
        },
        vertical_speed: if spec_ne_zero(inc.vertical_speed) {
            inc.vertical_speed
        } else {
            cur.vertical_speed
        },
        latitude: if spec_ne_zero(inc.latitude) {
            inc.latitude
        } else {
            cur.latitude
        },
        longitude: if spec_ne_zero(inc.longitude) {
            inc.longitude
        } else {
            cur.longitude
        },
    }
}

/// The altitude half of the merge policy, spelled out: an incoming
/// altitude word encoding zero is not informative and keeps the stored
/// altitude, whatever it was; one comparing unequal to zero always
/// overwrites it.
pub proof fn lemma_merge_altitude_policy(cur: FlightDataView, inc: FlightDataView)
    ensures
        is_zero_bits(inc.altitude) && !is_nan_bits(inc.altitude) ==> spec_merge(cur, inc).altitude
            == cur.altitude,
        spec_ne_zero(inc.altitude) ==> spec_merge(cur, inc).altitude == inc.altitude,
{
}

/// A whole datagram against a stored sample: decode, then merge; a
/// malformed datagram leaves the sample unchanged.
pub open spec fn spec_apply_packet(cur: FlightDataView, buf: Seq<u8>) -> FlightDataView {
    match spec_parse_xplane_packet(buf) {
        Some(inc) => spec_merge(cur, inc),
        None => cur,
    }
}

/// Decode a subscription-reply payload.
pub fn parse_rref_data(buf: &[u8]) -> (r: Option<FlightData>)
    ensures
        match r {
            Some(d) => spec_parse_rref_data(buf@) == Some(d@),
            None => spec_parse_rref_data(buf@) is None,
        },
{
    if buf.len() < 8 {
        return None;
    }

    let mut data = FlightData::default();
    let mut offset: usize = 0;

    while buf.len() - offset >= 8
        invariant
            offset % 8 == 0,
            offset <= buf@.len(),
            data@ == spec_parse_rref_records(buf@, offset as int / 8),
        decreases buf@.len() - offset,
    {
        let id = u32_from_le_bytes(&buf[offset..offset + 4]);
        let value = u32_from_le_bytes(&buf[offset + 4..offset + 8]);

        if id == DATAREF_ID_SPEED {
            data.speed = value;
        } else if id == DATAREF_ID_ALTITUDE {
            data.altitude = value;
        } else if id == DATAREF_ID_HEADING {
            data.heading = value;
        } else if id == DATAREF_ID_VSPEED {
            data.vertical_speed = value;
        } else if id == DATAREF_ID_LATITUDE {
            data.latitude = value;
        } else if id == DATAREF_ID_LONGITUDE {
            data.longitude = value;
        }

        offset += 8;
    }

    Some(data)
}

/// Decode a legacy payload.
pub fn parse_data_packet(buf: &[u8]) -> (r: Option<FlightData>)
    ensures
        match r {
            Some(d) => spec_parse_data_packet(buf@) == Some(d@),
            None => spec_parse_data_packet(buf@) is None,
        },
{
    let mut data = FlightData::default();
    let mut offset: usize = 0;

    while buf.len() - offset >= 36
        invariant
            offset % 36 == 0,
            offset <= buf@.len(),
            data@ == spec_parse_data_records(buf@, offset as int / 36),
        decreases buf@.len() - offset,
    {
        let index = buf[offset];

        if index == DATA_INDEX_SPEED {
            data.speed = u32_from_le_bytes(&buf[offset + 4..offset + 8]);
        } else if index == DATA_INDEX_HEADING {
            data.heading = u32_from_le_bytes(&buf[offset + 12..offset + 16]);
        } else if index == DATA_INDEX_ALTITUDE {
            data.altitude = u32_from_le_bytes(&buf[offset + 12..offset + 16]);
        }

        offset += 36;
    }

    Some(data)
}

/// Decode one datagram, whichever format its tag names.
pub fn parse_xplane_packet(buf: &[u8]) -> (r: Option<FlightData>)
    ensures
        match r {
            Some(d) => spec_parse_xplane_packet(buf@) == Some(d@),
            None => spec_parse_xplane_packet(buf@) is None,
        },
{
    if buf.len() < 5 {
        return None;
    }

    if buf[0] == 82 && buf[1] == 82 && buf[2] == 69 && buf[3] == 70 {
        let payload = &buf[5..buf.len()];
        assert(payload@ =~= buf@.skip(5));
        parse_rref_data(payload)
    } else if buf[0] == 68 && buf[1] == 65 && buf[2] == 84 && buf[3] == 65 {
        let payload = &buf[5..buf.len()];
        assert(payload@ =~= buf@.skip(5));
        parse_data_packet(payload)
    } else {
        None
    }
}

/// Merge a decoded sample into the stored one under the merge policy.
pub fn merge_sample(current: &mut FlightData, incoming: &FlightData)
    ensures
        final(current)@ == spec_merge(old(current)@, incoming@),
{
    if ne_zero_bits(incoming.altitude) {
        current.altitude = incoming.altitude;
    }
    if gt_bits(incoming.speed, ZERO_BITS) {
        current.speed = incoming.speed;
    }
    if ge_bits(incoming.heading, ZERO_BITS) {
        current.heading = incoming.heading;
    }
    if ne_zero_bits(incoming.vertical_speed) {
        current.vertical_speed = incoming.vertical_speed;
    }
    if ne_zero_bits(incoming.latitude) {
        current.latitude = incoming.latitude;
    }
    if ne_zero_bits(incoming.longitude) {
        current.longitude = incoming.longitude;
    }
}

/// Decode one datagram and merge whatever it carried; malformed datagrams
/// are dropped and leave the sample unchanged.
pub fn apply_packet(current: &mut FlightData, buf: &[u8]) -> (applied: bool)
    ensures
        final(current)@ == spec_apply_packet(old(current)@, buf@),
        applied == (spec_parse_xplane_packet(buf@) is Some),
{
    match parse_xplane_packet(buf) {
        Some(incoming) => {
            merge_sample(current, &incoming);
            true
        },
        None => false,
    }
}

/// The fixed size of a subscription request datagram.
pub const RREF_REQUEST_LEN: usize = 413;

/// A subscription request: the five-byte tag, a little-endian frequency,
/// a little-endian identifier, the path bytes, a terminator, zero-padded
/// up to the fixed request size when shorter.
pub open spec fn spec_rref_request(freq: u32, id: u32, path: Seq<u8>) -> Seq<u8> {
    let body = seq![82u8, 82u8, 69u8, 70u8, 0u8] + spec_u32_to_le_bytes(freq)
        + spec_u32_to_le_bytes(id) + path + seq![0u8];
    body + Seq::<u8>::new(
        if body.len() >= 413 {
            0
        } else {
            (413 - body.len()) as nat
        },
        |i: int| 0u8,
    )
}

/// Build one subscription request naming a data-reference path and an
/// update frequency.
pub fn build_rref_request(freq: u32, id: u32, dataref: &str) -> (msg: Vec<u8>)
    ensures
        msg@ == spec_rref_request(freq, id, dataref.spec_bytes()),
        msg@.len() >= RREF_REQUEST_LEN,
{
    let ghost body: Seq<u8> = seq![82u8, 82u8, 69u8, 70u8, 0u8] + spec_u32_to_le_bytes(freq)
        + spec_u32_to_le_bytes(id) + dataref.spec_bytes() + seq![0u8];

    let mut msg: Vec<u8> = Vec::new();
    msg.push(82);
    msg.push(82);
    msg.push(69);
    msg.push(70);
    msg.push(0);
    let mut freq_bytes = u32_to_le_bytes(freq);
    msg.append(&mut freq_bytes);
    let mut id_bytes = u32_to_le_bytes(id);
    msg.append(&mut id_bytes);

    let path = dataref.as_bytes();
    let mut i: usize = 0;
    while i < path.len()
        invariant
            path@ == dataref.spec_bytes(),
            0 <= i <= path@.len(),
            msg@ =~= seq![82u8, 82u8, 69u8, 70u8, 0u8] + spec_u32_to_le_bytes(freq)
                + spec_u32_to_le_bytes(id) + path@.take(i as int),
        decreases path@.len() - i,
    {
        msg.push(path[i]);
        i += 1;
    }
    msg.push(0);
    assert(msg@ =~= body);

    while msg.len() < RREF_REQUEST_LEN
        invariant
            body.len() <= msg@.len(),
            msg@ =~= body + Seq::<u8>::new((msg@.len() - body.len()) as nat, |j: int| 0u8),
            body.len() >= 413 ==> msg@.len() == body.len(),
            body.len() < 413 ==> msg@.len() <= 413,
        decreases 413 - msg@.len(),
    {
        msg.push(0);
    }
    assert(msg@ =~= spec_rref_request(freq, id, dataref.spec_bytes()));
    msg
}

/// The data-reference path subscribed under each identifier.
pub open spec fn spec_dataref_path(id: u32) -> Seq<char> {
    if id == DATAREF_ID_SPEED {
        "sim/flightmodel/position/indicated_airspeed"@
    } else if id == DATAREF_ID_ALTITUDE {
        "sim/flightmodel/position/elevation"@
    } else if id == DATAREF_ID_HEADING {
        "sim/flightmodel/position/psi"@
    } else if id == DATAREF_ID_VSPEED {
        "sim/flightmodel/position/vh_ind_fpm"@
    } else if id == DATAREF_ID_LATITUDE {
        "sim/flightmodel/position/latitude"@
    } else {
        "sim/flightmodel/position/longitude"@
    }
}

/// The subscription request sent under each identifier, at one update
/// per second.
pub open spec fn spec_subscription_message(id: u32) -> Seq<u8> {
    spec_rref_request(1, id, encode_utf8(spec_dataref_path(id)))
}

/// Every data-reference path is short enough that its request carries
/// padding, so each subscription message has exactly the fixed size.
proof fn lemma_subscription_message_len(id: u32)
    requires
        1 <= id <= 6,
    ensures
        spec_subscription_message(id).len() == 413,
{
    vstd::bytes::lemma_auto_spec_u32_to_from_le_bytes();
    reveal_strlit("sim/flightmodel/position/indicated_airspeed");
    reveal_strlit("sim/flightmodel/position/elevation");
    reveal_strlit("sim/flightmodel/position/psi");
    reveal_strlit("sim/flightmodel/position/vh_ind_fpm");
    reveal_strlit("sim/flightmodel/position/latitude");
    reveal_strlit("sim/flightmodel/position/longitude");
    let path = spec_dataref_path(id);
    assert(is_ascii_chars(path));
    is_ascii_chars_encode_utf8(path);
    assert(encode_utf8(path).len() <= 398);
}

/// The six subscription requests sent at connect time, one per telemetry
/// field; each is exactly the fixed request size.
pub fn subscription_messages() -> (r: Vec<Vec<u8>>)
    ensures
        r@.len() == 6,
        forall|i: int|
            0 <= i < 6 ==> #[trigger] r@[i]@ == spec_subscription_message((i + 1) as u32),
        forall|i: int| 0 <= i < 6 ==> #[trigger] r@[i]@.len() == RREF_REQUEST_LEN,
{
    let mut r: Vec<Vec<u8>> = Vec::new();
    r.push(build_rref_request(1, 1, "sim/flightmodel/position/indicated_airspeed"));
    r.push(build_rref_request(1, 2, "sim/flightmodel/position/elevation"));
    r.push(build_rref_request(1, 3, "sim/flightmodel/position/psi"));
    r.push(build_rref_request(1, 4, "sim/flightmodel/position/vh_ind_fpm"));
    r.push(build_rref_request(1, 5, "sim/flightmodel/position/latitude"));
    r.push(build_rref_request(1, 6, "sim/flightmodel/position/longitude"));
    assert forall|i: int| 0 <= i < 6 implies #[trigger] r@[i]@ == spec_subscription_message(
        (i + 1) as u32,
    ) by {
        assert(r@[0]@ == spec_subscription_message(1));
        assert(r@[1]@ == spec_subscription_message(2));
        assert(r@[2]@ == spec_subscription_message(3));
        assert(r@[3]@ == spec_subscription_message(4));
        assert(r@[4]@ == spec_subscription_message(5));
        assert(r@[5]@ == spec_subscription_message(6));
    }
    assert forall|i: int| 0 <= i < 6 implies #[trigger] r@[i]@.len() == RREF_REQUEST_LEN by {
        lemma_subscription_message_len((i + 1) as u32);
    }
    r
}

/// One format-A record: identifier and float word, both little-endian.
pub open spec fn spec_rref_record_bytes(id: u32, value: u32) -> Seq<u8> {
    spec_u32_to_le_bytes(id) + spec_u32_to_le_bytes(value)
}

/// The payload carrying the given format-A records, in order.
pub open spec fn spec_rref_payload(records: Seq<(u32, u32)>) -> Seq<u8>
    decreases records.len(),
{
    if records.len() == 0 {
        Seq::<u8>::empty()
    } else {
        spec_rref_payload(records.drop_last()) + spec_rref_record_bytes(
            records.last().0,
            records.last().1,
        )
    }
}

/// A format-A datagram carrying the given records.
pub open spec fn spec_rref_datagram(records: Seq<(u32, u32)>) -> Seq<u8> {
    seq![82u8, 82u8, 69u8, 70u8, 0u8] + spec_rref_payload(records)
}

/// The given format-A records folded over the all-unknown sample: what a
/// well-formed datagram of exactly these records should decode to.
pub open spec fn spec_fold_rref_records(records: Seq<(u32, u32)>) -> FlightDataView
    decreases records.len(),
{
    if records.len() == 0 {
        spec_default_flight_data()
    } else {
        spec_apply_rref_record(
            spec_fold_rref_records(records.drop_last()),
            records.last().0,
            records.last().1,
        )
    }
}

/// The field a format-A identifier lands in.
pub open spec fn spec_rref_field(d: FlightDataView, id: u32) -> u32 {
    if id == DATAREF_ID_SPEED {
        d.speed
    } else if id == DATAREF_ID_ALTITUDE {
        d.altitude
    } else if id == DATAREF_ID_HEADING {
        d.heading
    } else if id == DATAREF_ID_VSPEED {
        d.vertical_speed
    } else if id == DATAREF_ID_LATITUDE {
        d.latitude
    } else {
        d.longitude
    }
}

/// A format-A payload is eight bytes per record.
proof fn lemma_rref_payload_len(records: Seq<(u32, u32)>)
    ensures
        spec_rref_payload(records).len() == 8 * records.len(),
    decreases records.len(),
{
    vstd::bytes::lemma_auto_spec_u32_to_from_le_bytes();
    if records.len() > 0 {
        lemma_rref_payload_len(records.drop_last());
    }
}

/// Decoding the first `n` records reads nothing past byte `8 * n`, so it
/// agrees on any two payloads that agree up to there.
proof fn lemma_rref_parse_depends_on_prefix(a: Seq<u8>, b: Seq<u8>, n: int)
    requires
        0 <= 8 * n,
        8 * n <= a.len(),
        8 * n <= b.len(),
        a.subrange(0, 8 * n) == b.subrange(0, 8 * n),
    ensures
        spec_parse_rref_records(a, n) == spec_parse_rref_records(b, n),
    decreases n,
{
    if n > 0 {
        let pa = a.subrange(0, 8 * n);
        let pb = b.subrange(0, 8 * n);
        assert(a.subrange(0, 8 * (n - 1)) =~= pa.subrange(0, 8 * (n - 1)));
        assert(b.subrange(0, 8 * (n - 1)) =~= pb.subrange(0, 8 * (n - 1)));
        lemma_rref_parse_depends_on_prefix(a, b, n - 1);
        assert(a.subrange(8 * (n - 1), 8 * (n - 1) + 4) =~= pa.subrange(
            8 * (n - 1),
            8 * (n - 1) + 4,
        ));
        assert(b.subrange(8 * (n - 1), 8 * (n - 1) + 4) =~= pb.subrange(
            8 * (n - 1),
            8 * (n - 1) + 4,
        ));
        assert(a.subrange(8 * (n - 1) + 4, 8 * (n - 1) + 8) =~= pa.subrange(
            8 * (n - 1) + 4,
            8 * (n - 1) + 8,
        ));
        assert(b.subrange(8 * (n - 1) + 4, 8 * (n - 1) + 8) =~= pb.subrange(
            8 * (n - 1) + 4,
            8 * (n - 1) + 8,
        ));
    }
}

/// Decoding a payload of exactly the given records recovers their fold.
proof fn lemma_rref_payload_decodes(records: Seq<(u32, u32)>)
    ensures
        spec_parse_rref_records(spec_rref_payload(records), records.len() as int)
            == spec_fold_rref_records(records),
    decreases records.len(),
{
    vstd::bytes::lemma_auto_spec_u32_to_from_le_bytes();
    if records.len() > 0 {
        let n = records.len() as int;
        let prev = records.drop_last();
        let prev_bytes = spec_rref_payload(prev);
        let payload = spec_rref_payload(records);
        let id = records.last().0;
        let value = records.last().1;
        lemma_rref_payload_len(prev);
        lemma_rref_payload_len(records);
        lemma_rref_payload_decodes(prev);
        assert(prev_bytes.subrange(0, 8 * (n - 1)) =~= payload.subrange(0, 8 * (n - 1)));
        lemma_rref_parse_depends_on_prefix(payload, prev_bytes, n - 1);
        assert(payload.subrange(8 * (n - 1), 8 * (n - 1) + 4) =~= spec_u32_to_le_bytes(id));
        assert(payload.subrange(8 * (n - 1) + 4, 8 * (n - 1) + 8) =~= spec_u32_to_le_bytes(value));
    }
}

/// Round trip for the format-A wire layout: a well-formed datagram
/// carrying any records decodes to exactly their fold, so each
/// identifier's field holds the last float word encoded for it, bit for
/// bit, and identifiers never encoded leave their fields unknown.
pub proof fn lemma_rref_datagram_round_trip(records: Seq<(u32, u32)>)
    requires
        records.len() >= 1,
    ensures
        spec_parse_xplane_packet(spec_rref_datagram(records)) == Some(
            spec_fold_rref_records(records),
        ),
{
    let datagram = spec_rref_datagram(records);
    let payload = spec_rref_payload(records);
    lemma_rref_payload_len(records);
    assert(datagram.len() == 5 + 8 * records.len());
    assert(datagram[0] == 82 && datagram[1] == 82 && datagram[2] == 69 && datagram[3] == 70);
    assert(datagram.skip(5) =~= payload);
    assert((8 * records.len()) as int / 8 == records.len()) by (nonlinear_arith);
    lemma_rref_payload_decodes(records);
}

/// Round trip for one format-A record: a datagram encoding one known
/// identifier and one known float word decodes to a sample whose
/// corresponding field equals that word exactly, all others unknown.
pub proof fn lemma_rref_single_record_round_trip(id: u32, value: u32)
    requires
        1 <= id <= 6,
    ensures
        spec_parse_xplane_packet(spec_rref_datagram(seq![(id, value)])) == Some(
            spec_apply_rref_record(spec_default_flight_data(), id, value),
        ),
        spec_rref_field(spec_apply_rref_record(spec_default_flight_data(), id, value), id)
            == value,
{
    let records = seq![(id, value)];
    lemma_rref_datagram_round_trip(records);
    assert(records.last() == (id, value));
    assert(records.drop_last().len() == 0);
    assert(spec_fold_rref_records(records.drop_last()) == spec_default_flight_data());
    assert(spec_fold_rref_records(records) == spec_apply_rref_record(
        spec_default_flight_data(),
        id,
        value,
    ));
}

/// The words of a format-B record, each little-endian, in order.
pub open spec fn spec_le_words(values: Seq<u32>) -> Seq<u8>
    decreases values.len(),
{
    if values.len() == 0 {
        Seq::<u8>::empty()
    } else {
        spec_le_words(values.drop_last()) + spec_u32_to_le_bytes(values.last())
    }
}

/// One format-B record: the index byte, three bytes of padding, then the
/// eight float words.
pub open spec fn spec_data_record_bytes(index: u8, values: Seq<u32>) -> Seq<u8> {
    seq![index, 0u8, 0u8, 0u8] + spec_le_words(values)
}

/// The payload carrying the given format-B records, in order.
pub open spec fn spec_data_payload(records: Seq<(u8, Seq<u32>)>) -> Seq<u8>
    decreases records.len(),
{
    if records.len() == 0 {
        Seq::<u8>::empty()
    } else {
        spec_data_payload(records.drop_last()) + spec_data_record_bytes(
            records.last().0,
            records.last().1,
        )
    }
}

/// A format-B datagram carrying the given records.
pub open spec fn spec_data_datagram(records: Seq<(u8, Seq<u32>)>) -> Seq<u8> {
    seq![68u8, 65u8, 84u8, 65u8, 0u8] + spec_data_payload(records)
}

/// Every record of a format-B datagram carries exactly eight words.
pub open spec fn spec_data_records_wf(records: Seq<(u8, Seq<u32>)>) -> bool {
    forall|i: int| 0 <= i < records.len() ==> (#[trigger] records[i].1).len() == 8
}

/// One format-B record lands in the field its index names: airspeed from
/// the first word of its record, heading and altitude from the third of
/// theirs; unknown indices are ignored.
pub open spec fn spec_apply_data_values(d: FlightDataView, index: u8, values: Seq<u32>) -> FlightDataView {
    if index == DATA_INDEX_SPEED {
        FlightDataView { speed: values[0], ..d }
    } else if index == DATA_INDEX_HEADING {
        FlightDataView { heading: values[2], ..d }
    } else if index == DATA_INDEX_ALTITUDE {
        FlightDataView { altitude: values[2], ..d }
    } else {
        d
    }
}

/// The given format-B records folded over the all-unknown sample.
pub open spec fn spec_fold_data_records(records: Seq<(u8, Seq<u32>)>) -> FlightDataView
    decreases records.len(),
{
    if records.len() == 0 {
        spec_default_flight_data()
    } else {
        spec_apply_data_values(
            spec_fold_data_records(records.drop_last()),
            records.last().0,
            records.last().1,
        )
    }
}

/// The word sequence is four bytes per word.
proof fn lemma_le_words_len(values: Seq<u32>)
    ensures
        spec_le_words(values).len() == 4 * values.len(),
    decreases values.len(),
{
    vstd::bytes::lemma_auto_spec_u32_to_from_le_bytes();
    if values.len() > 0 {
        lemma_le_words_len(values.drop_last());
    }
}

/// Word `j` of the word sequence sits at byte offset `4 * j`.
proof fn lemma_le_words_index(values: Seq<u32>, j: int)
    requires
        0 <= j < values.len(),
    ensures
        spec_le_words(values).subrange(4 * j, 4 * j + 4) == spec_u32_to_le_bytes(values[j]),
    decreases values.len(),
{
    vstd::bytes::lemma_auto_spec_u32_to_from_le_bytes();
    lemma_le_words_len(values);
    if j == values.len() - 1 {
        lemma_le_words_len(values.drop_last());
        assert(spec_le_words(values).subrange(4 * j, 4 * j + 4) =~= spec_u32_to_le_bytes(
            values.last(),
        ));
    } else {
        lemma_le_words_index(values.drop_last(), j);
        lemma_le_words_len(values.drop_last());
        assert(spec_le_words(values).subrange(4 * j, 4 * j + 4) =~= spec_le_words(
            values.drop_last(),
        ).subrange(4 * j, 4 * j + 4));
    }
}

/// A format-B payload is thirty-six bytes per record.
proof fn lemma_data_payload_len(records: Seq<(u8, Seq<u32>)>)
    requires
        spec_data_records_wf(records),
    ensures
        spec_data_payload(records).len() == 36 * records.len(),
    decreases records.len(),
{
    if records.len() > 0 {
        assert(spec_data_records_wf(records.drop_last()));
        lemma_data_payload_len(records.drop_last());
        lemma_le_words_len(records.last().1);
    }
}

/// Decoding the first `n` records reads nothing past byte `36 * n`.
proof fn lemma_data_parse_depends_on_prefix(a: Seq<u8>, b: Seq<u8>, n: int)
    requires
        0 <= 36 * n,
        36 * n <= a.len(),
        36 * n <= b.len(),
        a.subrange(0, 36 * n) == b.subrange(0, 36 * n),
    ensures
        spec_parse_data_records(a, n) == spec_parse_data_records(b, n),
    decreases n,
{
    if n > 0 {
        assert(a.subrange(0, 36 * (n - 1)) =~= a.subrange(0, 36 * n).subrange(0, 36 * (n - 1)));
        assert(b.subrange(0, 36 * (n - 1)) =~= b.subrange(0, 36 * n).subrange(0, 36 * (n - 1)));
        lemma_data_parse_depends_on_prefix(a, b, n - 1);
        let base = 36 * (n - 1);
        let pa = a.subrange(0, 36 * n);
        let pb = b.subrange(0, 36 * n);
        assert(a[base] == pa[base]);
        assert(b[base] == pb[base]);
        assert(a.subrange(base + 4, base + 8) =~= pa.subrange(base + 4, base + 8));
        assert(b.subrange(base + 4, base + 8) =~= pb.subrange(base + 4, base + 8));
        assert(a.subrange(base + 12, base + 16) =~= pa.subrange(base + 12, base + 16));
        assert(b.subrange(base + 12, base + 16) =~= pb.subrange(base + 12, base + 16));
    }
}

/// Decoding a payload of exactly the given records recovers their fold.
proof fn lemma_data_payload_decodes(records: Seq<(u8, Seq<u32>)>)
    requires
        spec_data_records_wf(records),
    ensures
        spec_parse_data_records(spec_data_payload(records), records.len() as int)
            == spec_fold_data_records(records),
    decreases records.len(),
{
    vstd::bytes::lemma_auto_spec_u32_to_from_le_bytes();
    if records.len() > 0 {
        let n = records.len() as int;
        let prev = records.drop_last();
        let prev_bytes = spec_data_payload(prev);
        let payload = spec_data_payload(records);
        let index = records.last().0;
        let values = records.last().1;
        let base = 36 * (n - 1);
        assert(spec_data_records_wf(prev));
        lemma_data_payload_len(prev);
        lemma_data_payload_len(records);
        lemma_le_words_len(values);
        lemma_data_payload_decodes(prev);
        assert(prev_bytes.subrange(0, base) =~= payload.subrange(0, base));
        lemma_data_parse_depends_on_prefix(payload, prev_bytes, n - 1);
        let record_bytes = spec_data_record_bytes(index, values);
        assert(payload[base] == index);
        lemma_le_words_index(values, 0);
        lemma_le_words_index(values, 2);
        assert(payload.subrange(base + 4, base + 8) =~= spec_le_words(values).subrange(0, 4));
        assert(payload.subrange(base + 12, base + 16) =~= spec_le_words(values).subrange(8, 12));
        assert(spec_apply_data_record(spec_parse_data_records(payload, n - 1), payload, base)
            == spec_apply_data_values(spec_parse_data_records(payload, n - 1), index, values));
    }
}

/// Round trip for the format-B wire layout: a well-formed datagram
/// carrying any eight-word records decodes to exactly their fold, so
/// airspeed comes from the first word of an index-three record, heading
/// and altitude from the third word of index-seventeen and index-twenty
/// records, bit for bit, and no other index touches anything.
pub proof fn lemma_data_datagram_round_trip(records: Seq<(u8, Seq<u32>)>)
    requires
        spec_data_records_wf(records),
    ensures
        spec_parse_xplane_packet(spec_data_datagram(records)) == Some(
            spec_fold_data_records(records),
        ),
{
    let datagram = spec_data_datagram(records);
    let payload = spec_data_payload(records);
    lemma_data_payload_len(records);
    assert(datagram.len() == 5 + 36 * records.len());
    assert(datagram[0] == 68 && datagram[1] == 65 && datagram[2] == 84 && datagram[3] == 65);
    if records.len() == 0 {
        assert(datagram.skip(5) =~= payload);
        assert(payload.len() as int / 36 == 0);
    } else {
        assert(datagram[0] != 82);
        assert(datagram.skip(5) =~= payload);
        assert((36 * records.len()) as int / 36 == records.len()) by (nonlinear_arith);
        lemma_data_payload_decodes(records);
    }
}

/// A fold of format-B records never touches vertical speed, latitude,
/// longitude or the callsign.
proof fn lemma_data_fold_untouched_fields(records: Seq<(u8, Seq<u32>)>)
    ensures
        spec_fold_data_records(records).vertical_speed == 0,
        spec_fold_data_records(records).latitude == 0,
        spec_fold_data_records(records).longitude == 0,
        spec_fold_data_records(records).callsign == Seq::<char>::empty(),
    decreases records.len(),
{
    if records.len() > 0 {
        lemma_data_fold_untouched_fields(records.drop_last());
    }
}

/// Applying a well-formed format-B datagram to a stored sample can only
/// change the fields its consumed indices carry: vertical speed,
/// latitude, longitude and the callsign keep their previous store
/// values.
pub proof fn lemma_data_datagram_preserves_other_fields(
    cur: FlightDataView,
    records: Seq<(u8, Seq<u32>)>,
)
    requires
        spec_data_records_wf(records),
    ensures
        spec_apply_packet(cur, spec_data_datagram(records)).vertical_speed
            == cur.vertical_speed,
        spec_apply_packet(cur, spec_data_datagram(records)).latitude == cur.latitude,
        spec_apply_packet(cur, spec_data_datagram(records)).longitude == cur.longitude,
        spec_apply_packet(cur, spec_data_datagram(records)).callsign == cur.callsign,
{
    lemma_data_datagram_round_trip(records);
    lemma_data_fold_untouched_fields(records);
}

/// A read of the stored sample synthesizes a callsign from the altitude
/// when none has been received yet.
pub open spec fn spec_finalize_callsign(d: FlightDataView) -> FlightDataView {
    if d.callsign.len() == 0 {
        FlightDataView { callsign: "CCA"@ + spec_padded_code(spec_hundreds_code(d.altitude)), ..d }
    } else {
        d
    }
}

/// Copy the stored sample for a caller, synthesizing a callsign from the
/// altitude when none has been received yet.
pub fn finalize_flight_data(data: &FlightData) -> (r: FlightData)
    ensures
        r@ == spec_finalize_callsign(data@),
{
    let mut out = FlightData {
        callsign: data.callsign.clone(),
        altitude: data.altitude,
        speed: data.speed,
        heading: data.heading,
        vertical_speed: data.vertical_speed,
        latitude: data.latitude,
        longitude: data.longitude,
    };
    if out.callsign.as_str().is_empty() {
        let mut callsign = String::new();
        callsign.append("CCA");
        let code = padded_code(hundreds_code(data.altitude));
        callsign.append(code.as_str());
        out.callsign = callsign;
    }
    out
}

} // verus!
