//! Classification of a telemetry snapshot into a discrete flight phase.
//!
//! The classifier is a pure function of the current sample and the
//! previously classified phase. Rules are evaluated in a fixed priority
//! order and the first match wins; when nothing matches the previous phase
//! is kept. The detector wraps the classifier with duration tracking: a
//! transition stamps the time at which the new phase was entered.

use vstd::prelude::*;
use vstd::string::StringSliceAdditionalSpecFns;
use crate::fbits::{
    spec_lt, spec_le, spec_gt, spec_ge, abs_bits, lt_bits, le_bits, gt_bits, ge_bits,
    abs_value_bits,
};
use crate::text::str_eq;

verus! {

/// The closed set of flight phases; exactly one is current at any time.
#[derive(Debug, Clone, Copy, PartialEq, Eq, Structural)]
pub enum FlightPhase {
    PreFlight,
    Taxi,
    Takeoff,
    Climb,
    Cruise,
    Descent,
    Approach,
    Landing,
    GoAround,
}

/// 5 kt: below this on the ground the aircraft is parked.
pub const SPEED_TAXI_MIN_BITS: u32 = 0x40a0_0000;

/// 60 kt: at or above this the aircraft is rolling for takeoff or landing.
pub const SPEED_ROLL_MIN_BITS: u32 = 0x4270_0000;

/// 500 ft: the low-altitude band for takeoff and landing.
pub const ALT_LOW_BITS: u32 = 0x43fa_0000;

/// 3000 ft: ceiling under which a sudden climb out of an approach is a
/// go-around.
pub const ALT_GOAROUND_MAX_BITS: u32 = 0x453b_8000;

/// 5000 ft: ceiling of the approach band, floor of the descent band.
pub const ALT_APPROACH_MAX_BITS: u32 = 0x459c_4000;

/// 20000 ft: floor of the cruise band.
pub const ALT_CRUISE_MIN_BITS: u32 = 0x469c_4000;

/// 300 fpm: climbing faster than this below cruise altitude is a climb.
pub const VSPEED_CLIMB_MIN_BITS: u32 = 0x4396_0000;

/// 500 fpm: the takeoff climb rate, and the cruise band on either side of
/// level flight.
pub const VSPEED_TAKEOFF_MIN_BITS: u32 = 0x43fa_0000;

/// 1000 fpm: climbing faster than this at low altitude out of an approach
/// is a go-around.
pub const VSPEED_GOAROUND_MIN_BITS: u32 = 0x447a_0000;

/// Minus 100 fpm: sinking faster than this at low altitude is an approach
/// or a landing.
pub const VSPEED_SINK_MAX_BITS: u32 = 0xc2c8_0000;

/// Minus 300 fpm: sinking faster than this above the approach band is a
/// descent.
pub const VSPEED_DESCENT_MAX_BITS: u32 = 0xc396_0000;

/// One telemetry sample as the classifier sees it. Numeric fields hold raw
/// IEEE-754 bit patterns (altitude in feet, speed in knots, heading in
/// degrees, vertical speed in feet per minute).
#[derive(Debug, Clone, Copy, PartialEq, Eq, Structural)]
pub struct FlightData {
    pub altitude: u32,
    pub speed: u32,
    pub heading: u32,
    pub vertical_speed: u32,
    pub on_ground: bool,
}

/// The classification policy: rules in priority order, first match wins,
/// previous phase kept when nothing matches.
pub open spec fn spec_detect_phase(data: FlightData, previous: FlightPhase) -> FlightPhase {
    let alt = data.altitude;
    let spd = data.speed;
    let vs = data.vertical_speed;
    let on_ground = data.on_ground;
    if on_ground && spec_lt(spd, SPEED_TAXI_MIN_BITS) {
        FlightPhase::PreFlight
    } else if on_ground && spec_ge(spd, SPEED_TAXI_MIN_BITS) && spec_lt(spd, SPEED_ROLL_MIN_BITS) {
        FlightPhase::Taxi
    } else if (on_ground || spec_lt(alt, ALT_LOW_BITS)) && spec_ge(spd, SPEED_ROLL_MIN_BITS)
        && spec_gt(vs, VSPEED_TAKEOFF_MIN_BITS) {
        FlightPhase::Takeoff
    } else if !on_ground && spec_lt(alt, ALT_CRUISE_MIN_BITS) && spec_gt(vs, VSPEED_CLIMB_MIN_BITS) {
        FlightPhase::Climb
    } else if !on_ground && spec_ge(alt, ALT_CRUISE_MIN_BITS)
        && spec_lt(abs_bits(vs), VSPEED_TAKEOFF_MIN_BITS) {
        FlightPhase::Cruise
    } else if !on_ground && spec_gt(alt, ALT_APPROACH_MAX_BITS) && spec_lt(vs, VSPEED_DESCENT_MAX_BITS) {
        FlightPhase::Descent
    } else if !on_ground && spec_ge(alt, ALT_LOW_BITS) && spec_le(alt, ALT_APPROACH_MAX_BITS)
        && spec_lt(vs, VSPEED_SINK_MAX_BITS) {
        FlightPhase::Approach
    } else if (on_ground && spec_gt(spd, SPEED_ROLL_MIN_BITS)) || (!on_ground
        && spec_lt(alt, ALT_LOW_BITS) && spec_lt(vs, VSPEED_SINK_MAX_BITS)) {
        FlightPhase::Landing
    } else if !on_ground && spec_lt(alt, ALT_GOAROUND_MAX_BITS)
        && spec_gt(vs, VSPEED_GOAROUND_MIN_BITS) && previous == FlightPhase::Approach {
        FlightPhase::GoAround
    } else {
        previous
    }
}

/// The stable key naming each phase.
pub open spec fn spec_phase_key(p: FlightPhase) -> Seq<char> {
    match p {
        FlightPhase::PreFlight => "pre_flight"@,
        FlightPhase::Taxi => "taxi"@,
        FlightPhase::Takeoff => "takeoff"@,
        FlightPhase::Climb => "climb"@,
        FlightPhase::Cruise => "cruise"@,
        FlightPhase::Descent => "descent"@,
        FlightPhase::Approach => "approach"@,
        FlightPhase::Landing => "landing"@,
        FlightPhase::GoAround => "go_around"@,
    }
}

/// The human-readable name of each phase.
pub open spec fn spec_phase_display_name(p: FlightPhase) -> Seq<char> {
    match p {
        FlightPhase::PreFlight => "飞行前"@,
        FlightPhase::Taxi => "滑行"@,
        FlightPhase::Takeoff => "起飞"@,
        FlightPhase::Climb => "爬升"@,
        FlightPhase::Cruise => "巡航"@,
        FlightPhase::Descent => "下降"@,
        FlightPhase::Approach => "进近"@,
        FlightPhase::Landing => "着陆"@,
        FlightPhase::GoAround => "复飞"@,
    }
}

impl FlightPhase {
    /// The stable key naming this phase.
    pub fn as_str(&self) -> (r: &str)
        ensures
            r@ == spec_phase_key(*self),
    {
        match self {
            FlightPhase::PreFlight => "pre_flight",
            FlightPhase::Taxi => "taxi",
            FlightPhase::Takeoff => "takeoff",
            FlightPhase::Climb => "climb",
            FlightPhase::Cruise => "cruise",
            FlightPhase::Descent => "descent",
            FlightPhase::Approach => "approach",
            FlightPhase::Landing => "landing",
            FlightPhase::GoAround => "go_around",
        }
    }

    /// The human-readable name of this phase.
    pub fn display_name(&self) -> (r: &str)
        ensures
            r@ == spec_phase_display_name(*self),
    {
        match self {
            FlightPhase::PreFlight => "飞行前",
            FlightPhase::Taxi => "滑行",
            FlightPhase::Takeoff => "起飞",
            FlightPhase::Climb => "爬升",
            FlightPhase::Cruise => "巡航",
            FlightPhase::Descent => "下降",
            FlightPhase::Approach => "进近",
            FlightPhase::Landing => "着陆",
            FlightPhase::GoAround => "复飞",
        }
    }
}

/// Tracks the current phase and the instant it was entered. Time is handed
/// in by the caller as milliseconds of a monotonic clock, so every method
/// is a pure function of its arguments.
pub struct FlightPhaseDetector {
    pub current_phase: FlightPhase,
    pub previous_altitude: u32,
    pub previous_speed: u32,
    pub phase_start_ms: u64,
}

/// One detector step: classify the sample, keep the entry stamp on a
/// repeat, restamp on a transition, remember the sample's altitude and
/// speed.
pub open spec fn spec_update_detector(
    d: FlightPhaseDetector,
    data: FlightData,
    now_ms: u64,
) -> FlightPhaseDetector {
    let phase = spec_detect_phase(data, d.current_phase);
    FlightPhaseDetector {
        current_phase: phase,
        previous_altitude: data.altitude,
        previous_speed: data.speed,
        phase_start_ms: if phase == d.current_phase {
            d.phase_start_ms
        } else {
            now_ms
        },
    }
}

impl FlightPhaseDetector {
    /// A fresh detector: pre-flight, entered now.
    pub fn new(now_ms: u64) -> (r: FlightPhaseDetector)
        ensures
            r.current_phase == FlightPhase::PreFlight,
            r.previous_altitude == 0,
            r.previous_speed == 0,
            r.phase_start_ms == now_ms,
    {
        FlightPhaseDetector {
            current_phase: FlightPhase::PreFlight,
            previous_altitude: 0,
            previous_speed: 0,
            phase_start_ms: now_ms,
        }
    }

    /// Classify one sample against the classification policy.
    fn detect_phase(&self, data: &FlightData) -> (r: FlightPhase)
        ensures
            r == spec_detect_phase(*data, self.current_phase),
    {
        let alt = data.altitude;
        let spd = data.speed;
        let vs = data.vertical_speed;
        let on_ground = data.on_ground;

        if on_ground && lt_bits(spd, SPEED_TAXI_MIN_BITS) {
            return FlightPhase::PreFlight;
        }
        if on_ground && ge_bits(spd, SPEED_TAXI_MIN_BITS) && lt_bits(spd, SPEED_ROLL_MIN_BITS) {
            return FlightPhase::Taxi;
        }
        if (on_ground || lt_bits(alt, ALT_LOW_BITS)) && ge_bits(spd, SPEED_ROLL_MIN_BITS)
            && gt_bits(vs, VSPEED_TAKEOFF_MIN_BITS) {
            return FlightPhase::Takeoff;
        }
        if !on_ground && lt_bits(alt, ALT_CRUISE_MIN_BITS) && gt_bits(vs, VSPEED_CLIMB_MIN_BITS) {
            return FlightPhase::Climb;
        }
        if !on_ground && ge_bits(alt, ALT_CRUISE_MIN_BITS)
            && lt_bits(abs_value_bits(vs), VSPEED_TAKEOFF_MIN_BITS) {
            return FlightPhase::Cruise;
        }
        if !on_ground && gt_bits(alt, ALT_APPROACH_MAX_BITS) && lt_bits(vs, VSPEED_DESCENT_MAX_BITS) {
            return FlightPhase::Descent;
        }
        if !on_ground && ge_bits(alt, ALT_LOW_BITS) && le_bits(alt, ALT_APPROACH_MAX_BITS)
            && lt_bits(vs, VSPEED_SINK_MAX_BITS) {
            return FlightPhase::Approach;
        }
        if (on_ground && gt_bits(spd, SPEED_ROLL_MIN_BITS)) || (!on_ground
            && lt_bits(alt, ALT_LOW_BITS) && lt_bits(vs, VSPEED_SINK_MAX_BITS)) {
            return FlightPhase::Landing;
        }
        if !on_ground && lt_bits(alt, ALT_GOAROUND_MAX_BITS)
            && gt_bits(vs, VSPEED_GOAROUND_MIN_BITS) && self.current_phase == FlightPhase::Approach {
            return FlightPhase::GoAround;
        }
        self.current_phase
    }

    /// Classify one sample; on a transition, stamp the entry time.
    pub fn update(&mut self, data: &FlightData, now_ms: u64) -> (phase: FlightPhase)
        ensures
            phase == spec_detect_phase(*data, old(self).current_phase),
            *final(self) == spec_update_detector(*old(self), *data, now_ms),
    {
        let new_phase = self.detect_phase(data);

        if new_phase != self.current_phase {
            self.current_phase = new_phase;
            self.phase_start_ms = now_ms;
        }

        self.previous_altitude = data.altitude;
        self.previous_speed = data.speed;

        self.current_phase
    }

    /// The phase the aircraft is currently in.
    pub fn get_current_phase(&self) -> (r: FlightPhase)
        ensures
            r == self.current_phase,
    {
        self.current_phase
    }

    /// Milliseconds spent in the current phase, zero if the clock reads
    /// earlier than the entry stamp.
    pub fn get_phase_duration(&self, now_ms: u64) -> (r: u64)
        ensures
            r == (if now_ms >= self.phase_start_ms {
                now_ms - self.phase_start_ms
            } else {
                0
            }),
    {
        if now_ms >= self.phase_start_ms {
            now_ms - self.phase_start_ms
        } else {
            0
        }
    }

    /// Advisory text for the current phase, keyed by language tag.
    pub fn get_atc_context(&self, language: &str) -> (r: String)
        ensures
            r@ == (if language.spec_bytes() =~= "zh".spec_bytes() {
                spec_chinese_context(self.current_phase)
            } else {
                spec_english_context(self.current_phase)
            }),
    {
        if str_eq(language, "zh") {
            self.get_chinese_context()
        } else {
            self.get_english_context()
        }
    }

    /// Chinese advisory text for the current phase.
    fn get_chinese_context(&self) -> (r: String)
        ensures
            r@ == spec_chinese_context(self.current_phase),
    {
        let text = match self.current_phase {
            FlightPhase::PreFlight => "飞行员正在准备起飞。你应该提供：\n- 天气信息\n- 跑道信息\n- 放行许可\n- 滑行指令",
            FlightPhase::Taxi => "飞行员正在滑行。你应该提供：\n- 滑行路线指引\n- 等待指令\n- 跑道穿越许可",
            FlightPhase::Takeoff => "飞行员正在起飞。你应该提供：\n- 起飞许可\n- 初始爬升指令\n- 离场航向",
            FlightPhase::Climb => "飞行员正在爬升。你应该提供：\n- 爬升高度指令\n- 航向调整\n- 频率切换",
            FlightPhase::Cruise => "飞行员正在巡航。你应该提供：\n- 高度保持确认\n- 航路调整\n- 天气信息",
            FlightPhase::Descent => "飞行员正在下降。你应该提供：\n- 下降许可\n- 目标高度\n- 进近准备",
            FlightPhase::Approach => "飞行员正在进近。你应该提供：\n- 进近许可\n- 最后进近指令\n- 着陆许可",
            FlightPhase::Landing => "飞行员正在着陆。你应该提供：\n- 着陆许可确认\n- 脱离跑道指令\n- 滑行指引",
            FlightPhase::GoAround => "飞行员正在复飞。你应该提供：\n- 复飞指令确认\n- 爬升高度\n- 复飞航向",
        };
        text.to_owned()
    }

    /// English advisory text for the current phase.
    fn get_english_context(&self) -> (r: String)
        ensures
            r@ == spec_english_context(self.current_phase),
    {
        let text = match self.current_phase {
            FlightPhase::PreFlight => "Pilot is preparing for departure. You should provide:\n- Weather information\n- Runway information\n- Clearance delivery\n- Taxi instructions",
            FlightPhase::Taxi => "Pilot is taxiing. You should provide:\n- Taxi route guidance\n- Hold short instructions\n- Runway crossing clearance",
            FlightPhase::Takeoff => "Pilot is taking off. You should provide:\n- Takeoff clearance\n- Initial climb instructions\n- Departure heading",
            FlightPhase::Climb => "Pilot is climbing. You should provide:\n- Climb altitude instructions\n- Heading adjustments\n- Frequency changes",
            FlightPhase::Cruise => "Pilot is cruising. You should provide:\n- Altitude maintenance confirmation\n- Route adjustments\n- Weather information",
            FlightPhase::Descent => "Pilot is descending. You should provide:\n- Descent clearance\n- Target altitude\n- Approach preparation",
            FlightPhase::Approach => "Pilot is on approach. You should provide:\n- Approach clearance\n- Final approach instructions\n- Landing clearance",
            FlightPhase::Landing => "Pilot is landing. You should provide:\n- Landing clearance confirmation\n- Runway exit instructions\n- Taxi guidance",
            FlightPhase::GoAround => "Pilot is going around. You should provide:\n- Go-around instruction confirmation\n- Climb altitude\n- Go-around heading",
        };
        text.to_owned()
    }
}

/// Chinese advisory text, by phase.
pub open spec fn spec_chinese_context(p: FlightPhase) -> Seq<char> {
    match p {
        FlightPhase::PreFlight => "飞行员正在准备起飞。你应该提供：\n- 天气信息\n- 跑道信息\n- 放行许可\n- 滑行指令"@,
        FlightPhase::Taxi => "飞行员正在滑行。你应该提供：\n- 滑行路线指引\n- 等待指令\n- 跑道穿越许可"@,
        FlightPhase::Takeoff => "飞行员正在起飞。你应该提供：\n- 起飞许可\n- 初始爬升指令\n- 离场航向"@,
        FlightPhase::Climb => "飞行员正在爬升。你应该提供：\n- 爬升高度指令\n- 航向调整\n- 频率切换"@,
        FlightPhase::Cruise => "飞行员正在巡航。你应该提供：\n- 高度保持确认\n- 航路调整\n- 天气信息"@,
        FlightPhase::Descent => "飞行员正在下降。你应该提供：\n- 下降许可\n- 目标高度\n- 进近准备"@,
        FlightPhase::Approach => "飞行员正在进近。你应该提供：\n- 进近许可\n- 最后进近指令\n- 着陆许可"@,
        FlightPhase::Landing => "飞行员正在着陆。你应该提供：\n- 着陆许可确认\n- 脱离跑道指令\n- 滑行指引"@,
        FlightPhase::GoAround => "飞行员正在复飞。你应该提供：\n- 复飞指令确认\n- 爬升高度\n- 复飞航向"@,
    }
}

/// English advisory text, by phase.
pub open spec fn spec_english_context(p: FlightPhase) -> Seq<char> {
    match p {
        FlightPhase::PreFlight => "Pilot is preparing for departure. You should provide:\n- Weather information\n- Runway information\n- Clearance delivery\n- Taxi instructions"@,
        FlightPhase::Taxi => "Pilot is taxiing. You should provide:\n- Taxi route guidance\n- Hold short instructions\n- Runway crossing clearance"@,
        FlightPhase::Takeoff => "Pilot is taking off. You should provide:\n- Takeoff clearance\n- Initial climb instructions\n- Departure heading"@,
        FlightPhase::Climb => "Pilot is climbing. You should provide:\n- Climb altitude instructions\n- Heading adjustments\n- Frequency changes"@,
        FlightPhase::Cruise => "Pilot is cruising. You should provide:\n- Altitude maintenance confirmation\n- Route adjustments\n- Weather information"@,
        FlightPhase::Descent => "Pilot is descending. You should provide:\n- Descent clearance\n- Target altitude\n- Approach preparation"@,
        FlightPhase::Approach => "Pilot is on approach. You should provide:\n- Approach clearance\n- Final approach instructions\n- Landing clearance"@,
        FlightPhase::Landing => "Pilot is landing. You should provide:\n- Landing clearance confirmation\n- Runway exit instructions\n- Taxi guidance"@,
        FlightPhase::GoAround => "Pilot is going around. You should provide:\n- Go-around instruction confirmation\n- Climb altitude\n- Go-around heading"@,
    }
}

/// The go-around rule is shadowed by the climb rule: any sample it
/// accepts (airborne, below the go-around ceiling, climbing past its
/// threshold) is already claimed by the higher-priority climb rule, so a
/// go-around can be current only by having been the previous phase.
pub proof fn lemma_go_around_only_sticky(data: FlightData, previous: FlightPhase)
    ensures
        spec_detect_phase(data, previous) == FlightPhase::GoAround ==> previous
            == FlightPhase::GoAround,
{
}

/// The classifier is deterministic: identical samples and identical
/// previous phases classify identically.
pub proof fn lemma_classify_deterministic(
    a: FlightData,
    b: FlightData,
    previous_a: FlightPhase,
    previous_b: FlightPhase,
)
    requires
        a == b,
        previous_a == previous_b,
    ensures
        spec_detect_phase(a, previous_a) == spec_detect_phase(b, previous_b),
{
}

} // verus!
