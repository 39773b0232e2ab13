use vstd::prelude::*;
use crate::binary32::{spec_lt, Binary32};

verus! {

/// Acceleration along the travel axis below which braking is harsh (-4.5).
pub const HARSH_BRAKING_ACC_Y: u32 = 0xc090_0000;

/// Speed above which the score is lowered (90.0).
pub const SPEED_LIMIT: u32 = 0x42b4_0000;

/// Score of a trip with no event.
pub const FULL_SCORE: i32 = 100;

/// Points taken for harsh braking.
pub const HARSH_BRAKING_PENALTY: i32 = 20;

/// Points taken for speeding.
pub const SPEEDING_PENALTY: i32 = 10;

/// Scores below this one, without harsh braking, ask to slow down.
pub const GOOD_SCORE: i32 = 90;

/// One inertial sample: three acceleration axes and the speed.
#[derive(Clone, Copy, Debug, PartialEq, Eq, Structural)]
pub struct TelemetryData {
    pub acc_x: Binary32,
    pub acc_y: Binary32,
    pub acc_z: Binary32,
    pub speed: Binary32,
}

impl Default for TelemetryData {
    /// All-zero telemetry, the stand-in for an unreadable record.
    fn default() -> (r: TelemetryData)
        ensures
            r.acc_x.bits == 0,
            r.acc_y.bits == 0,
            r.acc_z.bits == 0,
            r.speed.bits == 0,
    {
        let zero = Binary32::from_bits(0);
        TelemetryData { acc_x: zero, acc_y: zero, acc_z: zero, speed: zero }
    }
}

pub struct SafetyReport {
    pub score: i32,
    pub harsh_braking_detected: bool,
    pub recommendation: String,
}

pub open spec fn braking_advice() -> Seq<char> {
    "Aris dice: Has frenado muy brusco. Mantén mayor distancia de seguridad."@
}

pub open spec fn speed_advice() -> Seq<char> {
    "Aris dice: Tu velocidad es alta. Reduce para mejorar tu score."@
}

pub open spec fn praise() -> Seq<char> {
    "Aris dice: Conducción perfecta. ¡Sigue así!"@
}

pub open spec fn is_harsh_braking(d: TelemetryData) -> bool {
    spec_lt(d.acc_y.bits, HARSH_BRAKING_ACC_Y)
}

pub open spec fn is_speeding(d: TelemetryData) -> bool {
    spec_lt(SPEED_LIMIT, d.speed.bits)
}

/// 100, less 20 for harsh braking and 10 for speeding, never below 0.
pub open spec fn safety_score(d: TelemetryData) -> int {
    let raw = FULL_SCORE - (if is_harsh_braking(d) { HARSH_BRAKING_PENALTY as int } else { 0 })
        - (if is_speeding(d) { SPEEDING_PENALTY as int } else { 0 });
    if raw < 0 {
        0
    } else {
        raw
    }
}

/// First match wins: harsh braking, then a score under 90, then praise.
pub open spec fn recommendation_for(d: TelemetryData) -> Seq<char> {
    if is_harsh_braking(d) {
        braking_advice()
    } else if safety_score(d) < GOOD_SCORE {
        speed_advice()
    } else {
        praise()
    }
}

/// Scores one telemetry sample against the braking and speed rules.
pub fn analyze_safety(data: &TelemetryData) -> (r: SafetyReport)
    ensures
        r.score == safety_score(*data),
        r.harsh_braking_detected == is_harsh_braking(*data),
        r.recommendation@ == recommendation_for(*data),
{
    let mut score: i32 = FULL_SCORE;
    let mut harsh_braking = false;
    if data.acc_y.lt(&Binary32::from_bits(HARSH_BRAKING_ACC_Y)) {
        score = score - HARSH_BRAKING_PENALTY;
        harsh_braking = true;
    }
    if data.speed.gt(&Binary32::from_bits(SPEED_LIMIT)) {
        score = score - SPEEDING_PENALTY;
    }
    let recommendation = if harsh_braking {
        String::from_str("Aris dice: Has frenado muy brusco. Mantén mayor distancia de seguridad.")
    } else if score < GOOD_SCORE {
        String::from_str("Aris dice: Tu velocidad es alta. Reduce para mejorar tu score.")
    } else {
        String::from_str("Aris dice: Conducción perfecta. ¡Sigue así!")
    };
    SafetyReport {
        score: if score < 0 { 0 } else { score },
        harsh_braking_detected: harsh_braking,
        recommendation,
    }
}

/// The score always lies in [0, 100], and the recommendation is one of the
/// three fixed messages.
pub proof fn lemma_safety_report_bounds(d: TelemetryData)
    ensures
        0 <= safety_score(d) <= FULL_SCORE,
        recommendation_for(d) == braking_advice() || recommendation_for(d) == speed_advice()
            || recommendation_for(d) == praise(),
{
}

} // verus!
