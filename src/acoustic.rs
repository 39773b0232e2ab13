use vstd::prelude::*;
use crate::binary32::{spec_lt, Binary32};

verus! {

/// Level reported for a silent signal (-100.0), in place of minus infinity.
pub const SILENCE_DB: u32 = 0xc2c8_0000;

/// Level above which the cabin sounds stressed (-20.0).
pub const STRESS_DB: u32 = 0xc1a0_0000;

/// Level above which an impact is likely (-10.0).
pub const IMPACT_DB: u32 = 0xc120_0000;

/// Impact likelihood of a loud signal (0.8).
pub const HIGH_IMPACT: u32 = 0x3f4c_cccd;

/// Impact likelihood of any other signal (0.1).
pub const LOW_IMPACT: u32 = 0x3dcc_cccd;

pub struct AcousticReport {
    pub stress_detected: bool,
    pub impact_likelihood: Binary32,
    pub level_db: Binary32,
}

/// `10·log10(energy)` when the energy is positive, else the silence floor.
pub open spec fn spec_level_db(energy: u32, log_level: u32) -> u32 {
    if spec_lt(0, energy) {
        log_level
    } else {
        SILENCE_DB
    }
}

pub open spec fn spec_stress(level_db: u32) -> bool {
    spec_lt(STRESS_DB, level_db)
}

pub open spec fn spec_impact(level_db: u32) -> u32 {
    if spec_lt(IMPACT_DB, level_db) {
        HIGH_IMPACT
    } else {
        LOW_IMPACT
    }
}

/// The decibel-like level of a signal, given its mean squared energy and
/// `10·log10` of that energy.
pub fn level_db(energy: Binary32, log_level: Binary32) -> (r: Binary32)
    ensures
        r.bits == spec_level_db(energy.bits, log_level.bits),
{
    if energy.gt(&Binary32::from_bits(0)) {
        log_level
    } else {
        Binary32::from_bits(SILENCE_DB)
    }
}

/// Classifies a level into stress and impact likelihood.
pub fn classify_level(level_db: Binary32) -> (r: AcousticReport)
    ensures
        r.level_db == level_db,
        r.stress_detected == spec_stress(level_db.bits),
        r.impact_likelihood.bits == spec_impact(level_db.bits),
{
    let impact = if level_db.gt(&Binary32::from_bits(IMPACT_DB)) {
        HIGH_IMPACT
    } else {
        LOW_IMPACT
    };
    AcousticReport {
        stress_detected: level_db.gt(&Binary32::from_bits(STRESS_DB)),
        impact_likelihood: Binary32::from_bits(impact),
        level_db,
    }
}

/// The report of `sample_count` samples with the given mean squared energy
/// and `10·log10` of it; `None` for an empty signal, which has no report.
pub fn analyze_acoustic(sample_count: usize, energy: Binary32, log_level: Binary32) -> (r: Option<
    AcousticReport,
>)
    ensures
        r is None <==> sample_count == 0,
        r is Some ==> {
            let lv = spec_level_db(energy.bits, log_level.bits);
            &&& r->0.level_db.bits == lv
            &&& r->0.stress_detected == spec_stress(lv)
            &&& r->0.impact_likelihood.bits == spec_impact(lv)
        },
{
    if sample_count == 0 {
        return None;
    }
    Some(classify_level(level_db(energy, log_level)))
}

/// A silent signal (zero energy, of either sign) sits at the floor level,
/// shows no stress, and has the low impact likelihood.
pub proof fn lemma_silence_is_calm(energy: u32, log_level: u32)
    requires
        energy == 0 || energy == 0x8000_0000,
    ensures
        spec_level_db(energy, log_level) == SILENCE_DB,
        !spec_stress(spec_level_db(energy, log_level)),
        spec_impact(spec_level_db(energy, log_level)) == LOW_IMPACT,
{
}

/// Stress and impact are ordered: a likely impact is always a stressed one.
pub proof fn lemma_impact_implies_stress(level_db: u32)
    ensures
        spec_impact(level_db) == HIGH_IMPACT ==> spec_stress(level_db),
{
}

} // verus!
