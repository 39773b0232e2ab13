//! Heuristic safety signals from in-vehicle sensors: eye-closure fatigue,
//! harsh braking and speeding, acoustic stress, and content fingerprints.
//!
//! Sensor values are single-precision IEEE-754 numbers. The library holds
//! each one as its 32-bit pattern (`Binary32`) and takes every threshold
//! decision on that pattern, so the decisions are proved against an exact
//! model of the number line. Measurements themselves (distances, energies,
//! logarithms) are computed by the caller and handed in as patterns.

pub mod acoustic;
pub mod binary32;
pub mod evidence;
pub mod fatigue;
pub mod safety;

pub use acoustic::{analyze_acoustic, AcousticReport};
pub use binary32::Binary32;
pub use evidence::{generate_evidence_hash, to_lower_hex, EvidenceHeader};
pub use fatigue::{analyze_fatigue, FaceData, FatigueReport, Point};
pub use safety::{analyze_safety, SafetyReport, TelemetryData};
