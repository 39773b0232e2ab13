use vstd::prelude::*;
use crate::binary32::{spec_lt, spec_num_eq, Binary32};

verus! {

/// Landmarks per eye in the six-point scheme.
pub const EYE_LANDMARKS: usize = 6;

/// Eye-aspect ratio reported when an eye gives no signal (1.0, fully open).
pub const EAR_SENTINEL: u32 = 0x3f80_0000;

/// Average ratio below which the driver is drowsy (0.26).
pub const DROWSY_EAR: u32 = 0x3e85_1eb8;

/// Average ratio below which the eyes count as closed (0.20).
pub const CLOSED_EAR: u32 = 0x3e4c_cccd;

/// Alert level for closed eyes.
pub const ALERT_CLOSED: i32 = 3;

/// Alert level for drowsy eyes.
pub const ALERT_DROWSY: i32 = 2;

/// Alert level for open eyes.
pub const ALERT_NONE: i32 = 0;

/// One facial landmark.
#[derive(Clone, Copy, Debug, PartialEq, Eq, Structural)]
pub struct Point {
    pub x: Binary32,
    pub y: Binary32,
}

/// Six landmarks per eye: outer corner, two upper-lid points, inner corner,
/// two lower-lid points.
pub struct FaceData {
    pub left_eye: Vec<Point>,
    pub right_eye: Vec<Point>,
}

impl Default for FaceData {
    /// Two empty eyes, the stand-in for an unreadable record.
    fn default() -> (r: FaceData)
        ensures
            r.left_eye@.len() == 0,
            r.right_eye@.len() == 0,
    {
        FaceData { left_eye: Vec::new(), right_eye: Vec::new() }
    }
}

/// The three landmark pairs whose distances make up the eye-aspect ratio:
/// `(‖P2−P6‖ + ‖P3−P5‖) / (2·‖P1−P4‖)`.
#[derive(Clone, Copy, Debug)]
pub struct EyeSpans {
    pub outer_lid: (Point, Point),
    pub inner_lid: (Point, Point),
    pub corners: (Point, Point),
}

pub struct FatigueReport {
    pub ear: Binary32,
    pub is_drowsy: bool,
    pub alert_level: i32,
}

pub open spec fn spans_of(eye: Seq<Point>) -> EyeSpans {
    EyeSpans {
        outer_lid: (eye[1], eye[5]),
        inner_lid: (eye[2], eye[4]),
        corners: (eye[0], eye[3]),
    }
}

/// Picks the landmark pairs of one eye by position, or `None` when the eye
/// has fewer than six landmarks.
pub fn eye_spans(eye: &Vec<Point>) -> (r: Option<EyeSpans>)
    ensures
        r is None <==> eye@.len() < EYE_LANDMARKS,
        r is Some ==> r->0 == spans_of(eye@),
{
    if eye.len() < EYE_LANDMARKS {
        return None;
    }
    Some(EyeSpans {
        outer_lid: (eye[1], eye[5]),
        inner_lid: (eye[2], eye[4]),
        corners: (eye[0], eye[3]),
    })
}

pub open spec fn spec_ear_or_sentinel(corner_distance: u32, ratio: u32) -> u32 {
    if spec_num_eq(corner_distance, 0) {
        EAR_SENTINEL
    } else {
        ratio
    }
}

/// The eye-aspect ratio of an eye whose corner distance and ratio were
/// measured: the sentinel when the corners coincide, else the ratio.
pub fn ear_or_sentinel(corner_distance: Binary32, ratio: Binary32) -> (r: Binary32)
    ensures
        r.bits == spec_ear_or_sentinel(corner_distance.bits, ratio.bits),
{
    if corner_distance.num_eq(&Binary32::from_bits(0)) {
        Binary32::from_bits(EAR_SENTINEL)
    } else {
        ratio
    }
}

/// The eye-aspect ratio of an eye that gives no signal.
pub fn ear_sentinel() -> (r: Binary32)
    ensures
        r.bits == EAR_SENTINEL,
{
    Binary32::from_bits(EAR_SENTINEL)
}

pub open spec fn spec_is_drowsy(ear: u32) -> bool {
    spec_lt(ear, DROWSY_EAR)
}

pub open spec fn spec_alert_level(ear: u32) -> i32 {
    if spec_lt(ear, CLOSED_EAR) {
        ALERT_CLOSED
    } else if spec_lt(ear, DROWSY_EAR) {
        ALERT_DROWSY
    } else {
        ALERT_NONE
    }
}

/// Classifies the average eye-aspect ratio of both eyes.
pub fn analyze_fatigue(avg_ear: Binary32) -> (r: FatigueReport)
    ensures
        r.ear == avg_ear,
        r.is_drowsy == spec_is_drowsy(avg_ear.bits),
        r.alert_level == spec_alert_level(avg_ear.bits),
{
    let is_drowsy = avg_ear.lt(&Binary32::from_bits(DROWSY_EAR));
    let alert_level = if avg_ear.lt(&Binary32::from_bits(CLOSED_EAR)) {
        ALERT_CLOSED
    } else if is_drowsy {
        ALERT_DROWSY
    } else {
        ALERT_NONE
    };
    FatigueReport { ear: avg_ear, is_drowsy, alert_level }
}

/// An eye without a signal reads as fully open: its sentinel ratio is not
/// drowsy and raises no alert.
pub proof fn lemma_sentinel_is_alert()
    ensures
        !spec_is_drowsy(EAR_SENTINEL),
        spec_alert_level(EAR_SENTINEL) == ALERT_NONE,
{
}

/// Drowsiness and alert level agree: the driver is drowsy exactly when an
/// alert is raised, and closed eyes are also drowsy ones.
pub proof fn lemma_alert_matches_drowsiness(ear: u32)
    ensures
        spec_is_drowsy(ear) <==> spec_alert_level(ear) != ALERT_NONE,
        spec_alert_level(ear) == ALERT_CLOSED ==> spec_is_drowsy(ear),
{
}

} // verus!
