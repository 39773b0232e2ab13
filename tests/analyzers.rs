use aris_core::acoustic::{
    classify_level, level_db, HIGH_IMPACT, IMPACT_DB, LOW_IMPACT, SILENCE_DB, STRESS_DB,
};
use aris_core::fatigue::{
    ear_or_sentinel, ear_sentinel, eye_spans, CLOSED_EAR, DROWSY_EAR, EAR_SENTINEL,
};
use aris_core::safety::{HARSH_BRAKING_ACC_Y, SPEED_LIMIT};
use aris_core::{
    analyze_acoustic, analyze_fatigue, analyze_safety, generate_evidence_hash, to_lower_hex,
    Binary32, FaceData, Point, TelemetryData,
};

const BRAKING: &str = "Aris dice: Has frenado muy brusco. Mantén mayor distancia de seguridad.";
const PRAISE: &str = "Aris dice: Conducción perfecta. ¡Sigue así!";

fn num(v: f32) -> Binary32 {
    Binary32::from_bits(v.to_bits())
}

fn telemetry(acc_y: f32, speed: f32) -> TelemetryData {
    TelemetryData { acc_x: num(0.0), acc_y: num(acc_y), acc_z: num(0.0), speed: num(speed) }
}

fn point(x: f32, y: f32) -> Point {
    Point { x: num(x), y: num(y) }
}

#[test]
fn thresholds_encode_their_values() {
    assert_eq!(f32::from_bits(HARSH_BRAKING_ACC_Y), -4.5);
    assert_eq!(f32::from_bits(SPEED_LIMIT), 90.0);
    assert_eq!(f32::from_bits(EAR_SENTINEL), 1.0);
    assert_eq!(f32::from_bits(DROWSY_EAR), 0.26);
    assert_eq!(f32::from_bits(CLOSED_EAR), 0.20);
    assert_eq!(f32::from_bits(SILENCE_DB), -100.0);
    assert_eq!(f32::from_bits(STRESS_DB), -20.0);
    assert_eq!(f32::from_bits(IMPACT_DB), -10.0);
    assert_eq!(f32::from_bits(HIGH_IMPACT), 0.8);
    assert_eq!(f32::from_bits(LOW_IMPACT), 0.1);
}

#[test]
fn comparisons_follow_the_number_line() {
    let values = [f32::NEG_INFINITY, -3.5, -1.0e-40, -0.0, 0.0, 1.0e-40, 2.0, 7.25, f32::INFINITY, f32::NAN];
    for a in values {
        for b in values {
            assert_eq!(num(a).lt(&num(b)), a < b, "{} < {}", a, b);
            assert_eq!(num(a).gt(&num(b)), a > b, "{} > {}", a, b);
            assert_eq!(num(a).num_eq(&num(b)), a == b, "{} == {}", a, b);
        }
    }
    assert!(num(f32::NAN).is_nan());
    assert!(!num(f32::INFINITY).is_nan());
}

#[test]
fn harsh_braking_at_moderate_speed() {
    let r = analyze_safety(&telemetry(-5.0, 50.0));
    assert_eq!(r.score, 80);
    assert!(r.harsh_braking_detected);
    assert_eq!(r.recommendation, BRAKING);
}

#[test]
fn speeding_alone_scores_exactly_ninety() {
    let r = analyze_safety(&telemetry(0.0, 95.0));
    assert_eq!(r.score, 90);
    assert!(!r.harsh_braking_detected);
    assert_eq!(r.recommendation, PRAISE);
}

#[test]
fn braking_and_speeding_both_count() {
    let r = analyze_safety(&telemetry(-6.0, 120.0));
    assert_eq!(r.score, 70);
    assert!(r.harsh_braking_detected);
    assert_eq!(r.recommendation, BRAKING);
}

#[test]
fn safety_thresholds_are_strict() {
    let r = analyze_safety(&telemetry(-4.5, 90.0));
    assert_eq!(r.score, 100);
    assert!(!r.harsh_braking_detected);
    assert_eq!(r.recommendation, PRAISE);
}

#[test]
fn default_telemetry_is_a_perfect_drive() {
    let r = analyze_safety(&TelemetryData::default());
    assert_eq!(r.score, 100);
    assert!(!r.harsh_braking_detected);
    assert_eq!(r.recommendation, PRAISE);
}

#[test]
fn nan_telemetry_raises_no_event() {
    let r = analyze_safety(&telemetry(f32::NAN, f32::NAN));
    assert_eq!(r.score, 100);
    assert!(!r.harsh_braking_detected);
}

#[test]
fn short_eye_has_no_spans() {
    let eye: Vec<Point> = (0..5).map(|i| point(i as f32, 0.0)).collect();
    assert!(eye_spans(&eye).is_none());
    assert!(eye_spans(&Vec::new()).is_none());
    let face = FaceData::default();
    assert!(eye_spans(&face.left_eye).is_none());
    assert!(eye_spans(&face.right_eye).is_none());
}

#[test]
fn eye_spans_pick_landmarks_by_position() {
    let eye: Vec<Point> = (0..7).map(|i| point(i as f32, 10.0 * i as f32)).collect();
    let s = eye_spans(&eye).unwrap();
    assert_eq!(s.outer_lid, (eye[1], eye[5]));
    assert_eq!(s.inner_lid, (eye[2], eye[4]));
    assert_eq!(s.corners, (eye[0], eye[3]));
}

#[test]
fn coincident_corners_give_the_sentinel() {
    assert_eq!(ear_or_sentinel(num(0.0), num(f32::INFINITY)).bits, EAR_SENTINEL);
    assert_eq!(ear_or_sentinel(num(-0.0), num(f32::NAN)).bits, EAR_SENTINEL);
    assert_eq!(ear_or_sentinel(num(3.0), num(0.3)), num(0.3));
    assert_eq!(ear_sentinel(), num(1.0));
}

#[test]
fn missing_eyes_are_not_drowsy() {
    let r = analyze_fatigue(ear_sentinel());
    assert_eq!(r.ear, num(1.0));
    assert!(!r.is_drowsy);
    assert_eq!(r.alert_level, 0);
}

#[test]
fn fatigue_levels() {
    let closed = analyze_fatigue(num(0.15));
    assert!(closed.is_drowsy);
    assert_eq!(closed.alert_level, 3);
    let drowsy = analyze_fatigue(num(0.22));
    assert!(drowsy.is_drowsy);
    assert_eq!(drowsy.alert_level, 2);
    let at_closed_edge = analyze_fatigue(num(0.20));
    assert_eq!(at_closed_edge.alert_level, 2);
    let open = analyze_fatigue(num(0.26));
    assert!(!open.is_drowsy);
    assert_eq!(open.alert_level, 0);
    let nan = analyze_fatigue(num(f32::NAN));
    assert!(!nan.is_drowsy);
    assert_eq!(nan.alert_level, 0);
}

#[test]
fn empty_audio_has_no_report() {
    assert!(analyze_acoustic(0, num(f32::NAN), num(f32::NAN)).is_none());
}

#[test]
fn silent_audio_is_calm() {
    let r = analyze_acoustic(4, num(0.0), num(f32::NEG_INFINITY)).unwrap();
    assert_eq!(r.level_db, num(-100.0));
    assert!(!r.stress_detected);
    assert_eq!(r.impact_likelihood, num(0.1));
}

#[test]
fn loud_audio_levels() {
    let stressed = classify_level(num(-15.0));
    assert!(stressed.stress_detected);
    assert_eq!(stressed.impact_likelihood, num(0.1));
    let impact = analyze_acoustic(2, num(0.5), num(-3.0103)).unwrap();
    assert_eq!(impact.level_db, num(-3.0103));
    assert!(impact.stress_detected);
    assert_eq!(impact.impact_likelihood, num(0.8));
    let at_stress_edge = classify_level(num(-20.0));
    assert!(!at_stress_edge.stress_detected);
    let at_impact_edge = classify_level(num(-10.0));
    assert_eq!(at_impact_edge.impact_likelihood, num(0.1));
}

#[test]
fn level_uses_the_log_only_for_positive_energy() {
    assert_eq!(level_db(num(0.01), num(-20.0)), num(-20.0));
    assert_eq!(level_db(num(-0.0), num(5.0)), num(-100.0));
    assert_eq!(level_db(num(f32::NAN), num(5.0)), num(-100.0));
}

#[test]
fn fingerprint_of_known_texts() {
    assert_eq!(
        generate_evidence_hash(""),
        "e3b0c44298fc1c149afbf4c8996fb92427ae41e4649b934ca495991b7852b855"
    );
    assert_eq!(
        generate_evidence_hash("abc"),
        "ba7816bf8f01cfea414140de5dae2223b00361a396177a9cb410ff61f20015ad"
    );
}

#[test]
fn fingerprint_is_stable_lowercase_hex() {
    let payload = "{\"score\":80,\"harsh_braking_detected\":true}";
    let a = generate_evidence_hash(payload);
    let b = generate_evidence_hash(payload);
    assert_eq!(a, b);
    assert_eq!(a.chars().count(), 64);
    assert!(a.chars().all(|c| c.is_ascii_digit() || ('a'..='f').contains(&c)));
    let changed = "{\"score\":81,\"harsh_braking_detected\":true}";
    assert_ne!(generate_evidence_hash(changed), a);
}

#[test]
fn hex_text_of_bytes() {
    assert_eq!(to_lower_hex(&vec![0x00, 0xff, 0x1a, 0x9c]), "00ff1a9c");
    assert_eq!(to_lower_hex(&Vec::new()), "");
}
