//! The sign classifier: scenarios, mutual exclusion, magnitude invariance,
//! and determinism of whole traces.

use compass::actuator::{actuate_sequence, classify, ActuatorState};
use compass::sample::MagneticSample;

#[test]
fn scenario_positive_first_axis() {
    let s = MagneticSample { x: 5, y: -3, z: 100 };
    let a = classify(s.x);
    assert!(a.north);
    assert!(!a.south);
}

#[test]
fn scenario_negative_first_axis() {
    let s = MagneticSample { x: -5, y: 3, z: -100 };
    let a = classify(s.x);
    assert!(!a.north);
    assert!(a.south);
}

#[test]
fn scenario_zero_sample() {
    let s = MagneticSample { x: 0, y: 0, z: 0 };
    let a = classify(s.x);
    assert!(!a.north);
    assert!(!a.south);
}

#[test]
fn outputs_never_both_asserted() {
    let values: Vec<i16> = vec![-32768, -32767, -100, -2, -1, 0, 1, 2, 100, 32766, 32767];
    for v in values {
        let a = classify(v);
        assert!(!(a.north && a.south));
        assert_eq!(a.north, v > 0);
        assert_eq!(a.south, v < 0);
    }
}

#[test]
fn magnitude_does_not_matter() {
    assert_eq!(classify(1), classify(32767));
    assert_eq!(classify(-1), classify(-32768));
    assert_eq!(classify(1), ActuatorState { north: true, south: false });
    assert_eq!(classify(-1), ActuatorState { north: false, south: true });
}

#[test]
fn deasserted_state_is_both_low() {
    let a = ActuatorState::deasserted();
    assert!(!a.north);
    assert!(!a.south);
    assert_eq!(classify(0), a);
}

#[test]
fn trace_is_deterministic() {
    let samples = vec![
        MagneticSample { x: 5, y: -3, z: 100 },
        MagneticSample { x: -5, y: 3, z: -100 },
        MagneticSample { x: 0, y: 0, z: 0 },
        MagneticSample { x: 32767, y: 1, z: 1 },
    ];
    let first = actuate_sequence(&samples);
    let second = actuate_sequence(&samples);
    assert_eq!(first, second);
    assert_eq!(
        first,
        vec![
            ActuatorState { north: true, south: false },
            ActuatorState { north: false, south: true },
            ActuatorState { north: false, south: false },
            ActuatorState { north: true, south: false },
        ]
    );
}

#[test]
fn trace_depends_only_on_sign() {
    let big = vec![
        MagneticSample { x: 32767, y: 9, z: 9 },
        MagneticSample { x: -32768, y: 9, z: 9 },
        MagneticSample { x: 0, y: 9, z: 9 },
    ];
    let small = vec![
        MagneticSample { x: 1, y: -9, z: -9 },
        MagneticSample { x: -1, y: -9, z: -9 },
        MagneticSample { x: 0, y: -9, z: -9 },
    ];
    assert_eq!(actuate_sequence(&big), actuate_sequence(&small));
}
