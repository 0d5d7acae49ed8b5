use hace_soul_orch::error::{BrainError, MemoryError, ProfileError, RoutingError, SoulError};
use hace_soul_orch::merge::prevailing;
use hace_soul_orch::services::{HookIds, HookPoint};
use hace_soul_orch::{merge_results, OrchConfig, OrchError, Score, SoulResult};
use serde_json::Value;

fn result(soul: &str, output: &str, confidence: f32) -> SoulResult {
    SoulResult {
        soul_id: soul.into(),
        brain_id: "e".into(),
        output: serde_json::from_str(output).unwrap(),
        confidence: Score::from_bits(confidence.to_bits()),
        tokens: 0,
        latency_ms: 0,
    }
}

const VALUES: [f32; 12] = [
    0.0,
    -0.0,
    0.6,
    0.9,
    -0.9,
    1.0,
    f32::MIN_POSITIVE,
    -1.0e-42,
    f32::INFINITY,
    f32::NEG_INFINITY,
    f32::NAN,
    f32::MAX,
];

#[test]
fn merged_output_picks_highest_confidence() {
    let results = vec![result("s1", r#"{"a": 1}"#, 0.6), result("s2", r#"{"b": 2}"#, 0.9)];
    let merged = merge_results(&results);
    assert_eq!(merged["b"], 2);
}

#[test]
fn the_last_of_equals_is_merged() {
    let results = vec![
        result("s1", "1", 0.9),
        result("s2", "2", 0.9),
        result("s3", "3", 0.1),
    ];
    assert_eq!(merge_results(&results), Value::from(2));
    let zeros = vec![result("s1", "1", 0.0), result("s2", "2", -0.0)];
    assert_eq!(merge_results(&zeros), Value::from(2));
}

#[test]
fn nothing_merges_to_null() {
    assert_eq!(merge_results(&[]), Value::Null);
    assert_eq!(prevailing(&[]), None);
}

#[test]
fn a_single_result_is_merged_whatever_its_confidence() {
    for value in VALUES {
        assert_eq!(merge_results(&[result("s", "\"only\"", value)]), Value::from("only"));
    }
}

#[test]
fn a_nan_drops_what_stands_before_it() {
    let results = vec![
        result("s1", "1", 0.9),
        result("s2", "2", f32::NAN),
        result("s3", "3", 0.1),
    ];
    assert_eq!(merge_results(&results), Value::from(3));
    let last = vec![result("s1", "1", 0.9), result("s2", "2", f32::NAN)];
    assert_eq!(merge_results(&last), Value::from(2));
}

#[test]
fn merging_agrees_with_the_floating_point_maximum() {
    for a in VALUES {
        for b in VALUES {
            for c in VALUES {
                let values = [a, b, c];
                let results: Vec<SoulResult> =
                    values.iter().map(|v| result("s", "0", *v)).collect();
                let expected = (0..3usize)
                    .max_by(|x, y| {
                        values[*x].partial_cmp(&values[*y]).unwrap_or(std::cmp::Ordering::Equal)
                    })
                    .unwrap();
                assert_eq!(prevailing(&results), Some(expected), "{:?}", values);
            }
        }
    }
}

#[test]
fn scores_compare_as_floats() {
    for a in VALUES {
        for b in VALUES {
            let (x, y) = (Score::from_bits(a.to_bits()), Score::from_bits(b.to_bits()));
            assert_eq!(x.exceeds(&y), a > b, "{} {}", a, b);
        }
        assert_eq!(Score::from_bits(a.to_bits()).is_nan(), a.is_nan());
        assert_eq!(Score::from_bits(a.to_bits()).to_bits(), a.to_bits());
    }
}

#[test]
fn the_default_limits() {
    let config = OrchConfig::default();
    assert_eq!(config.max_concurrent_souls, 3);
    assert_eq!(config.memory_context_limit, 5);
    assert!(config.multi_soul_enabled);
}

#[test]
fn souls_are_cut_to_the_limit() {
    let souls = |n: usize| -> Vec<String> { (0..n).map(|i| i.to_string()).collect() };
    let config = OrchConfig::default();
    assert_eq!(config.limit_souls(souls(2)), souls(2));
    assert_eq!(config.limit_souls(souls(3)), souls(3));
    assert_eq!(config.limit_souls(souls(5)), souls(3));
    let single = OrchConfig { multi_soul_enabled: false, ..OrchConfig::default() };
    assert_eq!(single.limit_souls(souls(5)), souls(1));
    assert_eq!(single.limit_souls(souls(0)), souls(0));
    let none = OrchConfig { max_concurrent_souls: 0, ..single };
    assert_eq!(none.limit_souls(souls(5)), souls(0));
}

#[test]
fn errors_read_as_their_kind_and_cause() {
    let m = || "why".to_string();
    let texts: Vec<String> = vec![
        OrchError::from(RoutingError { msg: m() }).message(),
        OrchError::from(ProfileError { msg: m() }).message(),
        OrchError::from(BrainError { msg: m() }).message(),
        OrchError::from(SoulError { msg: m() }).message(),
        OrchError::from(MemoryError { msg: m() }).message(),
        OrchError::HookDenied { hook_id: m() }.message(),
    ];
    assert_eq!(
        texts,
        vec![
            "routing failed: why",
            "soul not found: why",
            "brain execute failed: why",
            "authority denied: why",
            "memory error: why",
            "hook denied: why",
        ]
    );
}

#[test]
fn each_hook_point_has_its_id_and_action() {
    let ids = HookIds {
        before_switch: "1".into(),
        before_brain: "2".into(),
        after_brain: "3".into(),
        after_response: "4".into(),
    };
    let points = [
        (HookPoint::BeforeSwitch, "1", "soul_switch"),
        (HookPoint::BeforeBrain, "2", "brain.reason"),
        (HookPoint::AfterBrain, "3", "brain.reason.done"),
        (HookPoint::AfterResponse, "4", "soul.response"),
    ];
    for (point, id, action) in points {
        assert_eq!(ids.id(point), id);
        assert_eq!(point.action(), action);
    }
}
