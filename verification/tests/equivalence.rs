use agentgateway::equivalence::{equivalent, equivalent_values};
use serde_json::Value;

#[test]
fn formatting_and_comments_do_not_count() {
    assert!(equivalent("a: 1\nb: [x, y]\n", "# comment\nb:\n- x\n- 'y'\na:   1"));
    assert!(equivalent("a: 1", "{\"a\": 1}"));
}

#[test]
fn values_count() {
    assert!(!equivalent("a: 1", "a: 2"));
    assert!(!equivalent("a: 1", "a: '1'"));
    assert!(!equivalent("a: [1, 2]", "a: [2, 1]"));
}

#[test]
fn text_that_does_not_parse_is_equivalent_to_nothing() {
    let broken = "{ this is not yaml [";
    assert!(!equivalent(broken, broken));
    assert!(!equivalent("a: 1", broken));
    assert!(!equivalent(broken, "a: 1"));
}

#[test]
fn text_that_parses_is_equivalent_to_itself() {
    for text in ["", "a: 1", "a: .nan", "a: -0.0", "- 1\n- 2.5\n"] {
        assert!(equivalent(text, text), "{text}");
    }
}

#[test]
fn equivalence_goes_both_ways_and_carries_over() {
    let texts = ["a: 1", "{a: 1}", "# comment\na:   1", "a: 2", "a: '1'", "{ this is not yaml ["];
    for a in texts {
        for b in texts {
            assert_eq!(equivalent(a, b), equivalent(b, a), "{a} and {b}");
            for c in texts {
                if equivalent(a, b) {
                    assert_eq!(equivalent(a, c), equivalent(b, c), "{a}, {b} and {c}");
                }
            }
        }
    }
    assert!(equivalent("a: 1", "{a: 1}"));
    assert!(equivalent("{a: 1}", "# comment\na:   1"));
}

#[test]
fn parse_results_compare_by_value() {
    let a = Some(Value::from(vec![1, 2]));
    let b = Some(Value::from(vec![1, 2]));
    let c = Some(Value::from("1"));
    assert!(equivalent_values(&a, &b));
    assert!(!equivalent_values(&a, &c));
    assert!(!equivalent_values(&a, &None));
    assert!(!equivalent_values(&None, &a));
    assert!(!equivalent_values(&None, &None));
}
