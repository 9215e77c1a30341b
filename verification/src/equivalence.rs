//! Comparison of configuration texts by what they mean.

use vstd::prelude::*;

verus! {

/// A JSON value, as `serde_json` holds it. What is inside is not looked at here: values come from
/// [`parse`] and are compared with `==`.
#[verifier::external_type_specification]
#[verifier::external_body]
pub struct ExValue(serde_json::Value);

/// What the YAML text `content` parses to as a JSON value; `None` where it does not parse.
pub uninterp spec fn parsed(content: Seq<char>) -> Option<serde_json::Value>;

/// Whether `serde_json::Value`'s `==` takes the two values to be equal.
pub uninterp spec fn same_value(a: serde_json::Value, b: serde_json::Value) -> bool;

/// Calls `serde_yaml::from_str` for a `serde_json::Value`, and drops the error. The result is a
/// function of the text alone, named [`parsed`]. Nothing is claimed of what a given text parses to,
/// nor that another YAML parser would agree.
#[verifier::external_body]
fn parse(content: &str) -> (value: Option<serde_json::Value>)
    ensures
        value == parsed(content@),
{
    serde_yaml::from_str::<serde_json::Value>(content).ok()
}

/// Calls `==` of `serde_json::Value`. The result is a function of the two values, named
/// [`same_value`]. That `==` is an equivalence relation, since the numbers in a value are never NaN:
/// a value equals itself, the order of the two does not matter, and what equals the one of two equal
/// values equals the other.
#[verifier::external_body]
fn value_eq(a: &serde_json::Value, b: &serde_json::Value) -> (equal: bool)
    ensures
        equal == same_value(*a, *b),
        equal == same_value(*b, *a),
        *a == *b ==> equal,
        forall|c: serde_json::Value|
            equal ==> #[trigger] same_value(*b, c) == #[trigger] same_value(*a, c),
{
    a == b
}

/// Whether two parse results stand for equal configs: both parsed, and to equal values.
pub open spec fn equal_values(
    a: Option<serde_json::Value>,
    b: Option<serde_json::Value>,
) -> bool {
    match (a, b) {
        (Some(x), Some(y)) => same_value(x, y),
        _ => false,
    }
}

/// Whether two configs say the same: both parse, and to equal values.
pub open spec fn equivalent_texts(a: Seq<char>, b: Seq<char>) -> bool {
    equal_values(parsed(a), parsed(b))
}

/// Compares two parse results. One that did not parse equals nothing, not even itself.
pub fn equivalent_values(
    a: &Option<serde_json::Value>,
    b: &Option<serde_json::Value>,
) -> (same: bool)
    ensures
        same == equal_values(*a, *b),
        same <==> a is Some && b is Some && same_value(a->0, b->0),
        same == equal_values(*b, *a),
        *a == *b ==> same == (a is Some),
        same ==> forall|c: Option<serde_json::Value>| #[trigger]
            equal_values(*b, c) == #[trigger] equal_values(*a, c),
{
    match (a, b) {
        (Some(x), Some(y)) => value_eq(x, y),
        _ => false,
    }
}

/// Compares configs by parsed value, so that formatting and comments don't count as a difference.
/// On configs that parse this is an equivalence relation; one that does not parse is equivalent to
/// nothing, not even to itself.
pub fn equivalent(a: &str, b: &str) -> (same: bool)
    ensures
        same == equivalent_texts(a@, b@),
        same <==> parsed(a@) is Some && parsed(b@) is Some && same_value(
            parsed(a@)->0,
            parsed(b@)->0,
        ),
        same == equivalent_texts(b@, a@),
        parsed(a@) == parsed(b@) ==> same == (parsed(a@) is Some),
        parsed(a@) is None || parsed(b@) is None ==> !same,
        same ==> forall|c: Seq<char>| #[trigger]
            equivalent_texts(b@, c) == #[trigger] equivalent_texts(a@, c),
{
    equivalent_values(&parse(a), &parse(b))
}

/// Two texts are equivalent exactly where both parse and `==` takes the two values to be equal: no
/// text is left out, and nothing else about the texts counts.
pub proof fn law_equivalent_iff_equal_values(a: Seq<char>, b: Seq<char>)
    ensures
        parsed(a) is None || parsed(b) is None ==> !equivalent_texts(a, b),
        parsed(a) is Some && parsed(b) is Some ==> equivalent_texts(a, b) == same_value(
            parsed(a)->0,
            parsed(b)->0,
        ),
{
}

/// Texts that parse to the same result are equivalent to the same texts.
pub proof fn law_only_the_values_count(a: Seq<char>, b: Seq<char>, c: Seq<char>)
    requires
        parsed(a) == parsed(b),
    ensures
        equivalent_texts(a, c) == equivalent_texts(b, c),
        equivalent_texts(c, a) == equivalent_texts(c, b),
{
}

} // verus!
