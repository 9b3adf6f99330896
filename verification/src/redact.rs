//! Audit payload redaction for sensitive data.
//!
//! Every string leaf of a JSON payload is replaced by `"[REDACTED]"`;
//! object keys, numbers, booleans, nulls and the shape of arrays and
//! objects are kept.

use crate::json::{
    json_view, lemma_member_views_of_index, lemma_views_of_index, member_views_of, views_of,
    JsonValue, JsonView,
};
use vstd::prelude::*;

verus! {

/// The replacement text for redacted content.
pub open spec fn redacted_text() -> Seq<char> {
    "[REDACTED]"@
}

/// Redaction of a sequence of values, element by element.
pub open spec fn redact_seq(s: Seq<JsonView>) -> Seq<JsonView>
    decreases s, 1nat,
{
    if s.len() == 0 {
        Seq::empty()
    } else {
        redact_seq(s.drop_last()).push(redact_view(s.last()))
    }
}

/// Redaction of object members, value by value, keys kept.
pub open spec fn redact_members(s: Seq<(Seq<char>, JsonView)>) -> Seq<(Seq<char>, JsonView)>
    decreases s, 1nat,
{
    if s.len() == 0 {
        Seq::empty()
    } else {
        redact_members(s.drop_last()).push((s.last().0, redact_view(s.last().1)))
    }
}

/// Redaction of a value: every string leaf becomes `"[REDACTED]"`.
pub open spec fn redact_view(v: JsonView) -> JsonView
    decreases v, 0nat,
{
    match v {
        JsonView::Str(_) => JsonView::Str(redacted_text()),
        JsonView::Array(a) => JsonView::Array(redact_seq(a)),
        JsonView::Object(m) => JsonView::Object(redact_members(m)),
        other => other,
    }
}

/// `redact_seq` maps each element.
pub proof fn lemma_redact_seq_index(s: Seq<JsonView>)
    ensures
        redact_seq(s).len() == s.len(),
        forall|i: int| 0 <= i < s.len() ==> #[trigger] redact_seq(s)[i] == redact_view(s[i]),
    decreases s.len(),
{
    if s.len() > 0 {
        lemma_redact_seq_index(s.drop_last());
    }
}

/// `redact_members` maps each member's value and keeps its key.
pub proof fn lemma_redact_members_index(s: Seq<(Seq<char>, JsonView)>)
    ensures
        redact_members(s).len() == s.len(),
        forall|i: int|
            0 <= i < s.len() ==> #[trigger] redact_members(s)[i] == (s[i].0, redact_view(s[i].1)),
    decreases s.len(),
{
    if s.len() > 0 {
        lemma_redact_members_index(s.drop_last());
    }
}

fn redacted_string() -> (r: String)
    ensures
        r@ == redacted_text(),
{
    "[REDACTED]".to_owned()
}

#[verifier::loop_isolation(false)]
fn redact_value(value: &JsonValue) -> (r: JsonValue)
    ensures
        r@ == redact_view(value@),
    decreases value,
{
    match value {
        JsonValue::String(_) => JsonValue::String(redacted_string()),
        JsonValue::Null => JsonValue::Null,
        JsonValue::Bool(b) => JsonValue::Bool(*b),
        JsonValue::Number(n) => JsonValue::Number(n.clone()),
        JsonValue::Array(a) => {
            let mut out: Vec<JsonValue> = Vec::new();
            let n = a.len();
            proof {
                lemma_views_of_index(a@);
                lemma_redact_seq_index(views_of(a@));
            }
            for i in 0..n
                invariant
                    n == a@.len(),
                    out@.len() == i,
                    forall|k: int| 0 <= k < i ==> #[trigger] json_view(out@[k]) == redact_view(
                        json_view(a@[k]),
                    ),
            {
                proof {
                    assert(decreases_to!(value => a));
                    assert(decreases_to!(a => a@));
                    assert(decreases_to!(a@ => a@[i as int]));
                }
                let c = redact_value(&a[i]);
                out.push(c);
            }
            proof {
                lemma_views_of_index(out@);
                assert(views_of(out@) =~= redact_seq(views_of(a@)));
            }
            JsonValue::Array(out)
        },
        JsonValue::Object(m) => {
            let mut out: Vec<(String, JsonValue)> = Vec::new();
            let n = m.len();
            proof {
                lemma_member_views_of_index(m@);
                lemma_redact_members_index(member_views_of(m@));
            }
            for i in 0..n
                invariant
                    n == m@.len(),
                    out@.len() == i,
                    forall|k: int|
                        0 <= k < i ==> (#[trigger] out@[k]).0@ == m@[k].0@ && json_view(out@[k].1)
                            == redact_view(json_view(m@[k].1)),
            {
                proof {
                    assert(decreases_to!(value => m));
                    assert(decreases_to!(m => m@));
                    assert(decreases_to!(m@ => m@[i as int]));
                    assert(decreases_to!(m@[i as int] => m@[i as int].1));
                }
                let c = redact_value(&m[i].1);
                let k = m[i].0.clone();
                out.push((k, c));
            }
            proof {
                lemma_member_views_of_index(out@);
                assert(member_views_of(out@) =~= redact_members(member_views_of(m@)));
            }
            JsonValue::Object(out)
        },
    }
}

/// Deep-copies a JSON value, replacing every string leaf with
/// `"[REDACTED]"`.
///
/// Object keys are preserved; only values are redacted. Arrays are
/// traversed recursively. Non-string leaves (numbers, booleans, null)
/// are preserved.
pub fn redact_parameters(params: &JsonValue) -> (r: JsonValue)
    ensures
        r@ == redact_view(params@),
        fully_redacted(r@),
        redact_view(r@) == r@,
{
    proof {
        lemma_redaction_laws(params@);
    }
    redact_value(params)
}

/// Redacts outcome content for audit persistence: all string leaves are
/// replaced with `"[REDACTED]"`.
pub fn redact_outcome_content(content: &JsonValue) -> (r: JsonValue)
    ensures
        r@ == redact_view(content@),
        fully_redacted(r@),
        redact_view(r@) == r@,
{
    proof {
        lemma_redaction_laws(content@);
    }
    redact_value(content)
}

/// Redacts a tool-call error message for audit persistence: the full error
/// text is replaced with `"[REDACTED]"`.
pub fn redact_error_message(_error: &str) -> (r: String)
    ensures
        r@ == redacted_text(),
{
    redacted_string()
}

/// Whether every string leaf of a value is `"[REDACTED]"`.
pub open spec fn fully_redacted(v: JsonView) -> bool
    decreases v,
{
    match v {
        JsonView::Str(s) => s == redacted_text(),
        JsonView::Array(a) => forall|i: int| 0 <= i < a.len() ==> fully_redacted(#[trigger] a[i]),
        JsonView::Object(m) => forall|i: int|
            0 <= i < m.len() ==> fully_redacted(#[trigger] m[i].1),
        _ => true,
    }
}

/// No string content survives redaction, redacting twice is the same as
/// redacting once, and object keys and the shape of the document are kept.
pub proof fn lemma_redaction_laws(v: JsonView)
    ensures
        fully_redacted(redact_view(v)),
        redact_view(redact_view(v)) == redact_view(v),
        v is Array ==> redact_view(v) is Array && redact_view(v)->Array_0.len() == v->Array_0.len(),
        v is Object ==> redact_view(v) is Object && redact_view(v)->Object_0.len()
            == v->Object_0.len() && forall|i: int|
            0 <= i < v->Object_0.len() ==> #[trigger] redact_view(v)->Object_0[i].0
                == v->Object_0[i].0,
    decreases v,
{
    match v {
        JsonView::Array(a) => {
            lemma_redact_seq_index(a);
            let r = redact_seq(a);
            lemma_redact_seq_index(r);
            assert forall|i: int| 0 <= i < a.len() implies fully_redacted(#[trigger] r[i])
                && redact_view(r[i]) == r[i] by {
                lemma_redaction_laws(a[i]);
            }
            assert(redact_seq(r) =~= r);
        },
        JsonView::Object(m) => {
            lemma_redact_members_index(m);
            let r = redact_members(m);
            lemma_redact_members_index(r);
            assert forall|i: int| 0 <= i < m.len() implies fully_redacted(#[trigger] r[i].1)
                && redact_view(r[i].1) == r[i].1 by {
                lemma_redaction_laws(m[i].1);
            }
            assert(redact_members(r) =~= r);
        },
        _ => {},
    }
}

/// What redaction does at each node of a document: a string becomes
/// `"[REDACTED]"`; a null, a boolean or a number is kept as it is; an
/// array keeps its length and each element is redacted in place; an object
/// keeps its members' keys in order and each member's value is redacted.
pub proof fn lemma_redaction_keeps_non_string_leaves(v: JsonView)
    ensures
        v is Str ==> redact_view(v) == JsonView::Str("[REDACTED]"@),
        v is Null ==> redact_view(v) == JsonView::Null,
        v is Bool ==> redact_view(v) == JsonView::Bool(v->Bool_0),
        v is Number ==> redact_view(v) == JsonView::Number(v->Number_0),
        v is Array ==> (redact_view(v) matches JsonView::Array(r) && r.len() == v->Array_0.len()
            && forall|i: int| 0 <= i < r.len() ==> #[trigger] r[i] == redact_view(v->Array_0[i])),
        v is Object ==> (redact_view(v) matches JsonView::Object(r) && r.len() == v->Object_0.len()
            && forall|i: int|
            0 <= i < r.len() ==> (#[trigger] r[i]).0 == v->Object_0[i].0 && r[i].1 == redact_view(
                v->Object_0[i].1,
            )),
{
    match v {
        JsonView::Array(a) => lemma_redact_seq_index(a),
        JsonView::Object(m) => lemma_redact_members_index(m),
        _ => {},
    }
}

/// Redacting twice is redacting once: what redaction gives back is left
/// unchanged by a second pass.
pub proof fn lemma_redact_twice_is_once(v: JsonView)
    ensures
        redact_view(redact_view(v)) == redact_view(v),
{
    lemma_redaction_laws(v);
}

} // verus!
