//! Size-and-shape summaries of JSON payloads, used where governance hooks
//! must see the footprint of a tool call without its content.

use crate::json::{
    json_view, lemma_member_views_of_index, lemma_views_of_index, member_views_of, views_of,
    JsonValue, JsonView,
};
use crate::text::{decimal_spec, decimal_text};
use vstd::prelude::*;

verus! {

/// Most object members summarized per object.
pub const MAX_FIELDS: usize = 8;

/// Most array elements summarized per array.
pub const MAX_ITEMS: usize = 5;

/// Deepest level that is summarized; deeper values are marked truncated.
pub const MAX_DEPTH: usize = 3;

/// A JSON number holding `n`.
pub open spec fn num_view(n: nat) -> JsonView {
    JsonView::Number(decimal_spec(n))
}

/// `{"kind": k}`.
pub open spec fn kind_only(k: Seq<char>) -> JsonView {
    JsonView::Object(seq![("kind"@, JsonView::Str(k))])
}

/// The smaller of two naturals.
pub open spec fn min_nat(a: nat, b: nat) -> nat {
    if a < b {
        a
    } else {
        b
    }
}

/// Summaries of the first `n` elements of `a`.
pub open spec fn summary_seq(a: Seq<JsonView>, n: nat, depth: nat) -> Seq<JsonView>
    decreases a, 1nat, n,
{
    if n == 0 || n > a.len() {
        Seq::empty()
    } else {
        summary_seq(a, (n - 1) as nat, depth).push(summary_view(a[n - 1], depth))
    }
}

/// Summaries of the first `n` members of `m`, keys kept.
pub open spec fn summary_members(m: Seq<(Seq<char>, JsonView)>, n: nat, depth: nat) -> Seq<
    (Seq<char>, JsonView),
>
    decreases m, 1nat, n,
{
    if n == 0 || n > m.len() {
        Seq::empty()
    } else {
        summary_members(m, (n - 1) as nat, depth).push((m[n - 1].0, summary_view(m[n - 1].1, depth)))
    }
}

/// Summary of a value found at nesting `depth`: its kind, and for strings
/// the character count, for arrays the length and summaries of the first
/// five elements, for objects the member count and summaries of the first
/// eight members; below depth three only a truncation marker.
pub open spec fn summary_view(v: JsonView, depth: nat) -> JsonView
    decreases v, 0nat, 0nat,
{
    if depth > MAX_DEPTH {
        JsonView::Object(
            seq![
                ("kind"@, JsonView::Str("truncated"@)),
                ("reason"@, JsonView::Str("max_depth_exceeded"@)),
            ],
        )
    } else {
        match v {
            JsonView::Null => kind_only("null"@),
            JsonView::Bool(_) => kind_only("boolean"@),
            JsonView::Number(_) => kind_only("number"@),
            JsonView::Str(s) => JsonView::Object(
                seq![("kind"@, JsonView::Str("string"@)), ("length"@, num_view(s.len()))],
            ),
            JsonView::Array(a) => JsonView::Object(
                seq![
                    ("kind"@, JsonView::Str("array"@)),
                    ("length"@, num_view(a.len())),
                    ("sample"@, JsonView::Array(summary_seq(a, min_nat(a.len(), MAX_ITEMS as nat), depth + 1))),
                ],
            ),
            JsonView::Object(m) => JsonView::Object(
                seq![
                    ("field_count"@, num_view(m.len())),
                    ("fields"@, JsonView::Object(summary_members(m, min_nat(m.len(), MAX_FIELDS as nat), depth + 1))),
                    ("kind"@, JsonView::Str("object"@)),
                ],
            ),
        }
    }
}

proof fn lemma_summary_seq_index(a: Seq<JsonView>, n: nat, depth: nat)
    requires
        n <= a.len(),
    ensures
        summary_seq(a, n, depth).len() == n,
        forall|i: int| 0 <= i < n ==> #[trigger] summary_seq(a, n, depth)[i] == summary_view(a[i], depth),
    decreases n,
{
    if n > 0 {
        lemma_summary_seq_index(a, (n - 1) as nat, depth);
    }
}

proof fn lemma_summary_members_index(m: Seq<(Seq<char>, JsonView)>, n: nat, depth: nat)
    requires
        n <= m.len(),
    ensures
        summary_members(m, n, depth).len() == n,
        forall|i: int|
            0 <= i < n ==> #[trigger] summary_members(m, n, depth)[i] == (m[i].0, summary_view(m[i].1, depth)),
    decreases n,
{
    if n > 0 {
        lemma_summary_members_index(m, (n - 1) as nat, depth);
    }
}

/// What a summary says of a value found at nesting `depth` (at most 3):
/// its kind; for a string, its full character count; for an array, its full
/// length (however many elements are sampled) and the summaries, one level
/// deeper, of its first five elements (all of them when fewer); for an
/// object, its full member count and, under their keys and in order, the
/// summaries of its first eight members. Below depth 3 a value is only
/// marked truncated.
pub proof fn lemma_summary_footprint(v: JsonView, depth: nat)
    ensures
        depth > 3 ==> summary_view(v, depth) == JsonView::Object(
            seq![("kind"@, JsonView::Str("truncated"@)), ("reason"@, JsonView::Str("max_depth_exceeded"@))],
        ),
        depth <= 3 && v is Null ==> summary_view(v, depth) == JsonView::Object(seq![("kind"@, JsonView::Str("null"@))]),
        depth <= 3 && v is Bool ==> summary_view(v, depth) == JsonView::Object(
            seq![("kind"@, JsonView::Str("boolean"@))],
        ),
        depth <= 3 && v is Number ==> summary_view(v, depth) == JsonView::Object(
            seq![("kind"@, JsonView::Str("number"@))],
        ),
        depth <= 3 && v is Str ==> summary_view(v, depth) == JsonView::Object(
            seq![("kind"@, JsonView::Str("string"@)), ("length"@, JsonView::Number(decimal_spec(v->Str_0.len())))],
        ),
        depth <= 3 && v is Array ==> ({
            let ms = summary_view(v, depth)->Object_0;
            let sample = ms[2].1->Array_0;
            &&& summary_view(v, depth) is Object
            &&& ms.len() == 3
            &&& ms[0] == ("kind"@, JsonView::Str("array"@))
            &&& ms[1] == ("length"@, JsonView::Number(decimal_spec(v->Array_0.len())))
            &&& ms[2].0 == "sample"@
            &&& ms[2].1 is Array
            &&& sample.len() == (if v->Array_0.len() < 5 { v->Array_0.len() } else { 5 })
            &&& forall|i: int| 0 <= i < sample.len() ==> #[trigger] sample[i] == summary_view(v->Array_0[i], depth + 1)
        }),
        depth <= 3 && v is Object ==> ({
            let ms = summary_view(v, depth)->Object_0;
            let fields = ms[1].1->Object_0;
            &&& summary_view(v, depth) is Object
            &&& ms.len() == 3
            &&& ms[0] == ("field_count"@, JsonView::Number(decimal_spec(v->Object_0.len())))
            &&& ms[1].0 == "fields"@
            &&& ms[1].1 is Object
            &&& ms[2] == ("kind"@, JsonView::Str("object"@))
            &&& fields.len() == (if v->Object_0.len() < 8 { v->Object_0.len() } else { 8 })
            &&& forall|i: int| 0 <= i < fields.len() ==> (#[trigger] fields[i]).0 == v->Object_0[i].0
                && fields[i].1 == summary_view(v->Object_0[i].1, depth + 1)
        }),
{
    if depth <= MAX_DEPTH {
        match v {
            JsonView::Array(a) => lemma_summary_seq_index(a, min_nat(a.len(), MAX_ITEMS as nat), depth + 1),
            JsonView::Object(m) => lemma_summary_members_index(m, min_nat(m.len(), MAX_FIELDS as nat), depth + 1),
            _ => {},
        }
    }
}

pub(crate) fn text(s: &str) -> (r: JsonValue)
    ensures
        r@ == JsonView::Str(s@),
{
    JsonValue::String(s.to_owned())
}

pub(crate) fn number(n: usize) -> (r: JsonValue)
    ensures
        r@ == num_view(n as nat),
{
    JsonValue::Number(decimal_text(n as u64))
}

pub(crate) fn member(k: &str, v: JsonValue) -> (r: (String, JsonValue))
    ensures
        r.0@ == k@,
        r.1 == v,
{
    (k.to_owned(), v)
}

fn kind_object(k: &str) -> (r: JsonValue)
    ensures
        r@ == kind_only(k@),
{
    let v = vec![member("kind", text(k))];
    assert(member_views_of(v@) =~= seq![("kind"@, JsonView::Str(k@))]) by {
        lemma_member_views_of_index(v@);
    }
    JsonValue::Object(v)
}

pub(crate) fn char_count(s: &String) -> (r: usize)
    ensures
        r == s@.len(),
{
    let c = crate::text::chars_of(s.as_str());
    c.len()
}

fn summarize_array(items: &Vec<JsonValue>, depth: usize) -> (r: JsonValue)
    requires
        depth <= MAX_DEPTH,
    ensures
        r@ == summary_view(JsonView::Array(views_of(items@)), depth as nat),
    decreases items, 0nat,
{
    let total = items.len();
    let n = if total < MAX_ITEMS { total } else { MAX_ITEMS };
    let ghost av = views_of(items@);
    proof {
        lemma_views_of_index(items@);
    }
    let mut sample: Vec<JsonValue> = Vec::new();
    for i in 0..n
        invariant
            n <= total,
            total == items@.len(),
            av == views_of(items@),
            av.len() == total,
            forall|k: int| 0 <= k < total ==> #[trigger] av[k] == json_view(items@[k]),
            depth <= MAX_DEPTH,
            sample@.len() == i,
            forall|k: int|
                0 <= k < i ==> #[trigger] json_view(sample@[k]) == summary_view(
                    av[k],
                    (depth + 1) as nat,
                ),
    {
        proof {
            assert(decreases_to!(items => items@));
            assert(decreases_to!(items@ => items@[i as int]));
        }
        let s = summarize_json_footprint(&items[i], depth + 1);
        sample.push(s);
    }
    let ghost ss = summary_seq(av, min_nat(av.len(), MAX_ITEMS as nat), (depth + 1) as nat);
    proof {
        lemma_views_of_index(sample@);
        lemma_summary_seq_index(av, n as nat, (depth + 1) as nat);
        assert(views_of(sample@) =~= ss);
    }
    let v = vec![
        member("kind", text("array")),
        member("length", number(total)),
        member("sample", JsonValue::Array(sample)),
    ];
    proof {
        lemma_member_views_of_index(v@);
        assert(member_views_of(v@) =~= seq![
            ("kind"@, JsonView::Str("array"@)),
            ("length"@, num_view(av.len())),
            ("sample"@, JsonView::Array(ss)),
        ]);
    }
    JsonValue::Object(v)
}

fn summarize_object(map: &Vec<(String, JsonValue)>, depth: usize) -> (r: JsonValue)
    requires
        depth <= MAX_DEPTH,
    ensures
        r@ == summary_view(JsonView::Object(member_views_of(map@)), depth as nat),
    decreases map, 0nat,
{
    let total = map.len();
    let n = if total < MAX_FIELDS { total } else { MAX_FIELDS };
    let ghost mv = member_views_of(map@);
    proof {
        lemma_member_views_of_index(map@);
    }
    let mut fields: Vec<(String, JsonValue)> = Vec::new();
    for i in 0..n
        invariant
            n <= total,
            total == map@.len(),
            mv == member_views_of(map@),
            mv.len() == total,
            forall|k: int|
                0 <= k < total ==> #[trigger] mv[k] == (map@[k].0@, json_view(map@[k].1)),
            depth <= MAX_DEPTH,
            fields@.len() == i,
            forall|k: int|
                0 <= k < i ==> (#[trigger] fields@[k]).0@ == mv[k].0 && json_view(fields@[k].1)
                    == summary_view(mv[k].1, (depth + 1) as nat),
    {
        proof {
            assert(decreases_to!(map => map@));
            assert(decreases_to!(map@ => map@[i as int]));
            assert(decreases_to!(map@[i as int] => map@[i as int].1));
        }
        let s = summarize_json_footprint(&map[i].1, depth + 1);
        let k = map[i].0.clone();
        fields.push((k, s));
    }
    let ghost fs = summary_members(mv, min_nat(mv.len(), MAX_FIELDS as nat), (depth + 1) as nat);
    proof {
        lemma_member_views_of_index(fields@);
        lemma_summary_members_index(mv, n as nat, (depth + 1) as nat);
        assert(member_views_of(fields@) =~= fs);
    }
    let v = vec![
        member("field_count", number(total)),
        member("fields", JsonValue::Object(fields)),
        member("kind", text("object")),
    ];
    proof {
        lemma_member_views_of_index(v@);
        assert(member_views_of(v@) =~= seq![
            ("field_count"@, num_view(mv.len())),
            ("fields"@, JsonView::Object(fs)),
            ("kind"@, JsonView::Str("object"@)),
        ]);
    }
    JsonValue::Object(v)
}

/// Summarizes a payload found at nesting `depth` (see [`summary_view`]).
pub fn summarize_json_footprint(payload: &JsonValue, depth: usize) -> (r: JsonValue)
    ensures
        r@ == summary_view(payload@, depth as nat),
    decreases payload, 1nat,
{
    if depth > MAX_DEPTH {
        let v = vec![member("kind", text("truncated")), member("reason", text("max_depth_exceeded"))];
        proof {
            lemma_member_views_of_index(v@);
            assert(member_views_of(v@) =~= seq![
                ("kind"@, JsonView::Str("truncated"@)),
                ("reason"@, JsonView::Str("max_depth_exceeded"@)),
            ]);
        }
        return JsonValue::Object(v);
    }
    match payload {
        JsonValue::Null => kind_object("null"),
        JsonValue::Bool(_) => kind_object("boolean"),
        JsonValue::Number(_) => kind_object("number"),
        JsonValue::String(s) => {
            let v = vec![member("kind", text("string")), member("length", number(char_count(s)))];
            proof {
                lemma_member_views_of_index(v@);
                assert(member_views_of(v@) =~= seq![
                    ("kind"@, JsonView::Str("string"@)),
                    ("length"@, num_view(s@.len())),
                ]);
            }
            JsonValue::Object(v)
        },
        JsonValue::Array(items) => {
            proof {
                assert(decreases_to!(payload => items));
            }
            summarize_array(items, depth)
        },
        JsonValue::Object(map) => {
            proof {
                assert(decreases_to!(payload => map));
            }
            summarize_object(map, depth)
        },
    }
}

} // verus!

verus! {

/// Whether two JSON values have the same shape: the same kinds, object
/// keys, array and object sizes and string lengths, whatever their leaf
/// values.
pub open spec fn same_shape(a: JsonView, b: JsonView) -> bool
    decreases a,
{
    match (a, b) {
        (JsonView::Null, JsonView::Null) => true,
        (JsonView::Bool(_), JsonView::Bool(_)) => true,
        (JsonView::Number(_), JsonView::Number(_)) => true,
        (JsonView::Str(x), JsonView::Str(y)) => x.len() == y.len(),
        (JsonView::Array(xs), JsonView::Array(ys)) => xs.len() == ys.len() && forall|i: int|
            0 <= i < xs.len() ==> same_shape(#[trigger] xs[i], ys[i]),
        (JsonView::Object(ms), JsonView::Object(ns)) => ms.len() == ns.len() && forall|i: int|
            0 <= i < ms.len() ==> (#[trigger] ms[i]).0 == ns[i].0 && same_shape(ms[i].1, ns[i].1),
        _ => false,
    }
}

/// A summary depends on a value only through its shape: values of the
/// same shape have the same summary at every depth.
pub proof fn lemma_summary_depends_on_shape(a: JsonView, b: JsonView, depth: nat)
    requires
        same_shape(a, b),
    ensures
        summary_view(a, depth) == summary_view(b, depth),
    decreases a,
{
    if depth <= MAX_DEPTH {
        match (a, b) {
            (JsonView::Array(xs), JsonView::Array(ys)) => {
                let n = min_nat(xs.len(), MAX_ITEMS as nat);
                lemma_summary_seq_index(xs, n, depth + 1);
                lemma_summary_seq_index(ys, n, depth + 1);
                assert forall|i: int| 0 <= i < n implies summary_view(xs[i], depth + 1) == summary_view(
                    ys[i],
                    depth + 1,
                ) by {
                    assert(same_shape(xs[i], ys[i]));
                    lemma_summary_depends_on_shape(xs[i], ys[i], depth + 1);
                }
                assert(summary_seq(xs, n, depth + 1) =~= summary_seq(ys, n, depth + 1));
            },
            (JsonView::Object(ms), JsonView::Object(ns)) => {
                let n = min_nat(ms.len(), MAX_FIELDS as nat);
                lemma_summary_members_index(ms, n, depth + 1);
                lemma_summary_members_index(ns, n, depth + 1);
                assert forall|i: int| 0 <= i < n implies summary_view(ms[i].1, depth + 1) == summary_view(
                    ns[i].1,
                    depth + 1,
                ) by {
                    assert(ms[i].0 == ns[i].0 && same_shape(ms[i].1, ns[i].1));
                    lemma_summary_depends_on_shape(ms[i].1, ns[i].1, depth + 1);
                }
                assert(summary_members(ms, n, depth + 1) =~= summary_members(ns, n, depth + 1));
            },
            _ => {},
        }
    }
}

} // verus!
