//! JSON document model used for tool schemas, call parameters and results.
//!
//! Object members are held in ascending key order with unique keys, the
//! order in which `serde_json`'s default map iterates; numbers are held as
//! their JSON text.

use vstd::prelude::*;

verus! {

/// A JSON value.
#[derive(Debug, PartialEq, Eq)]
pub enum JsonValue {
    /// `null`.
    Null,
    /// `true` or `false`.
    Bool(bool),
    /// A number, as its JSON text.
    Number(String),
    /// A string.
    String(String),
    /// An array.
    Array(Vec<JsonValue>),
    /// An object: its members, in order; a lookup by key finds the first
    /// member with that key.
    Object(Vec<(String, JsonValue)>),
}

/// Abstract JSON value.
pub enum JsonView {
    /// `null`.
    Null,
    /// A boolean.
    Bool(bool),
    /// A number, as its JSON text.
    Number(Seq<char>),
    /// A string.
    Str(Seq<char>),
    /// An array.
    Array(Seq<JsonView>),
    /// An object's members, in order.
    Object(Seq<(Seq<char>, JsonView)>),
}

/// Views of a sequence of values.
pub open spec fn views_of(s: Seq<JsonValue>) -> Seq<JsonView>
    decreases s, 1nat,
{
    if s.len() == 0 {
        Seq::empty()
    } else {
        views_of(s.drop_last()).push(json_view(s.last()))
    }
}

/// Views of a sequence of object members.
pub open spec fn member_views_of(s: Seq<(String, JsonValue)>) -> Seq<(Seq<char>, JsonView)>
    decreases s, 1nat,
{
    if s.len() == 0 {
        Seq::empty()
    } else {
        member_views_of(s.drop_last()).push((s.last().0@, json_view(s.last().1)))
    }
}

/// The abstract value of a JSON value.
pub open spec fn json_view(v: JsonValue) -> JsonView
    decreases v, 0nat,
{
    match v {
        JsonValue::Null => JsonView::Null,
        JsonValue::Bool(b) => JsonView::Bool(b),
        JsonValue::Number(n) => JsonView::Number(n@),
        JsonValue::String(s) => JsonView::Str(s@),
        JsonValue::Array(a) => JsonView::Array(views_of(a@)),
        JsonValue::Object(m) => JsonView::Object(member_views_of(m@)),
    }
}

impl View for JsonValue {
    type V = JsonView;

    open spec fn view(&self) -> JsonView {
        json_view(*self)
    }
}

} // verus!

verus! {

proof fn lemma_views_of_push(s: Seq<JsonValue>, i: int)
    requires
        0 <= i < s.len(),
    ensures
        views_of(s.take(i + 1)) == views_of(s.take(i)).push(json_view(s[i])),
{
    assert(s.take(i + 1).drop_last() =~= s.take(i));
}

proof fn lemma_member_views_of_push(s: Seq<(String, JsonValue)>, i: int)
    requires
        0 <= i < s.len(),
    ensures
        member_views_of(s.take(i + 1)) == member_views_of(s.take(i)).push(
            (s[i].0@, json_view(s[i].1)),
        ),
{
    assert(s.take(i + 1).drop_last() =~= s.take(i));
}

/// `views_of` has one view per value, in order.
pub proof fn lemma_views_of_index(s: Seq<JsonValue>)
    ensures
        views_of(s).len() == s.len(),
        forall|i: int| 0 <= i < s.len() ==> #[trigger] views_of(s)[i] == json_view(s[i]),
    decreases s.len(),
{
    if s.len() > 0 {
        lemma_views_of_index(s.drop_last());
    }
}

/// `member_views_of` has one view per member, in order.
pub proof fn lemma_member_views_of_index(s: Seq<(String, JsonValue)>)
    ensures
        member_views_of(s).len() == s.len(),
        forall|i: int|
            0 <= i < s.len() ==> #[trigger] member_views_of(s)[i] == (s[i].0@, json_view(s[i].1)),
    decreases s.len(),
{
    if s.len() > 0 {
        lemma_member_views_of_index(s.drop_last());
    }
}

impl JsonValue {
    /// A deep copy of this value.
    #[verifier::loop_isolation(false)]
    pub fn cloned(&self) -> (r: JsonValue)
        ensures
            r@ == self@,
        decreases self,
    {
        match self {
            JsonValue::Null => JsonValue::Null,
            JsonValue::Bool(b) => JsonValue::Bool(*b),
            JsonValue::Number(n) => JsonValue::Number(n.clone()),
            JsonValue::String(s) => JsonValue::String(s.clone()),
            JsonValue::Array(a) => {
                let mut out: Vec<JsonValue> = Vec::new();
                let n = a.len();
                for i in 0..n
                    invariant
                        n == a@.len(),
                        views_of(out@) == views_of(a@.take(i as int)),
                        out@.len() == i,
                {
                    proof {
                        assert(decreases_to!(self => a));
                        assert(decreases_to!(a => a@));
                        assert(decreases_to!(a@ => a@[i as int]));
                    }
                    let c = a[i].cloned();
                    let ghost before = out@;
                    out.push(c);
                    proof {
                        lemma_views_of_push(a@, i as int);
                        assert(out@.drop_last() =~= before);
                    }
                }
                assert(a@.take(n as int) =~= a@);
                JsonValue::Array(out)
            },
            JsonValue::Object(m) => {
                let mut out: Vec<(String, JsonValue)> = Vec::new();
                let n = m.len();
                for i in 0..n
                    invariant
                        n == m@.len(),
                        member_views_of(out@) == member_views_of(m@.take(i as int)),
                        out@.len() == i,
                {
                    proof {
                        assert(decreases_to!(self => m));
                        assert(decreases_to!(m => m@));
                        assert(decreases_to!(m@ => m@[i as int]));
                        assert(decreases_to!(m@[i as int] => m@[i as int].1));
                    }
                    let c = m[i].1.cloned();
                    let k = m[i].0.clone();
                    let ghost before = out@;
                    out.push((k, c));
                    proof {
                        lemma_member_views_of_push(m@, i as int);
                        assert(out@.drop_last() =~= before);
                    }
                }
                assert(m@.take(n as int) =~= m@);
                JsonValue::Object(out)
            },
        }
    }

    /// Whether this value is an object.
    pub fn is_object(&self) -> (r: bool)
        ensures
            r == (self@ is Object),
    {
        match self {
            JsonValue::Object(_) => true,
            _ => false,
        }
    }
}

} // verus!

verus! {

/// The value of the first member named `k`, if any.
pub open spec fn member_lookup(m: Seq<(Seq<char>, JsonView)>, k: Seq<char>) -> Option<JsonView>
    decreases m.len(),
{
    if m.len() == 0 {
        None
    } else if m[0].0 == k {
        Some(m[0].1)
    } else {
        member_lookup(m.drop_first(), k)
    }
}

/// Looking up a key in a value: objects only.
pub open spec fn json_get(v: JsonView, k: Seq<char>) -> Option<JsonView> {
    match v {
        JsonView::Object(m) => member_lookup(m, k),
        _ => None,
    }
}

impl JsonValue {
    /// The value of member `key` when this is an object that has one.
    #[verifier::loop_isolation(false)]
    pub fn get(&self, key: &str) -> (r: Option<&JsonValue>)
        ensures
            match r {
                Some(v) => json_get(self@, key@) == Some(v@),
                None => json_get(self@, key@) is None,
            },
    {
        match self {
            JsonValue::Object(m) => {
                let kc = crate::text::chars_of(key);
                let n = m.len();
                let mut i: usize = 0;
                let ghost mv = member_views_of(m@);
                proof {
                    lemma_member_views_of_index(m@);
                    assert(mv.skip(0) =~= mv);
                }
                while i < n
                    invariant
                        n == m@.len(),
                        i <= n,
                        member_lookup(mv, key@) == member_lookup(mv.skip(i as int), key@),
                    decreases n - i,
                {
                    let c = crate::text::chars_of(m[i].0.as_str());
                    if crate::text::chars_eq(c.as_slice(), kc.as_slice()) {
                        return Some(&m[i].1);
                    }
                    assert(mv.skip(i as int).drop_first() =~= mv.skip(i + 1));
                    i = i + 1;
                }
                None
            },
            _ => None,
        }
    }

    /// The text of a string value.
    pub fn as_str(&self) -> (r: Option<&str>)
        ensures
            match r {
                Some(s) => self@ == JsonView::Str(s@),
                None => !(self@ is Str),
            },
    {
        match self {
            JsonValue::String(s) => Some(s.as_str()),
            _ => None,
        }
    }

    /// The elements of an array value.
    pub fn as_array(&self) -> (r: Option<&Vec<JsonValue>>)
        ensures
            match r {
                Some(a) => self@ == JsonView::Array(views_of(a@)),
                None => !(self@ is Array),
            },
    {
        match self {
            JsonValue::Array(a) => Some(a),
            _ => None,
        }
    }

    /// Whether this object value has a member named `key`.
    pub fn contains_key(&self, key: &str) -> (r: bool)
        ensures
            r == (json_get(self@, key@) is Some),
    {
        self.get(key).is_some()
    }
}

} // verus!
