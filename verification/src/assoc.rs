//! String-keyed association lists kept in ascending key order with unique
//! keys: the shape in which ordered maps (`BTreeMap<String, _>`, JSON
//! objects) iterate.

use vstd::prelude::*;

verus! {

/// Lexicographic order on character sequences by code point, which for
/// UTF-8 text is the byte order that `String`'s `Ord` uses.
pub open spec fn key_lt(a: Seq<char>, b: Seq<char>) -> bool
    decreases a.len(),
{
    if a.len() == 0 {
        b.len() > 0
    } else if b.len() == 0 {
        false
    } else if a[0] != b[0] {
        (a[0] as int) < (b[0] as int)
    } else {
        key_lt(a.drop_first(), b.drop_first())
    }
}

/// `key_lt` is irreflexive.
pub proof fn lemma_key_lt_irreflexive(a: Seq<char>)
    ensures
        !key_lt(a, a),
    decreases a.len(),
{
    if a.len() > 0 {
        lemma_key_lt_irreflexive(a.drop_first());
    }
}

/// `key_lt` is transitive.
pub proof fn lemma_key_lt_transitive(a: Seq<char>, b: Seq<char>, c: Seq<char>)
    requires
        key_lt(a, b),
        key_lt(b, c),
    ensures
        key_lt(a, c),
    decreases a.len(),
{
    if a.len() > 0 && b.len() > 0 && c.len() > 0 && a[0] == b[0] && b[0] == c[0] {
        lemma_key_lt_transitive(a.drop_first(), b.drop_first(), c.drop_first());
    }
}

/// `key_lt` is total on distinct sequences.
pub proof fn lemma_key_lt_total(a: Seq<char>, b: Seq<char>)
    requires
        a != b,
    ensures
        key_lt(a, b) || key_lt(b, a),
    decreases a.len(),
{
    if a.len() > 0 && b.len() > 0 {
        if a[0] == b[0] {
            if a.drop_first() == b.drop_first() {
                assert(a =~= seq![a[0]] + a.drop_first());
                assert(b =~= seq![b[0]] + b.drop_first());
            }
            lemma_key_lt_total(a.drop_first(), b.drop_first());
        }
    } else if a.len() == 0 && b.len() == 0 {
        assert(a =~= b);
    }
}

/// Decides `key_lt` on two character slices.
pub fn chars_lt(a: &[char], b: &[char]) -> (r: bool)
    ensures
        r == key_lt(a@, b@),
{
    let mut i: usize = 0;
    assert(a@.skip(0) =~= a@);
    assert(b@.skip(0) =~= b@);
    while i < a.len() && i < b.len() && a[i] == b[i]
        invariant
            i <= a@.len(),
            i <= b@.len(),
            key_lt(a@, b@) == key_lt(a@.skip(i as int), b@.skip(i as int)),
        decreases a@.len() - i,
    {
        assert(a@.skip(i as int).drop_first() =~= a@.skip(i + 1));
        assert(b@.skip(i as int).drop_first() =~= b@.skip(i + 1));
        i = i + 1;
    }
    if i == a.len() {
        i < b.len()
    } else if i == b.len() {
        false
    } else {
        assert(a@.skip(i as int)[0] == a@[i as int]);
        assert(b@.skip(i as int)[0] == b@[i as int]);
        a[i] < b[i]
    }
}

/// The keys of an association list, as character sequences.
pub open spec fn keys_of<V>(s: Seq<(String, V)>) -> Seq<Seq<char>> {
    s.map_values(|p: (String, V)| p.0@)
}

/// Keys strictly ascending (hence unique).
pub open spec fn keys_sorted(k: Seq<Seq<char>>) -> bool {
    forall|i: int, j: int| 0 <= i < j < k.len() ==> key_lt(#[trigger] k[i], #[trigger] k[j])
}

/// Whether `key` occurs among the keys.
pub open spec fn has_key<V>(s: Seq<(String, V)>, key: Seq<char>) -> bool {
    exists|i: int| 0 <= i < s.len() && #[trigger] s[i].0@ == key
}

fn entry_key_lt<V>(list: &Vec<(String, V)>, p: usize, key: &[char]) -> (r: bool)
    requires
        p < list@.len(),
    ensures
        r == key_lt(list@[p as int].0@, key@),
{
    let pc = crate::text::chars_of(list[p].0.as_str());
    chars_lt(pc.as_slice(), key)
}

/// Inserts `(key, value)` keeping keys ascending; an existing entry with the
/// same key has its value replaced, in place.
pub fn insert_sorted<V>(list: &mut Vec<(String, V)>, key: String, value: V)
    requires
        keys_sorted(keys_of(old(list)@)),
    ensures
        keys_sorted(keys_of(final(list)@)),
        has_key(old(list)@, key@) ==> exists|p: int|
            0 <= p < old(list)@.len() && old(list)@[p].0@ == key@ && final(list)@ == old(
                list,
            )@.update(p, (key, value)),
        !has_key(old(list)@, key@) ==> exists|p: int|
            0 <= p <= old(list)@.len() && final(list)@ == old(list)@.insert(p, (key, value)) && (
            forall|i: int| 0 <= i < p ==> key_lt(#[trigger] old(list)@[i].0@, key@)) && (forall|
                i: int,
            |
                p <= i < old(list)@.len() ==> key_lt(key@, #[trigger] old(list)@[i].0@)),
{
    let ghost old_list = list@;
    let kc = crate::text::chars_of(key.as_str());
    let n = list.len();
    let mut p: usize = 0;
    while p < n && entry_key_lt(list, p, kc.as_slice())
        invariant
            n == list@.len(),
            list@ == old_list,
            kc@ == key@,
            p <= n,
            forall|i: int| 0 <= i < p ==> key_lt(#[trigger] list@[i].0@, key@),
        decreases n - p,
    {
        p = p + 1;
    }
    proof {
        assert(keys_of(old_list).len() == old_list.len());
        assert forall|i: int| 0 <= i < old_list.len() implies #[trigger] keys_of(old_list)[i]
            == old_list[i].0@ by {}
    }
    if p < n {
        let pc = crate::text::chars_of(list[p].0.as_str());
        if crate::text::chars_eq(pc.as_slice(), kc.as_slice()) {
            list.set(p, (key, value));
            proof {
                let nl = list@;
                assert(keys_of(nl) =~= keys_of(old_list));
                assert(has_key(old_list, kc@));
            }
            return ;
        }
        proof {
            lemma_key_lt_total(old_list[p as int].0@, kc@);
            assert(key_lt(kc@, old_list[p as int].0@));
            assert forall|i: int| p <= i < old_list.len() implies key_lt(
                kc@,
                #[trigger] old_list[i].0@,
            ) by {
                if i > p {
                    assert(key_lt(keys_of(old_list)[p as int], keys_of(old_list)[i]));
                    lemma_key_lt_transitive(kc@, old_list[p as int].0@, old_list[i].0@);
                }
            }
        }
    }
    list.insert(p, (key, value));
    proof {
        let nl = list@;
        assert(nl =~= old_list.insert(p as int, (key, value)));
        assert forall|i: int| 0 <= i < old_list.len() implies #[trigger] old_list[i].0@ != kc@ by {
            if i < p {
                lemma_key_lt_irreflexive(kc@);
            } else {
                lemma_key_lt_irreflexive(kc@);
            }
        }
        assert(!has_key(old_list, kc@));
        let nk = keys_of(nl);
        assert forall|i: int, j: int| 0 <= i < j < nk.len() implies key_lt(
            #[trigger] nk[i],
            #[trigger] nk[j],
        ) by {
            let ok = keys_of(old_list);
            if j < p {
                assert(nk[i] == ok[i] && nk[j] == ok[j]);
            } else if j == p {
                assert(nk[i] == ok[i]);
            } else if i < p {
                assert(nk[i] == ok[i] && nk[j] == ok[j - 1]);
                lemma_key_lt_transitive(ok[i], kc@, ok[j - 1]);
            } else if i == p {
                assert(nk[j] == ok[j - 1]);
            } else {
                assert(nk[i] == ok[i - 1] && nk[j] == ok[j - 1]);
            }
        }
    }
}

} // verus!

verus! {

/// The value that the last pair with key `k` carries, if any: what a map
/// filled by inserting the pairs in order holds for `k`.
pub open spec fn last_value(s: Seq<(String, String)>, k: Seq<char>) -> Option<Seq<char>>
    decreases s.len(),
{
    if s.len() == 0 {
        None
    } else if s.last().0@ == k {
        Some(s.last().1@)
    } else {
        last_value(s.drop_last(), k)
    }
}

/// `last_value` finds the pair at the largest index with key `k`.
pub proof fn lemma_last_value_index(s: Seq<(String, String)>, k: Seq<char>)
    ensures
        last_value(s, k) is None <==> !has_key(s, k),
        forall|i: int|
            0 <= i < s.len() && #[trigger] s[i].0@ == k && (forall|j: int|
                i < j < s.len() ==> s[j].0@ != k) ==> last_value(s, k) == Some(s[i].1@),
    decreases s.len(),
{
    if s.len() > 0 {
        let t = s.drop_last();
        lemma_last_value_index(t, k);
        if s.last().0@ != k {
            assert forall|i: int| 0 <= i < t.len() && #[trigger] t[i].0@ == k implies s[i].0@
                == k by {}
            if has_key(s, k) {
                let i = choose|i: int| 0 <= i < s.len() && #[trigger] s[i].0@ == k;
                assert(t[i].0@ == k);
            }
            assert forall|i: int|
                0 <= i < s.len() && #[trigger] s[i].0@ == k && (forall|j: int|
                    i < j < s.len() ==> s[j].0@ != k) implies last_value(s, k) == Some(
                s[i].1@,
            ) by {
                assert(t[i].0@ == k);
                assert forall|j: int| i < j < t.len() implies t[j].0@ != k by {
                    assert(s[j].0@ != k);
                }
            }
        } else {
            assert(s[s.len() - 1].0@ == k);
        }
    }
}

/// In a list with ascending keys, `last_value` is the value of the one entry
/// with that key.
pub proof fn lemma_sorted_last_value(s: Seq<(String, String)>, i: int)
    requires
        keys_sorted(keys_of(s)),
        0 <= i < s.len(),
    ensures
        last_value(s, s[i].0@) == Some(s[i].1@),
{
    lemma_last_value_index(s, s[i].0@);
    assert forall|j: int| i < j < s.len() implies s[j].0@ != s[i].0@ by {
        assert(keys_of(s)[i] == s[i].0@);
        assert(keys_of(s)[j] == s[j].0@);
        lemma_key_lt_irreflexive(s[i].0@);
    }
}

/// Replacing the value of the entry at `p` in a key-ascending list changes
/// what the list maps that key to and nothing else.
proof fn lemma_update_last_value(
    before: Seq<(String, String)>,
    after: Seq<(String, String)>,
    key: String,
    value: String,
    p: int,
    k: Seq<char>,
)
    requires
        keys_sorted(keys_of(before)),
        keys_sorted(keys_of(after)),
        0 <= p < before.len(),
        before[p].0@ == key@,
        after == before.update(p, (key, value)),
    ensures
        last_value(after, k) == (if k == key@ {
            Some(value@)
        } else {
            last_value(before, k)
        }),
{
    lemma_last_value_index(before, k);
    lemma_last_value_index(after, k);
    if k == key@ {
        lemma_sorted_last_value(after, p);
    } else if has_key(before, k) {
        let j = choose|j: int| 0 <= j < before.len() && #[trigger] before[j].0@ == k;
        lemma_sorted_last_value(before, j);
        assert(after[j] == before[j]);
        lemma_sorted_last_value(after, j);
    } else if has_key(after, k) {
        let j = choose|j: int| 0 <= j < after.len() && #[trigger] after[j].0@ == k;
        assert(before[j].0@ == k);
    }
}

/// Inserting a new entry at `p` in a key-ascending list maps its key to its
/// value and leaves every other key as before.
proof fn lemma_insert_last_value(
    before: Seq<(String, String)>,
    after: Seq<(String, String)>,
    key: String,
    value: String,
    p: int,
    k: Seq<char>,
)
    requires
        keys_sorted(keys_of(before)),
        keys_sorted(keys_of(after)),
        0 <= p <= before.len(),
        after == before.insert(p, (key, value)),
    ensures
        last_value(after, k) == (if k == key@ {
            Some(value@)
        } else {
            last_value(before, k)
        }),
{
    lemma_last_value_index(before, k);
    lemma_last_value_index(after, k);
    if k == key@ {
        assert(after[p].0@ == key@);
        lemma_sorted_last_value(after, p);
    } else if has_key(before, k) {
        let j = choose|j: int| 0 <= j < before.len() && #[trigger] before[j].0@ == k;
        lemma_sorted_last_value(before, j);
        if j < p {
            assert(after[j] == before[j]);
            lemma_sorted_last_value(after, j);
        } else {
            assert(after[j + 1] == before[j]);
            lemma_sorted_last_value(after, j + 1);
        }
    } else if has_key(after, k) {
        let j = choose|j: int| 0 <= j < after.len() && #[trigger] after[j].0@ == k;
        if j < p {
            assert(before[j].0@ == k);
        } else if j > p {
            assert(before[j - 1].0@ == k);
        }
    }
}

/// After an `insert_sorted` of `(key, value)`, the list maps `key` to
/// `value` and every other key as before.
pub proof fn lemma_insert_sorted_last_value(
    before: Seq<(String, String)>,
    after: Seq<(String, String)>,
    key: String,
    value: String,
)
    requires
        keys_sorted(keys_of(before)),
        keys_sorted(keys_of(after)),
        has_key(before, key@) ==> exists|p: int|
            0 <= p < before.len() && before[p].0@ == key@ && after == before.update(
                p,
                (key, value),
            ),
        !has_key(before, key@) ==> exists|p: int|
            0 <= p <= before.len() && after == before.insert(p, (key, value)) && (forall|i: int|
                0 <= i < p ==> key_lt(#[trigger] before[i].0@, key@)) && (forall|i: int|
                p <= i < before.len() ==> key_lt(key@, #[trigger] before[i].0@)),
    ensures
        forall|k: Seq<char>|
            #[trigger] last_value(after, k) == (if k == key@ {
                Some(value@)
            } else {
                last_value(before, k)
            }),
{
    if has_key(before, key@) {
        let p = choose|p: int|
            0 <= p < before.len() && before[p].0@ == key@ && after == before.update(
                p,
                (key, value),
            );
        assert forall|k: Seq<char>|
            #[trigger] last_value(after, k) == (if k == key@ {
                Some(value@)
            } else {
                last_value(before, k)
            }) by {
            lemma_update_last_value(before, after, key, value, p, k);
        }
    } else {
        let p = choose|p: int|
            0 <= p <= before.len() && after == before.insert(p, (key, value)) && (forall|i: int|
                0 <= i < p ==> key_lt(#[trigger] before[i].0@, key@)) && (forall|i: int|
                p <= i < before.len() ==> key_lt(key@, #[trigger] before[i].0@));
        assert forall|k: Seq<char>|
            #[trigger] last_value(after, k) == (if k == key@ {
                Some(value@)
            } else {
                last_value(before, k)
            }) by {
            lemma_insert_last_value(before, after, key, value, p, k);
        }
    }
}

/// Builds an ascending-key list from pairs, a later pair replacing the value
/// of an earlier one with the same key, as collecting into a `BTreeMap`
/// does.
pub fn sorted_from_pairs(pairs: Vec<(String, String)>) -> (r: Vec<(String, String)>)
    ensures
        keys_sorted(keys_of(r@)),
        forall|k: Seq<char>| #[trigger] last_value(r@, k) == last_value(pairs@, k),
{
    let mut r: Vec<(String, String)> = Vec::new();
    let n = pairs.len();
    assert(keys_of(r@) =~= Seq::<Seq<char>>::empty());
    for i in 0..n
        invariant
            n == pairs@.len(),
            keys_sorted(keys_of(r@)),
            forall|k: Seq<char>| #[trigger] last_value(r@, k) == last_value(pairs@.take(i as int), k),
    {
        let key = pairs[i].0.clone();
        let value = pairs[i].1.clone();
        let ghost before = r@;
        insert_sorted(&mut r, key, value);
        proof {
            lemma_insert_sorted_last_value(before, r@, key, value);
            assert(pairs@.take(i + 1).drop_last() =~= pairs@.take(i as int));
            assert(pairs@.take(i + 1).last() == pairs@[i as int]);
            assert forall|k: Seq<char>| #[trigger] last_value(r@, k) == last_value(
                pairs@.take(i + 1),
                k,
            ) by {}
        }
    }
    assert(pairs@.take(n as int) =~= pairs@);
    r
}

} // verus!
