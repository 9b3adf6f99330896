//! Character-level string helpers shared by the domain validators.

use vstd::prelude::*;

verus! {

/// Unicode `White_Space` property, as used by `char::is_whitespace` and
/// `str::trim`.
pub open spec fn is_unicode_whitespace(c: char) -> bool {
    let u = c as u32;
    ||| 0x09 <= u <= 0x0d
    ||| u == 0x20
    ||| u == 0x85
    ||| u == 0xa0
    ||| u == 0x1680
    ||| 0x2000 <= u <= 0x200a
    ||| u == 0x2028
    ||| u == 0x2029
    ||| u == 0x202f
    ||| u == 0x205f
    ||| u == 0x3000
}

/// Decides [`is_unicode_whitespace`].
pub fn is_whitespace_char(c: char) -> (r: bool)
    ensures
        r == is_unicode_whitespace(c),
{
    let u = c as u32;
    (0x09 <= u && u <= 0x0d) || u == 0x20 || u == 0x85 || u == 0xa0 || u == 0x1680 || (0x2000
        <= u && u <= 0x200a) || u == 0x2028 || u == 0x2029 || u == 0x202f || u == 0x205f || u
        == 0x3000
}

/// `s` with leading whitespace removed.
pub open spec fn trim_start_spec(s: Seq<char>) -> Seq<char>
    decreases s.len(),
{
    if s.len() > 0 && is_unicode_whitespace(s[0]) {
        trim_start_spec(s.drop_first())
    } else {
        s
    }
}

/// `s` with trailing whitespace removed.
pub open spec fn trim_end_spec(s: Seq<char>) -> Seq<char>
    decreases s.len(),
{
    if s.len() > 0 && is_unicode_whitespace(s.last()) {
        trim_end_spec(s.drop_last())
    } else {
        s
    }
}

/// `s` with leading and trailing whitespace removed, as `str::trim` does.
pub open spec fn trim_spec(s: Seq<char>) -> Seq<char> {
    trim_end_spec(trim_start_spec(s))
}

/// ASCII lowercase mapping of one character, as `char::to_ascii_lowercase`.
pub open spec fn ascii_lower_char(c: char) -> char {
    if 'A' <= c <= 'Z' {
        ((c as u32) + 32) as char
    } else {
        c
    }
}

/// ASCII lowercase mapping of a string, as `str::to_ascii_lowercase`.
pub open spec fn ascii_lower_spec(s: Seq<char>) -> Seq<char> {
    s.map_values(|c: char| ascii_lower_char(c))
}

/// Appends one character to a string through `String::push`.
///
/// Trusted: the string afterwards holds its former characters followed by
/// `c`, as `String::push` documents.
#[verifier::external_body]
pub(crate) fn push_char(s: &mut String, c: char)
    ensures
        final(s)@ == old(s)@.push(c),
{
    s.push(c);
}

/// Copies the characters of `s` into a vector.
pub fn chars_of(s: &str) -> (v: Vec<char>)
    ensures
        v@ == s@,
{
    broadcast use vstd::string::group_string_axioms;

    let mut v: Vec<char> = Vec::new();
    for c in it: s.chars()
        invariant
            v@ == it.seq().take(it.index()),
            it.seq() == s@,
    {
        v.push(c);
        assert(v@ =~= it.seq().take(it.index() + 1));
    }
    assert(v@ =~= s@);
    v
}

/// Builds a string from a character slice.
pub fn string_from_chars(v: &[char]) -> (s: String)
    ensures
        s@ == v@,
{
    let mut s = String::new();
    let n = v.len();
    for i in 0..n
        invariant
            n == v@.len(),
            s@ == v@.take(i as int),
    {
        push_char(&mut s, v[i]);
        assert(v@.take(i + 1) =~= v@.take(i as int).push(v@[i as int]));
    }
    assert(v@.take(n as int) =~= v@);
    s
}

} // verus!

verus! {

/// Index of the first non-whitespace character at or after `i`, scanning
/// forward; characters in `[i, result)` are all whitespace.
proof fn lemma_trim_start_step(s: Seq<char>, i: int)
    requires
        0 <= i < s.len(),
        is_unicode_whitespace(s[i]),
    ensures
        trim_start_spec(s.subrange(i, s.len() as int)) == trim_start_spec(
            s.subrange(i + 1, s.len() as int),
        ),
{
    assert(s.subrange(i, s.len() as int).drop_first() =~= s.subrange(i + 1, s.len() as int));
}

proof fn lemma_trim_end_step(s: Seq<char>, j: int)
    requires
        0 < j <= s.len(),
        is_unicode_whitespace(s[j - 1]),
    ensures
        trim_end_spec(s.subrange(0, j)) == trim_end_spec(s.subrange(0, j - 1)),
{
    assert(s.subrange(0, j).drop_last() =~= s.subrange(0, j - 1));
}

/// Removes leading and trailing whitespace, as `str::trim` does.
pub fn trim_chars(v: &[char]) -> (r: Vec<char>)
    ensures
        r@ == trim_spec(v@),
{
    let n = v.len();
    let mut i: usize = 0;
    assert(v@.subrange(0, n as int) =~= v@);
    while i < n && is_whitespace_char(v[i])
        invariant
            n == v@.len(),
            i <= n,
            trim_start_spec(v@) == trim_start_spec(v@.subrange(i as int, n as int)),
        decreases n - i,
    {
        proof {
            lemma_trim_start_step(v@, i as int);
        }
        i = i + 1;
    }
    let ghost t = v@.subrange(i as int, n as int);
    assert(trim_start_spec(t) == t);
    let mut j: usize = n;
    while j > i && is_whitespace_char(v[j - 1])
        invariant
            n == v@.len(),
            i <= j <= n,
            t == v@.subrange(i as int, n as int),
            trim_end_spec(t) == trim_end_spec(v@.subrange(i as int, j as int)),
        decreases j - i,
    {
        proof {
            let u = v@.subrange(i as int, j as int);
            lemma_trim_end_step(u, (j - i) as int);
            assert(u.subrange(0, (j - i) as int) =~= u);
            assert(u.subrange(0, (j - i - 1) as int) =~= v@.subrange(i as int, j - 1));
        }
        j = j - 1;
    }
    let mut r: Vec<char> = Vec::new();
    let mut k = i;
    while k < j
        invariant
            n == v@.len(),
            i <= k <= j <= n,
            r@ == v@.subrange(i as int, k as int),
        decreases j - k,
    {
        r.push(v[k]);
        assert(r@ =~= v@.subrange(i as int, k + 1));
        k = k + 1;
    }
    r
}

/// Maps ASCII uppercase letters to lowercase, as `char::to_ascii_lowercase`.
pub fn ascii_lower_one(c: char) -> (r: char)
    ensures
        r == ascii_lower_char(c),
{
    if 'A' <= c && c <= 'Z' {
        let b: u8 = (c as u32 + 32) as u8;
        let r = b as char;
        assert(r == ((c as u32) + 32) as char);
        r
    } else {
        c
    }
}

/// Maps ASCII uppercase letters to lowercase, as `str::to_ascii_lowercase`.
pub fn ascii_lower_chars(v: &[char]) -> (r: Vec<char>)
    ensures
        r@ == ascii_lower_spec(v@),
{
    let mut r: Vec<char> = Vec::new();
    let n = v.len();
    for i in 0..n
        invariant
            n == v@.len(),
            r@ == ascii_lower_spec(v@.take(i as int)),
    {
        r.push(ascii_lower_one(v[i]));
        assert(r@ =~= ascii_lower_spec(v@.take(i + 1)));
    }
    assert(v@.take(n as int) =~= v@);
    r
}

/// Decides equality of two character sequences.
pub fn chars_eq(a: &[char], b: &[char]) -> (r: bool)
    ensures
        r == (a@ == b@),
{
    if a.len() != b.len() {
        return false;
    }
    let n = a.len();
    for i in 0..n
        invariant
            n == a@.len(),
            n == b@.len(),
            forall|k: int| 0 <= k < i ==> a@[k] == b@[k],
    {
        if a[i] != b[i] {
            return false;
        }
    }
    assert(a@ =~= b@);
    true
}

/// Decides whether `v` starts with `prefix`.
pub fn chars_starts_with(v: &[char], prefix: &[char]) -> (r: bool)
    ensures
        r == (prefix@.len() <= v@.len() && v@.subrange(0, prefix@.len() as int) == prefix@),
{
    if prefix.len() > v.len() {
        return false;
    }
    let n = prefix.len();
    for i in 0..n
        invariant
            n == prefix@.len(),
            n <= v@.len(),
            forall|k: int| 0 <= k < i ==> v@[k] == prefix@[k],
    {
        if v[i] != prefix[i] {
            assert(v@.subrange(0, n as int)[i as int] != prefix@[i as int]);
            return false;
        }
    }
    assert(v@.subrange(0, n as int) =~= prefix@);
    true
}

/// Appends the characters of `src` to `dst`.
pub fn push_all(dst: &mut Vec<char>, src: &[char])
    ensures
        final(dst)@ == old(dst)@ + src@,
{
    let n = src.len();
    let ghost start = dst@;
    for i in 0..n
        invariant
            n == src@.len(),
            dst@ == start + src@.take(i as int),
    {
        dst.push(src[i]);
        assert(dst@ =~= start + src@.take(i + 1));
    }
    assert(src@.take(n as int) =~= src@);
}

} // verus!

verus! {

/// A word of lowercase ASCII letters is unchanged by trimming and ASCII
/// lowercasing.
pub proof fn lemma_plain_word_normalized(x: Seq<char>)
    requires
        x.len() > 0,
        forall|i: int| 0 <= i < x.len() ==> 'a' <= #[trigger] x[i] <= 'z',
    ensures
        trim_spec(x) == x,
        ascii_lower_spec(x) == x,
{
    assert(!is_unicode_whitespace(x[0]));
    assert(trim_start_spec(x) == x);
    assert(!is_unicode_whitespace(x.last()));
    assert(trim_end_spec(x) == x);
    assert(ascii_lower_spec(x) =~= x);
}

} // verus!

verus! {

/// Decimal digit character for a value below ten.
pub open spec fn digit_char(d: nat) -> char {
    ((48 + d) as u32) as char
}

/// Decimal text of a natural number, as integers display.
pub open spec fn decimal_spec(n: nat) -> Seq<char>
    decreases n,
{
    if n < 10 {
        seq![digit_char(n)]
    } else {
        decimal_spec(n / 10).push(digit_char(n % 10))
    }
}

/// The number that a text of decimal digits stands for.
pub open spec fn digits_value(s: Seq<char>) -> nat
    decreases s.len(),
{
    if s.len() == 0 {
        0
    } else {
        digits_value(s.drop_last()) * 10 + ((s.last() as int - 48) as nat)
    }
}

/// The decimal text of `n` is a nonempty run of the digits `0` to `9`,
/// without a leading zero unless `n` is zero, that reads back as `n`.
pub proof fn lemma_decimal_reads_back(n: nat)
    ensures
        decimal_spec(n).len() > 0,
        forall|i: int| 0 <= i < decimal_spec(n).len() ==> '0' <= #[trigger] decimal_spec(n)[i] <= '9',
        n > 0 ==> decimal_spec(n)[0] != '0',
        digits_value(decimal_spec(n)) == n,
    decreases n,
{
    if n >= 10 {
        lemma_decimal_reads_back(n / 10);
        let d = decimal_spec(n);
        assert(d.drop_last() == decimal_spec(n / 10));
        assert(digit_char(n % 10) as int == 48 + n % 10);
        assert(d.last() == digit_char(n % 10));
        assert(digits_value(d) == digits_value(d.drop_last()) * 10 + ((d.last() as int - 48) as nat));
        assert(digits_value(d) == (n / 10) * 10 + n % 10);
        assert((n / 10) * 10 + n % 10 == n) by (nonlinear_arith);
        assert(d[0] == decimal_spec(n / 10)[0]);
    } else {
        let d = decimal_spec(n);
        assert(digit_char(n) as int == 48 + n);
        assert(d.drop_last().len() == 0);
        assert(digits_value(d.drop_last()) == 0);
        assert(d.last() == digit_char(n));
        assert(digits_value(d) == digits_value(d.drop_last()) * 10 + ((d.last() as int - 48) as nat));
    }
}

/// Writes the decimal text of `n`.
pub fn decimal_chars(n: u64) -> (r: Vec<char>)
    ensures
        r@ == decimal_spec(n as nat),
    decreases n,
{
    let d: u8 = (48 + n % 10) as u8;
    let c = d as char;
    if n < 10 {
        let mut v: Vec<char> = Vec::new();
        v.push(c);
        assert(v@ =~= seq![digit_char(n as nat)]);
        v
    } else {
        let mut v = decimal_chars(n / 10);
        v.push(c);
        v
    }
}

/// Writes the decimal text of `n` as a string.
pub fn decimal_text(n: u64) -> (r: String)
    ensures
        r@ == decimal_spec(n as nat),
{
    let v = decimal_chars(n);
    string_from_chars(v.as_slice())
}

} // verus!

verus! {

/// Appends the characters of `s` to `dst`.
pub fn push_str(dst: &mut Vec<char>, s: &str)
    ensures
        final(dst)@ == old(dst)@ + s@,
{
    let c = chars_of(s);
    push_all(dst, c.as_slice());
}

/// Appends the decimal text of `n` to `dst`.
pub fn push_decimal(dst: &mut Vec<char>, n: u64)
    ensures
        final(dst)@ == old(dst)@ + decimal_spec(n as nat),
{
    let c = decimal_chars(n);
    push_all(dst, c.as_slice());
}

/// Appends the hyphenated text of a UUID value to `dst`.
pub fn push_uuid(dst: &mut Vec<char>, x: u128)
    ensures
        final(dst)@ == old(dst)@ + crate::ids::uuid_text_spec(x),
{
    let c = crate::ids::uuid_text_chars(x);
    push_all(dst, c.as_slice());
}

} // verus!
