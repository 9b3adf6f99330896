//! Shell-escaping shared by worker helpers.

use crate::text::{chars_of, push_char};
use vstd::prelude::*;

verus! {

/// The escaped form of one character inside single quotes: a quote becomes
/// the four characters `'\''`, any other character stands for itself.
pub open spec fn escape_char_spec(c: char) -> Seq<char> {
    if c == '\'' {
        seq!['\'', '\\', '\'', '\'']
    } else {
        seq![c]
    }
}

/// Concatenated escaped forms of the characters of `s`.
pub open spec fn escape_body_spec(s: Seq<char>) -> Seq<char>
    decreases s.len(),
{
    if s.len() == 0 {
        Seq::empty()
    } else {
        escape_body_spec(s.drop_last()) + escape_char_spec(s.last())
    }
}

/// The number of single quotes in `s`.
pub open spec fn quote_count(s: Seq<char>) -> nat {
    s.filter(|c: char| c == '\'').len()
}

/// The escaped body is as long as the value plus three characters for each
/// quote in it.
proof fn lemma_escape_body_len(s: Seq<char>)
    ensures
        escape_body_spec(s).len() == s.len() + 3 * quote_count(s),
    decreases s.len(),
{
    reveal(Seq::filter);
    if s.len() > 0 {
        lemma_escape_body_len(s.drop_last());
    }
}

/// The escaped text of `value` is its length, plus the two enclosing quotes,
/// plus three characters for each quote in it.
pub proof fn lemma_shell_escape_length(value: Seq<char>)
    ensures
        shell_escape_spec(value).len() == value.len() + 2 + 3 * quote_count(value),
{
    lemma_escape_body_len(value);
}

/// POSIX single-quote escaping: `'` + escaped body + `'`.
pub open spec fn shell_escape_spec(s: Seq<char>) -> Seq<char> {
    seq!['\''] + escape_body_spec(s) + seq!['\'']
}

/// Escapes a value for safe inclusion in a POSIX shell command.
///
/// Uses single-quote wrapping and the standard `'\''` sequence for embedded
/// quotes.
pub fn shell_escape(value: &str) -> (escaped: String)
    ensures
        escaped@ == shell_escape_spec(value@),
        escaped@.len() == value@.len() + 2 + 3 * quote_count(value@),
{
    proof {
        lemma_shell_escape_length(value@);
    }
    let chars = chars_of(value);
    let mut escaped = String::new();
    push_char(&mut escaped, '\'');
    let n = chars.len();
    for i in 0..n
        invariant
            n == chars@.len(),
            escaped@ == seq!['\''] + escape_body_spec(chars@.take(i as int)),
    {
        let ch = chars[i];
        assert(chars@.take(i + 1).drop_last() =~= chars@.take(i as int));
        if ch == '\'' {
            push_char(&mut escaped, '\'');
            push_char(&mut escaped, '\\');
            push_char(&mut escaped, '\'');
            push_char(&mut escaped, '\'');
        } else {
            push_char(&mut escaped, ch);
        }
        assert(escaped@ =~= seq!['\''] + escape_body_spec(chars@.take(i + 1)));
    }
    assert(chars@.take(n as int) =~= chars@);
    push_char(&mut escaped, '\'');
    escaped
}

} // verus!

verus! {

/// How a POSIX shell reads a word built of single-quoted runs and
/// backslash escapes, starting inside quotes or not: the characters it
/// stands for, or `None` when the word is unterminated or holds a
/// character outside quotes that is neither a quote nor escaped (which
/// could split the word or be expanded).
pub open spec fn shell_read(s: Seq<char>, in_quotes: bool) -> Option<Seq<char>>
    decreases s.len(),
{
    if s.len() == 0 {
        if in_quotes {
            None
        } else {
            Some(Seq::empty())
        }
    } else if in_quotes {
        if s[0] == '\'' {
            shell_read(s.drop_first(), false)
        } else {
            match shell_read(s.drop_first(), true) {
                Some(r) => Some(seq![s[0]] + r),
                None => None,
            }
        }
    } else if s[0] == '\'' {
        shell_read(s.drop_first(), true)
    } else if s[0] == '\\' && s.len() >= 2 {
        match shell_read(s.subrange(2, s.len() as int), false) {
            Some(r) => Some(seq![s[1]] + r),
            None => None,
        }
    } else {
        None
    }
}

proof fn lemma_escape_body_cons(c: char, t: Seq<char>)
    ensures
        escape_body_spec(seq![c] + t) == escape_char_spec(c) + escape_body_spec(t),
    decreases t.len(),
{
    let u = seq![c] + t;
    if t.len() == 0 {
        assert(u =~= seq![c]);
        assert(u.drop_last() =~= Seq::<char>::empty());
        assert(u.last() == c);
        assert(escape_body_spec(Seq::<char>::empty()) == Seq::<char>::empty());
        assert(escape_body_spec(u) == escape_body_spec(u.drop_last()) + escape_char_spec(u.last()));
        assert(escape_body_spec(u) =~= escape_char_spec(c));
        assert(escape_char_spec(c) + escape_body_spec(t) =~= escape_char_spec(c));
    } else {
        assert(u.drop_last() =~= seq![c] + t.drop_last());
        assert(u.last() == t.last());
        lemma_escape_body_cons(c, t.drop_last());
        assert(escape_body_spec(u) == escape_body_spec(u.drop_last()) + escape_char_spec(u.last()));
        assert(escape_body_spec(t) == escape_body_spec(t.drop_last()) + escape_char_spec(t.last()));
        assert(escape_body_spec(u) =~= escape_char_spec(c) + escape_body_spec(t));
    }
}

proof fn lemma_read_escaped_body(v: Seq<char>, rest: Seq<char>)
    ensures
        shell_read(escape_body_spec(v) + seq!['\''] + rest, true) == match shell_read(rest, false) {
            Some(r) => Some(v + r),
            None => None::<Seq<char>>,
        },
    decreases v.len(),
{
    let q = seq!['\''];
    let s = escape_body_spec(v) + q + rest;
    if v.len() == 0 {
        assert(escape_body_spec(v) == Seq::<char>::empty());
        assert(s =~= q + rest);
        assert(s[0] == '\'');
        assert(s.drop_first() =~= rest);
        assert(shell_read(s, true) == shell_read(s.drop_first(), false));
        match shell_read(rest, false) {
            Some(r) => assert(v + r =~= r),
            None => {},
        }
    } else {
        let c = v[0];
        let t = v.drop_first();
        assert(v =~= seq![c] + t);
        lemma_escape_body_cons(c, t);
        lemma_read_escaped_body(t, rest);
        let tail = escape_body_spec(t) + q + rest;
        if c == '\'' {
            assert(escape_char_spec(c) == seq!['\'', '\\', '\'', '\'']);
            assert(s =~= seq!['\'', '\\', '\'', '\''] + tail);
            assert(s[0] == '\'');
            let s1 = s.drop_first();
            assert(s1 =~= seq!['\\', '\'', '\''] + tail);
            assert(shell_read(s, true) == shell_read(s1, false));
            assert(s1[0] == '\\' && s1[1] == '\'' && s1.len() >= 2);
            let s2 = s1.subrange(2, s1.len() as int);
            assert(s2 =~= seq!['\''] + tail);
            assert(s2[0] == '\'');
            assert(s2.drop_first() =~= tail);
            assert(shell_read(s2, false) == shell_read(tail, true));
            assert(shell_read(s1, false) == match shell_read(s2, false) {
                Some(r) => Some(seq!['\''] + r),
                None => None::<Seq<char>>,
            });
            match shell_read(rest, false) {
                Some(r) => assert(seq!['\''] + (t + r) =~= v + r),
                None => {},
            }
        } else {
            assert(escape_char_spec(c) == seq![c]);
            assert(s =~= seq![c] + tail);
            assert(s[0] == c);
            assert(s.drop_first() =~= tail);
            assert(shell_read(s, true) == match shell_read(tail, true) {
                Some(r) => Some(seq![c] + r),
                None => None::<Seq<char>>,
            });
            match shell_read(rest, false) {
                Some(r) => assert(seq![c] + (t + r) =~= v + r),
                None => {},
            }
        }
    }
}

/// A shell reads an escaped value back as the value itself, as one word:
/// every character of the escaped form outside quotes is a quote or
/// escaped, so nothing in it can split the word or be expanded.
pub proof fn lemma_shell_escape_reads_back(v: Seq<char>)
    ensures
        shell_read(shell_escape_spec(v), false) == Some(v),
{
    let s = shell_escape_spec(v);
    let q = seq!['\''];
    assert(s.drop_first() =~= escape_body_spec(v) + q + Seq::<char>::empty());
    lemma_read_escaped_body(v, Seq::empty());
    assert(v + Seq::<char>::empty() =~= v);
}

} // verus!
