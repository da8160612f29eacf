//! Text handling for device names and error messages: decimal numbers, line
//! breaks, prefixes.

use vstd::prelude::*;
use vstd::string::StrSliceExecFns;

verus! {

/// The decimal digit character for `d`.
pub open spec fn spec_digit(d: int) -> char {
    if d == 0 {
        '0'
    } else if d == 1 {
        '1'
    } else if d == 2 {
        '2'
    } else if d == 3 {
        '3'
    } else if d == 4 {
        '4'
    } else if d == 5 {
        '5'
    } else if d == 6 {
        '6'
    } else if d == 7 {
        '7'
    } else if d == 8 {
        '8'
    } else {
        '9'
    }
}

/// The decimal representation of `n`, most significant digit first, without
/// leading zeros (zero is `"0"`).
pub open spec fn spec_decimal(n: nat) -> Seq<char>
    decreases n,
{
    if n < 10 {
        seq![spec_digit(n as int)]
    } else {
        spec_decimal(n / 10).push(spec_digit((n % 10) as int))
    }
}

/// The decimal representation of a signed integer: a minus sign before the
/// digits of its magnitude when it is negative.
pub open spec fn spec_signed_decimal(n: int) -> Seq<char> {
    if n < 0 {
        seq!['-'] + spec_decimal((-n) as nat)
    } else {
        spec_decimal(n as nat)
    }
}

/// `s` with every line feed replaced by a colon and a space.
pub open spec fn spec_replace_newlines(s: Seq<char>) -> Seq<char>
    decreases s.len(),
{
    if s.len() == 0 {
        Seq::empty()
    } else if s.last() == '\n' {
        spec_replace_newlines(s.drop_last()) + seq![':', ' ']
    } else {
        spec_replace_newlines(s.drop_last()).push(s.last())
    }
}

/// Whether `s` has no line feed.
pub open spec fn no_line_feed(s: Seq<char>) -> bool {
    forall|i: int| 0 <= i < s.len() ==> s[i] != '\n'
}

/// The first line of `s`, as the first item of `str::lines` gives it: `None`
/// for the empty text; otherwise the text before the first line feed (all of
/// it if there is none), without a carriage return that stands right before
/// that line feed.
pub open spec fn spec_first_line(s: Seq<char>) -> Option<Seq<char>> {
    if s.len() == 0 {
        None
    } else if no_line_feed(s) {
        Some(s)
    } else {
        let k = choose|k: int| 0 <= k < s.len() && s[k] == '\n' && no_line_feed(s.take(k));
        if k > 0 && s[k - 1] == '\r' {
            Some(s.take(k - 1))
        } else {
            Some(s.take(k))
        }
    }
}

/// Append one character to a string.  Trusted: the body calls std's
/// `String::push`, whose documentation says it appends `c` to the end of the
/// string; the contract claims exactly that the text afterwards is the text
/// before followed by `c`.
#[verifier::external_body]
pub(crate) fn push_char(s: &mut String, c: char)
    ensures
        final(s)@ == old(s)@.push(c),
{
    s.push(c);
}

/// The decimal digit character for `d`.
fn digit(d: u64) -> (c: char)
    requires
        d < 10,
    ensures
        c == spec_digit(d as int),
{
    if d == 0 {
        '0'
    } else if d == 1 {
        '1'
    } else if d == 2 {
        '2'
    } else if d == 3 {
        '3'
    } else if d == 4 {
        '4'
    } else if d == 5 {
        '5'
    } else if d == 6 {
        '6'
    } else if d == 7 {
        '7'
    } else if d == 8 {
        '8'
    } else {
        '9'
    }
}

/// Append the decimal representation of `n` to `s`.
pub fn push_decimal(s: &mut String, n: u64)
    ensures
        final(s)@ == old(s)@ + spec_decimal(n as nat),
    decreases n,
{
    if n >= 10 {
        push_decimal(s, n / 10);
    }
    push_char(s, digit(n % 10));
}

/// Append the decimal representation of the signed integer `n` to `s`.
pub fn push_signed_decimal(s: &mut String, n: i64)
    ensures
        final(s)@ == old(s)@ + spec_signed_decimal(n as int),
{
    if n < 0 {
        push_char(s, '-');
        let magnitude: u64 = if n == i64::MIN {
            9_223_372_036_854_775_808u64
        } else {
            (-n) as u64
        };
        push_decimal(s, magnitude);
        assert(s@ =~= old(s)@ + spec_signed_decimal(n as int));
    } else {
        push_decimal(s, n as u64);
    }
}

/// Append all of `t` to `s`.
pub fn push_text(s: &mut String, t: &str)
    ensures
        final(s)@ == old(s)@ + t@,
{
    let len = t.unicode_len();
    let mut i: usize = 0;
    while i < len
        invariant
            len == t@.len(),
            i <= len,
            s@ == old(s)@ + t@.take(i as int),
        decreases len - i,
    {
        push_char(s, t.get_char(i));
        assert(t@.take(i + 1) =~= t@.take(i as int).push(t@[i as int]));
        i = i + 1;
    }
    assert(t@.take(len as int) =~= t@);
}

/// `s` with every line feed replaced by `": "`.
pub fn replace_newlines(s: &str) -> (r: String)
    ensures
        r@ == spec_replace_newlines(s@),
{
    let len = s.unicode_len();
    let mut r = String::new();
    let mut i: usize = 0;
    while i < len
        invariant
            len == s@.len(),
            i <= len,
            r@ == spec_replace_newlines(s@.take(i as int)),
        decreases len - i,
    {
        let c = s.get_char(i);
        assert(s@.take(i + 1).drop_last() =~= s@.take(i as int));
        if c == '\n' {
            push_char(&mut r, ':');
            push_char(&mut r, ' ');
            assert(r@ =~= spec_replace_newlines(s@.take(i as int)) + seq![':', ' ']);
        } else {
            push_char(&mut r, c);
        }
        i = i + 1;
    }
    assert(s@.take(len as int) =~= s@);
    r
}

/// Whether `s` begins with `prefix`.
pub fn starts_with(s: &str, prefix: &str) -> (r: bool)
    ensures
        r == (prefix@.len() <= s@.len() && s@.take(prefix@.len() as int) == prefix@),
{
    let n = prefix.unicode_len();
    let len = s.unicode_len();
    if n > len {
        return false;
    }
    let mut i: usize = 0;
    while i < n
        invariant
            n == prefix@.len(),
            len == s@.len(),
            n <= len,
            i <= n,
            forall|j: int| 0 <= j < i ==> s@[j] == prefix@[j],
        decreases n - i,
    {
        if s.get_char(i) != prefix.get_char(i) {
            assert(s@.take(n as int)[i as int] != prefix@[i as int]);
            return false;
        }
        i = i + 1;
    }
    assert(s@.take(n as int) =~= prefix@);
    true
}

/// Whether `s` and `t` are the same text.
pub fn same_text(s: &str, t: &str) -> (r: bool)
    ensures
        r == (s@ == t@),
{
    let n = s.unicode_len();
    if n != t.unicode_len() {
        return false;
    }
    let b = starts_with(s, t);
    assert(s@.take(n as int) =~= s@);
    b
}

/// The first line of `s`, as `s.lines().next()` gives it.
pub fn first_line(s: &str) -> (r: Option<String>)
    ensures
        r matches Some(line) ==> spec_first_line(s@) == Some(line@),
        r is None ==> spec_first_line(s@) is None,
{
    let len = s.unicode_len();
    if len == 0 {
        return None;
    }
    let mut line = String::new();
    let mut i: usize = 0;
    while i < len
        invariant
            len == s@.len(),
            i <= len,
            line@ == s@.take(i as int),
            no_line_feed(s@.take(i as int)),
        decreases len - i,
    {
        let c = s.get_char(i);
        if c == '\n' {
            let ghost k = i as int;
            assert(0 <= k < s@.len() && s@[k] == '\n' && no_line_feed(s@.take(k)));
            assert(!no_line_feed(s@));
            let ghost chosen = choose|k: int|
                0 <= k < s@.len() && s@[k] == '\n' && no_line_feed(s@.take(k));
            assert(chosen == k) by {
                if chosen < k {
                    assert(s@.take(k)[chosen] == '\n');
                } else if chosen > k {
                    assert(s@.take(chosen)[k] == '\n');
                }
            }
            if i > 0 && s.get_char(i - 1) == '\r' {
                let mut cut = String::new();
                let mut j: usize = 0;
                while j < i - 1
                    invariant
                        len == s@.len(),
                        0 < i <= len,
                        j <= i - 1,
                        cut@ == s@.take(j as int),
                    decreases i - 1 - j,
                {
                    push_char(&mut cut, s.get_char(j));
                    assert(s@.take(j + 1) =~= s@.take(j as int).push(s@[j as int]));
                    j = j + 1;
                }
                return Some(cut);
            }
            return Some(line);
        }
        push_char(&mut line, c);
        assert(s@.take(i + 1) =~= s@.take(i as int).push(c));
        assert(no_line_feed(s@.take(i + 1)));
        i = i + 1;
    }
    assert(s@.take(len as int) =~= s@);
    Some(line)
}


/// Replacing line feeds works character by character: the text of two
/// pieces is the text of each, one after the other; a line feed becomes a
/// colon and a space, and any other character stays as it is.  So nothing of
/// a description is lost or cut.
pub proof fn lemma_replace_newlines_by_character(a: Seq<char>, b: Seq<char>, c: char)
    ensures
        spec_replace_newlines(a + b) == spec_replace_newlines(a) + spec_replace_newlines(b),
        spec_replace_newlines(seq![c]) == if c == '\n' {
            seq![':', ' ']
        } else {
            seq![c]
        },
    decreases b.len(),
{
    assert(seq![c].drop_last() =~= Seq::<char>::empty());
    assert(spec_replace_newlines(Seq::<char>::empty()) =~= Seq::<char>::empty());
    assert(seq![c].last() == c);
    if c == '\n' {
        assert(spec_replace_newlines(seq![c]) =~= seq![':', ' ']);
    } else {
        assert(spec_replace_newlines(seq![c]) =~= seq![c]);
    }
    if b.len() == 0 {
        assert(a + b =~= a);
        assert(spec_replace_newlines(b) =~= Seq::<char>::empty());
        assert(spec_replace_newlines(a) + spec_replace_newlines(b) =~= spec_replace_newlines(a));
    } else {
        lemma_replace_newlines_by_character(a, b.drop_last(), c);
        assert((a + b).drop_last() =~= a + b.drop_last());
        assert((a + b).last() == b.last());
        if b.last() == '\n' {
            assert(spec_replace_newlines(a) + spec_replace_newlines(b.drop_last()) + seq![':', ' ']
                =~= spec_replace_newlines(a) + (spec_replace_newlines(b.drop_last()) + seq![
                ':',
                ' ',
            ]));
        } else {
            assert((spec_replace_newlines(a) + spec_replace_newlines(b.drop_last())).push(b.last())
                =~= spec_replace_newlines(a) + spec_replace_newlines(b.drop_last()).push(
                b.last(),
            ));
        }
    }
}

} // verus!
