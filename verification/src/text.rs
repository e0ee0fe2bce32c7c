//! Pure text operations of the session layer: command-echo stripping,
//! marker search, and line splitting for log-buffer extraction.

use vstd::prelude::*;

verus! {

/// `s` begins with `prefix`.
pub open spec fn seq_starts_with(s: Seq<char>, prefix: Seq<char>) -> bool {
    prefix.len() <= s.len() && s.subrange(0, prefix.len() as int) == prefix
}

/// `sub` occurs somewhere in `s`.
pub open spec fn seq_contains(s: Seq<char>, sub: Seq<char>) -> bool {
    exists|i: int|
        0 <= i && i + sub.len() <= s.len() && #[trigger] s.subrange(i, i + sub.len() as int)
            == sub
}

/// The command echo removed: if `out` begins with `prefix` (the echoed
/// command and its line terminator), the rest of `out`; otherwise `out`
/// unchanged (some devices suppress the echo).
pub open spec fn echo_stripped(prefix: Seq<char>, out: Seq<char>) -> Seq<char> {
    if seq_starts_with(out, prefix) {
        out.skip(prefix.len() as int)
    } else {
        out
    }
}

pub fn str_starts_with(s: &str, prefix: &str) -> (r: bool)
    ensures
        r == seq_starts_with(s@, prefix@),
{
    let n = prefix.unicode_len();
    if n > s.unicode_len() {
        return false;
    }
    let mut i: usize = 0;
    while i < n
        invariant
            0 <= i <= n,
            n == prefix@.len(),
            n <= s@.len(),
            forall|j: int| 0 <= j < i ==> s@[j] == prefix@[j],
        decreases n - i,
    {
        if s.get_char(i) != prefix.get_char(i) {
            assert(s@.subrange(0, n as int)[i as int] != prefix@[i as int]);
            return false;
        }
        i += 1;
    }
    assert(s@.subrange(0, n as int) =~= prefix@);
    true
}

pub fn str_contains(s: &str, sub: &str) -> (r: bool)
    ensures
        r == seq_contains(s@, sub@),
{
    let n = s.unicode_len();
    let m = sub.unicode_len();
    if m == 0 {
        assert(s@.subrange(0, 0 + sub@.len() as int) =~= sub@);
        return true;
    }
    if m > n {
        return false;
    }
    let mut i: usize = 0;
    while i <= n - m
        invariant
            0 <= i <= n - m + 1,
            1 <= m <= n,
            n == s@.len(),
            m == sub@.len(),
            forall|k: int| 0 <= k < i ==> #[trigger] s@.subrange(k, k + m as int) != sub@,
        decreases n - i,
    {
        let mut j: usize = 0;
        let mut matched = true;
        while j < m
            invariant
                0 <= j <= m,
                0 <= i,
                i + m <= n,
                n == s@.len(),
                m == sub@.len(),
                matched ==> forall|t: int| 0 <= t < j ==> s@[i + t] == sub@[t],
                !matched ==> s@.subrange(i as int, i + m as int) != sub@,
            decreases m - j,
        {
            if s.get_char(i + j) != sub.get_char(j) {
                assert(s@.subrange(i as int, i + m as int)[j as int] != sub@[j as int]);
                matched = false;
                j = m;
            } else {
                j += 1;
            }
        }
        if matched {
            assert(s@.subrange(i as int, i + m as int) =~= sub@);
            return true;
        }
        i += 1;
    }
    assert forall|k: int| 0 <= k && k + m <= n implies #[trigger] s@.subrange(k, k + m as int)
        != sub@ by {
        assert(k < i);
    }
    false
}

pub fn str_eq(a: &str, b: &str) -> (r: bool)
    ensures
        r == (a@ == b@),
{
    let n = a.unicode_len();
    if n != b.unicode_len() {
        return false;
    }
    let mut i: usize = 0;
    while i < n
        invariant
            0 <= i <= n,
            n == a@.len() == b@.len(),
            forall|j: int| 0 <= j < i ==> a@[j] == b@[j],
        decreases n - i,
    {
        if a.get_char(i) != b.get_char(i) {
            return false;
        }
        i += 1;
    }
    assert(a@ =~= b@);
    true
}

/// `c` is a white-space character: the Unicode `White_Space` set.
pub open spec fn spec_is_space(c: char) -> bool {
    c == ' ' || c == '\t' || c == '\n' || c == '\u{b}' || c == '\u{c}' || c == '\r' || c
        == '\u{85}' || c == '\u{a0}' || c == '\u{1680}' || c == '\u{2000}' || c == '\u{2001}'
        || c == '\u{2002}' || c == '\u{2003}' || c == '\u{2004}' || c == '\u{2005}' || c
        == '\u{2006}' || c == '\u{2007}' || c == '\u{2008}' || c == '\u{2009}' || c
        == '\u{200a}' || c == '\u{2028}' || c == '\u{2029}' || c == '\u{202f}' || c
        == '\u{205f}' || c == '\u{3000}'
}

pub fn is_space(c: char) -> (r: bool)
    ensures
        r == spec_is_space(c),
{
    c == ' ' || c == '\t' || c == '\n' || c == '\u{b}' || c == '\u{c}' || c == '\r' || c
        == '\u{85}' || c == '\u{a0}' || c == '\u{1680}' || c == '\u{2000}' || c == '\u{2001}'
        || c == '\u{2002}' || c == '\u{2003}' || c == '\u{2004}' || c == '\u{2005}' || c
        == '\u{2006}' || c == '\u{2007}' || c == '\u{2008}' || c == '\u{2009}' || c
        == '\u{200a}' || c == '\u{2028}' || c == '\u{2029}' || c == '\u{202f}' || c
        == '\u{205f}' || c == '\u{3000}'
}

/// The line holds nothing but white space.
pub open spec fn spec_is_blank(l: Seq<char>) -> bool {
    forall|i: int| 0 <= i < l.len() ==> spec_is_space(#[trigger] l[i])
}

pub fn is_blank(l: &str) -> (r: bool)
    ensures
        r == spec_is_blank(l@),
{
    let n = l.unicode_len();
    let mut i: usize = 0;
    while i < n
        invariant
            0 <= i <= n,
            n == l@.len(),
            forall|j: int| 0 <= j < i ==> spec_is_space(#[trigger] l@[j]),
        decreases n - i,
    {
        if !is_space(l.get_char(i)) {
            return false;
        }
        i += 1;
    }
    true
}

/// Removes the leading `prefix` from `output` when present.
pub fn strip_echo(output: &str, prefix: &str) -> (r: String)
    ensures
        r@ == echo_stripped(prefix@, output@),
{
    if str_starts_with(output, prefix) {
        let n = output.unicode_len();
        let p = prefix.unicode_len();
        let rest = output.substring_char(p, n);
        assert(output@.subrange(p as int, n as int) =~= output@.skip(p as int));
        String::from_str(rest)
    } else {
        String::from_str(output)
    }
}

/// The index of the first newline in `s`, or `s.len()` if there is none.
pub open spec fn first_nl(s: Seq<char>) -> nat
    decreases s.len(),
{
    if s.len() == 0 {
        0
    } else if s[0] == '\n' {
        0
    } else {
        1 + first_nl(s.drop_first())
    }
}

/// `first_nl` is the position of the first newline, where there is one.
pub proof fn lemma_first_nl_at(s: Seq<char>, k: int)
    requires
        0 <= k < s.len(),
        s[k] == '\n',
        forall|j: int| 0 <= j < k ==> s[j] != '\n',
    ensures
        first_nl(s) == k,
    decreases s.len(),
{
    if k == 0 {
    } else {
        assert(s.drop_first()[k - 1] == '\n');
        assert forall|j: int| 0 <= j < k - 1 implies s.drop_first()[j] != '\n' by {
            assert(s[j + 1] != '\n');
        }
        lemma_first_nl_at(s.drop_first(), k - 1);
    }
}

pub proof fn lemma_first_nl_none(s: Seq<char>)
    requires
        forall|j: int| 0 <= j < s.len() ==> s[j] != '\n',
    ensures
        first_nl(s) == s.len(),
    decreases s.len(),
{
    if s.len() > 0 {
        assert forall|j: int| 0 <= j < s.drop_first().len() implies s.drop_first()[j] != '\n' by {
            assert(s[j + 1] != '\n');
        }
        lemma_first_nl_none(s.drop_first());
    }
}

/// A trailing carriage return removed, as devices end lines with `\r\n`.
pub open spec fn strip_cr(line: Seq<char>) -> Seq<char> {
    if line.len() > 0 && line.last() == '\r' {
        line.drop_last()
    } else {
        line
    }
}

/// `s` split at newlines: every `\n` (or `\r\n`) ends a line, and a final
/// fragment without a newline is a line of its own.
pub open spec fn spec_lines(s: Seq<char>) -> Seq<Seq<char>>
    decreases s.len(),
{
    if s.len() == 0 {
        Seq::empty()
    } else {
        let i = first_nl(s);
        if i >= s.len() {
            seq![s]
        } else {
            seq![strip_cr(s.subrange(0, i as int))] + spec_lines(s.skip(i + 1 as int))
        }
    }
}

pub fn split_lines(s: &str) -> (r: Vec<String>)
    ensures
        r.deep_view() == spec_lines(s@),
{
    let n = s.unicode_len();
    let mut out: Vec<String> = Vec::new();
    let mut start: usize = 0;
    let mut i: usize = 0;
    proof {
        assert(s@.skip(0) =~= s@);
        assert(out.deep_view() + spec_lines(s@) =~= spec_lines(s@));
    }
    while i < n
        invariant
            0 <= start <= i <= n,
            n == s@.len(),
            forall|j: int| start <= j < i ==> s@[j] != '\n',
            spec_lines(s@) == out.deep_view() + spec_lines(s@.skip(start as int)),
        decreases n - i,
    {
        if s.get_char(i) == '\n' {
            let mut line_end = i;
            if i > start && s.get_char(i - 1) == '\r' {
                line_end = i - 1;
            }
            let line = String::from_str(s.substring_char(start, line_end));
            let ghost prev = out.deep_view();
            proof {
                let tail = s@.skip(start as int);
                assert(tail[i - start] == '\n');
                assert forall|j: int| 0 <= j < i - start implies tail[j] != '\n' by {
                    assert(s@[start + j] != '\n');
                }
                lemma_first_nl_at(tail, i - start);
                assert(tail.subrange(0, i - start) =~= s@.subrange(start as int, i as int));
                if i > start && s@[i - 1] == '\r' {
                    assert(s@.subrange(start as int, i as int).last() == '\r');
                    assert(s@.subrange(start as int, i as int).drop_last() =~= s@.subrange(
                        start as int,
                        line_end as int,
                    ));
                } else {
                    assert(strip_cr(s@.subrange(start as int, i as int)) == s@.subrange(
                        start as int,
                        line_end as int,
                    ));
                }
                assert(strip_cr(tail.subrange(0, i - start)) == line@);
                assert(tail.skip(i - start + 1) =~= s@.skip(i + 1));
                assert(spec_lines(tail) == seq![line@] + spec_lines(s@.skip(i + 1)));
            }
            out.push(line);
            proof {
                assert(out.deep_view() =~= prev.push(line@));
                assert(prev + (seq![line@] + spec_lines(s@.skip(i + 1))) =~= prev.push(line@)
                    + spec_lines(s@.skip(i + 1)));
            }
            start = i + 1;
        }
        i += 1;
    }
    if start < n {
        let line = String::from_str(s.substring_char(start, n));
        let ghost prev = out.deep_view();
        proof {
            let tail = s@.skip(start as int);
            assert forall|j: int| 0 <= j < tail.len() implies tail[j] != '\n' by {
                assert(s@[start + j] != '\n');
            }
            lemma_first_nl_none(tail);
            assert(tail =~= s@.subrange(start as int, n as int));
            assert(spec_lines(tail) == seq![line@]);
        }
        out.push(line);
        proof {
            assert(out.deep_view() =~= prev.push(line@));
            assert(prev + seq![line@] =~= prev.push(line@));
        }
    } else {
        proof {
            assert(s@.skip(start as int).len() == 0);
            assert(out.deep_view() + spec_lines(s@.skip(start as int)) =~= out.deep_view());
        }
    }
    out
}

} // verus!
