//! Trimming of the text that the tool prints.

use vstd::prelude::*;

verus! {

/// Whether `c` is white space: one of the 25 characters that have the
/// Unicode property `White_Space`.
pub open spec fn white_space(c: char) -> bool {
    let code = c as u32;
    ||| 0x0009 <= code <= 0x000d
    ||| code == 0x0020
    ||| code == 0x0085
    ||| code == 0x00a0
    ||| code == 0x1680
    ||| 0x2000 <= code <= 0x200a
    ||| code == 0x2028
    ||| code == 0x2029
    ||| code == 0x202f
    ||| code == 0x205f
    ||| code == 0x3000
}

/// Calls `char::is_whitespace`.
///
/// Trusted: the standard library answers by the Unicode property
/// `White_Space`, which [`white_space`] writes out.
#[verifier::external_body]
fn is_whitespace(c: char) -> (b: bool)
    ensures
        b == white_space(c),
{
    c.is_whitespace()
}

/// `s` without the white space that it begins with.
pub open spec fn trim_start(s: Seq<char>) -> Seq<char>
    decreases s.len(),
{
    if s.len() > 0 && white_space(s.first()) {
        trim_start(s.drop_first())
    } else {
        s
    }
}

/// `s` without the white space that it ends with.
pub open spec fn trim_end(s: Seq<char>) -> Seq<char>
    decreases s.len(),
{
    if s.len() > 0 && white_space(s.last()) {
        trim_end(s.drop_last())
    } else {
        s
    }
}

/// `s` without the white space at either end.
pub open spec fn trimmed(s: Seq<char>) -> Seq<char> {
    trim_end(trim_start(s))
}

/// The text without the white space at either end.
pub fn trim(text: &str) -> (out: String)
    ensures
        out@ == trimmed(text@),
{
    let n = text.unicode_len();
    let mut start: usize = 0;
    assert(text@.subrange(0, n as int) =~= text@);
    while start < n
        invariant_except_break
            start <= n,
            n == text@.len(),
            trim_start(text@) == trim_start(text@.subrange(start as int, n as int)),
        ensures
            start <= n,
            trim_start(text@) == text@.subrange(start as int, n as int),
        decreases n - start,
    {
        let ghost rest = text@.subrange(start as int, n as int);
        assert(rest.first() == text@[start as int]);
        assert(rest.drop_first() =~= text@.subrange(start + 1, n as int));
        if !is_whitespace(text.get_char(start)) {
            break ;
        }
        start += 1;
    }
    let ghost body = text@.subrange(start as int, n as int);
    let mut end: usize = n;
    assert(text@.subrange(start as int, end as int) =~= body);
    while end > start
        invariant_except_break
            start <= end <= n,
            n == text@.len(),
            body == text@.subrange(start as int, n as int),
            trim_end(body) == trim_end(text@.subrange(start as int, end as int)),
        ensures
            start <= end <= n,
            trim_end(body) == text@.subrange(start as int, end as int),
        decreases end - start,
    {
        let ghost kept = text@.subrange(start as int, end as int);
        assert(kept.last() == text@[end - 1]);
        assert(kept.drop_last() =~= text@.subrange(start as int, end - 1));
        if !is_whitespace(text.get_char(end - 1)) {
            break ;
        }
        end -= 1;
    }
    text.substring_char(start, end).to_owned()
}

} // verus!
