//! Framing of server-sent-event lines: `data: {json}` frames and the
//! `data: [DONE]` sentinel.
use vstd::prelude::*;
use vstd::string::*;
use crate::contracts::str_eq;

verus! {

pub open spec fn is_ws(c: char) -> bool {
    c == ' ' || c == '\t' || c == '\n' || c == '\r'
}

pub open spec fn strip_leading(s: Seq<char>) -> Seq<char>
    decreases s.len(),
{
    if s.len() > 0 && is_ws(s[0]) {
        strip_leading(s.drop_first())
    } else {
        s
    }
}

pub open spec fn strip_trailing(s: Seq<char>) -> Seq<char>
    decreases s.len(),
{
    if s.len() > 0 && is_ws(s.last()) {
        strip_trailing(s.drop_last())
    } else {
        s
    }
}

/// `s` without leading and trailing whitespace.
pub open spec fn trimmed(s: Seq<char>) -> Seq<char> {
    strip_trailing(strip_leading(s))
}

pub open spec fn data_prefix() -> Seq<char> {
    seq!['d', 'a', 't', 'a', ':', ' ']
}

/// One line of an event stream.
#[derive(Debug)]
pub enum SseFrame<'a> {
    /// The end-of-stream sentinel.
    Done,
    /// A data frame; holds what follows `data: `.
    Data(&'a str),
    /// Anything else.
    Other,
}

fn is_ws_char(c: char) -> (r: bool)
    ensures
        r == is_ws(c),
{
    c == ' ' || c == '\t' || c == '\n' || c == '\r'
}

/// `s` without leading and trailing whitespace.
pub fn trim_ws(s: &str) -> (r: &str)
    ensures
        r@ == trimmed(s@),
{
    let n = s.unicode_len();
    let mut a: usize = 0;
    assert(s@.skip(0) =~= s@);
    while a < n && is_ws_char(s.get_char(a))
        invariant
            a <= n,
            n == s@.len(),
            strip_leading(s@) == strip_leading(s@.skip(a as int)),
        decreases n - a,
    {
        assert(s@.skip(a as int).drop_first() =~= s@.skip(a as int + 1));
        a = a + 1;
    }
    let ghost lead = s@.skip(a as int);
    assert(strip_leading(s@) == lead);
    let mut b: usize = n;
    while b > a && is_ws_char(s.get_char(b - 1))
        invariant
            a <= b <= n,
            n == s@.len(),
            lead == s@.skip(a as int),
            strip_trailing(lead) == strip_trailing(s@.subrange(a as int, b as int)),
        decreases b,
    {
        assert(s@.subrange(a as int, b as int).drop_last() =~= s@.subrange(a as int, b as int - 1));
        b = b - 1;
    }
    assert(lead =~= s@.subrange(a as int, n as int));
    let r = s.substring_char(a, b);
    assert(strip_trailing(s@.subrange(a as int, b as int)) == s@.subrange(a as int, b as int));
    r
}

/// Classifies one event-stream line.
pub fn classify_sse_line(line: &str) -> (r: SseFrame)
    ensures
        trimmed(line@) == "data: [DONE]"@ <==> r is Done,
        r matches SseFrame::Data(p) ==> line@.len() >= 6 && line@.take(6) == data_prefix() && p@ == line@.skip(6),
        r is Other ==> !(line@.len() >= 6 && line@.take(6) == data_prefix()),
{
    proof {
        reveal_strlit("data: ");
    }
    let t = trim_ws(line);
    if str_eq(t, "data: [DONE]") {
        return SseFrame::Done;
    }
    let n = line.unicode_len();
    if n >= 6 {
        let head = line.substring_char(0, 6);
        assert(head@ =~= line@.take(6));
        assert("data: "@ =~= data_prefix());
        if str_eq(head, "data: ") {
            assert(head@ =~= data_prefix());
            let p = line.substring_char(6, n);
            assert(p@ =~= line@.skip(6));
            return SseFrame::Data(p);
        }
    }
    SseFrame::Other
}

} // verus!
