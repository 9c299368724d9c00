//! Text that a compiler back end leaves behind: picking the line that names
//! the failure, and turning captured bytes into text.

use vstd::prelude::*;

verus! {

/// The text that `String::from_utf8_lossy` makes of `bytes`: the decoded
/// characters, with U+FFFD in place of each sequence that is no valid UTF-8.
pub uninterp spec fn utf8_lossy_text(bytes: Seq<u8>) -> Seq<char>;

/// Calls `String::from_utf8_lossy` on `bytes`. Trusted: the result is what
/// the standard library returns, which `utf8_lossy_text` names, and bytes
/// that are valid UTF-8 come out as the text they encode.
#[verifier::external_body]
pub(crate) fn decode_lossy(bytes: &[u8]) -> (text: String)
    ensures
        text@ == utf8_lossy_text(bytes@),
        vstd::utf8::valid_utf8(bytes@) ==> text@ == vstd::utf8::decode_utf8(bytes@),
{
    String::from_utf8_lossy(bytes).into_owned()
}

/// A byte that ends a line: line feed or carriage return.
pub open spec fn is_line_break(b: u8) -> bool {
    b == 0x0A || b == 0x0D
}

/// Every byte of `s` is a line break, so `s` holds no line with content.
pub open spec fn is_blank(s: Seq<u8>) -> bool {
    forall|k: int| 0 <= k < s.len() ==> is_line_break(#[trigger] s[k])
}

/// One past the last byte of `s` that is no line break; 0 where `s` is blank.
pub open spec fn last_line_end(s: Seq<u8>) -> int
    decreases s.len(),
{
    if s.len() == 0 {
        0
    } else if !is_line_break(s.last()) {
        s.len() as int
    } else {
        last_line_end(s.drop_last())
    }
}

/// Where the run of bytes without a line break that stops before `end` begins.
pub open spec fn line_start(s: Seq<u8>, end: int) -> int
    decreases end,
{
    if end <= 0 || end > s.len() {
        0
    } else if is_line_break(s[end - 1]) {
        end
    } else {
        line_start(s, end - 1)
    }
}

/// The last line of `s` that holds at least one byte, without its line
/// break; empty where `s` is blank.
pub open spec fn last_non_empty_line_of(s: Seq<u8>) -> Seq<u8> {
    s.subrange(line_start(s, last_line_end(s)), last_line_end(s))
}

/// `last_line_end` looks only at the bytes behind which nothing but line
/// breaks follows.
proof fn lemma_end_skips_trailing_breaks(s: Seq<u8>, n: int)
    requires
        0 <= n <= s.len(),
        forall|k: int| n <= k < s.len() ==> is_line_break(#[trigger] s[k]),
    ensures
        last_line_end(s) == last_line_end(s.subrange(0, n)),
    decreases s.len() - n,
{
    if n == s.len() {
        assert(s.subrange(0, n) =~= s);
    } else {
        assert(is_line_break(s[s.len() - 1]));
        assert(s.drop_last().subrange(0, n) =~= s.subrange(0, n));
        lemma_end_skips_trailing_breaks(s.drop_last(), n);
    }
}

/// Where the last non-empty line stops, and that only line breaks follow.
proof fn lemma_last_line_end(s: Seq<u8>)
    ensures
        0 <= last_line_end(s) <= s.len(),
        last_line_end(s) > 0 ==> !is_line_break(s[last_line_end(s) - 1]),
        forall|k: int| last_line_end(s) <= k < s.len() ==> is_line_break(#[trigger] s[k]),
    decreases s.len(),
{
    if s.len() > 0 && is_line_break(s.last()) {
        let t = s.drop_last();
        lemma_last_line_end(t);
        assert forall|k: int| last_line_end(s) <= k < s.len() implies is_line_break(
            #[trigger] s[k],
        ) by {
            if k < t.len() {
                assert(s[k] == t[k]);
            }
        }
        if last_line_end(s) > 0 {
            assert(s[last_line_end(s) - 1] == t[last_line_end(t) - 1]);
        }
    }
}

/// The run that `line_start` finds holds no line break and cannot be
/// extended to the left.
proof fn lemma_line_start_bounds(s: Seq<u8>, end: int)
    requires
        0 <= end <= s.len(),
    ensures
        0 <= line_start(s, end) <= end,
        forall|k: int| line_start(s, end) <= k < end ==> !is_line_break(#[trigger] s[k]),
        line_start(s, end) > 0 ==> is_line_break(s[line_start(s, end) - 1]),
    decreases end,
{
    if end > 0 && !is_line_break(s[end - 1]) {
        lemma_line_start_bounds(s, end - 1);
    }
}

/// What the last non-empty line is: a run of bytes of `s` without a line
/// break, with a line break or the start of `s` before it and nothing but
/// line breaks behind it; and it is empty exactly where `s` is blank.
pub proof fn law_last_non_empty_line(s: Seq<u8>)
    ensures
        forall|k: int|
            0 <= k < last_non_empty_line_of(s).len() ==> !is_line_break(
                #[trigger] last_non_empty_line_of(s)[k],
            ),
        last_non_empty_line_of(s).len() == 0 <==> is_blank(s),
        0 <= line_start(s, last_line_end(s)) <= last_line_end(s) <= s.len(),
        line_start(s, last_line_end(s)) > 0 ==> is_line_break(
            s[line_start(s, last_line_end(s)) - 1],
        ),
        forall|k: int| last_line_end(s) <= k < s.len() ==> is_line_break(#[trigger] s[k]),
{
    lemma_last_line_end(s);
    let end = last_line_end(s);
    lemma_line_start_bounds(s, end);
    let start = line_start(s, end);
    let line = last_non_empty_line_of(s);
    assert forall|k: int| 0 <= k < line.len() implies !is_line_break(#[trigger] line[k]) by {
        assert(line[k] == s[start + k]);
    }
    if end > 0 {
        assert(!is_line_break(s[end - 1]));
        assert(start < end);
    }
}

/// Whether `b` ends a line.
pub fn ends_line(b: u8) -> (r: bool)
    ensures
        r == is_line_break(b),
{
    b == 0x0A || b == 0x0D
}

/// Picks the last line of `bytes` that holds anything, without its line
/// break. Lines end at a line feed or a carriage return. Where every byte is
/// a line break, or there is none, the result is empty.
pub fn last_non_empty_line(bytes: &[u8]) -> (line: Vec<u8>)
    ensures
        line@ == last_non_empty_line_of(bytes@),
{
    let mut end: usize = bytes.len();
    while end > 0 && ends_line(bytes[end - 1])
        invariant
            end <= bytes.len(),
            forall|k: int| end <= k < bytes@.len() ==> is_line_break(#[trigger] bytes@[k]),
        decreases end,
    {
        end = end - 1;
    }
    proof {
        lemma_end_skips_trailing_breaks(bytes@, end as int);
        let head = bytes@.subrange(0, end as int);
        if end > 0 {
            assert(head.last() == bytes@[end - 1]);
        }
        assert(last_line_end(bytes@) == end);
    }
    let mut start: usize = end;
    while start > 0 && !ends_line(bytes[start - 1])
        invariant
            start <= end <= bytes.len(),
            line_start(bytes@, end as int) == line_start(bytes@, start as int),
        decreases start,
    {
        start = start - 1;
    }
    let mut line: Vec<u8> = Vec::new();
    let mut i: usize = start;
    while i < end
        invariant
            start <= i <= end <= bytes.len(),
            line@ == bytes@.subrange(start as int, i as int),
        decreases end - i,
    {
        line.push(bytes[i]);
        i = i + 1;
    }
    line
}

} // verus!
