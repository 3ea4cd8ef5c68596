//! Text handling shared by the library: UTF-8 decoding of byte buffers and
//! Unicode white-space trimming.

use vstd::prelude::*;
use vstd::string::StrSliceExecFns;
use vstd::utf8::*;

verus! {

/// Unicode `White_Space` property (the definition `str::trim` uses).
pub open spec fn is_white_space(c: char) -> bool {
    let v = c as u32;
    ||| 0x09 <= v <= 0x0d
    ||| v == 0x20
    ||| v == 0x85
    ||| v == 0xa0
    ||| v == 0x1680
    ||| 0x2000 <= v <= 0x200a
    ||| v == 0x2028
    ||| v == 0x2029
    ||| v == 0x202f
    ||| v == 0x205f
    ||| v == 0x3000
}

/// `s` without its leading white space.
pub open spec fn trim_start(s: Seq<char>) -> Seq<char>
    decreases s.len(),
{
    if s.len() > 0 && is_white_space(s[0]) {
        trim_start(s.drop_first())
    } else {
        s
    }
}

/// `s` without its trailing white space.
pub open spec fn trim_end(s: Seq<char>) -> Seq<char>
    decreases s.len(),
{
    if s.len() > 0 && is_white_space(s.last()) {
        trim_end(s.drop_last())
    } else {
        s
    }
}

/// `s` without leading and trailing white space.
pub open spec fn trim(s: Seq<char>) -> Seq<char> {
    trim_end(trim_start(s))
}

/// Whether `c` has the Unicode `White_Space` property.
pub fn is_white_space_char(c: char) -> (res: bool)
    ensures
        res == is_white_space(c),
{
    let v = c as u32;
    (0x09 <= v && v <= 0x0d) || v == 0x20 || v == 0x85 || v == 0xa0 || v == 0x1680 || (0x2000 <= v
        && v <= 0x200a) || v == 0x2028 || v == 0x2029 || v == 0x202f || v == 0x205f || v == 0x3000
}

/// Removing leading white space from `s` keeps `s` from the first character
/// that is not white space.
proof fn lemma_trim_start_at(s: Seq<char>, k: int)
    requires
        0 <= k <= s.len(),
        forall|i: int| 0 <= i < k ==> is_white_space(#[trigger] s[i]),
        k == s.len() || !is_white_space(s[k]),
    ensures
        trim_start(s) == s.subrange(k, s.len() as int),
    decreases k,
{
    if k == 0 {
        assert(s.subrange(0, s.len() as int) =~= s);
    } else {
        let rest = s.drop_first();
        assert forall|i: int| 0 <= i < k - 1 implies is_white_space(#[trigger] rest[i]) by {
            assert(rest[i] == s[i + 1]);
        }
        assert(k - 1 == rest.len() || rest[k - 1] == s[k]);
        lemma_trim_start_at(rest, k - 1);
        assert(rest.subrange(k - 1, rest.len() as int) =~= s.subrange(k, s.len() as int));
    }
}

/// Removing trailing white space from `s` keeps `s` up to its last character
/// that is not white space.
proof fn lemma_trim_end_at(s: Seq<char>, m: int)
    requires
        0 <= m <= s.len(),
        forall|i: int| m <= i < s.len() ==> is_white_space(#[trigger] s[i]),
        m == 0 || !is_white_space(s[m - 1]),
    ensures
        trim_end(s) == s.subrange(0, m),
    decreases s.len() - m,
{
    if m == s.len() {
        assert(s.subrange(0, m) =~= s);
    } else {
        let rest = s.drop_last();
        assert forall|i: int| m <= i < rest.len() implies is_white_space(#[trigger] rest[i]) by {
            assert(rest[i] == s[i]);
        }
        assert(m == 0 || rest[m - 1] == s[m - 1]);
        lemma_trim_end_at(rest, m);
        assert(rest.subrange(0, m) =~= s.subrange(0, m));
    }
}

/// `s` without its leading and trailing white space (as `str::trim`).
pub fn trim_white_space(s: &str) -> (res: &str)
    ensures
        res@ == trim(s@),
{
    let n = s.unicode_len();
    let mut start: usize = 0;
    while start < n && is_white_space_char(s.get_char(start))
        invariant
            n == s@.len(),
            start <= n,
            forall|i: int| 0 <= i < start ==> is_white_space(#[trigger] s@[i]),
        decreases n - start,
    {
        start += 1;
    }
    let mut end: usize = n;
    while end > start && is_white_space_char(s.get_char(end - 1))
        invariant
            n == s@.len(),
            start <= end <= n,
            forall|i: int| end <= i < n ==> is_white_space(#[trigger] s@[i]),
        decreases end - start,
    {
        end -= 1;
    }
    proof {
        lemma_trim_start_at(s@, start as int);
        let t = s@.subrange(start as int, n as int);
        assert forall|i: int| end - start <= i < t.len() implies is_white_space(#[trigger] t[i]) by {
            assert(t[i] == s@[start + i]);
        }
        if end > start {
            assert(t[end - start - 1] == s@[end - 1]);
        }
        lemma_trim_end_at(t, end - start);
        assert(t.subrange(0, end - start) =~= s@.subrange(start as int, end as int));
    }
    s.substring_char(start, end)
}

/// `String::from_utf8`: claimed to succeed exactly on valid UTF-8, giving the
/// decoded characters; on failure the bytes come back unchanged (the bytes of
/// the `FromUtf8Error`, from `into_bytes`).
#[verifier::external_body]
pub(crate) fn string_from_utf8(bytes: Vec<u8>) -> (res: Result<String, Vec<u8>>)
    ensures
        match res {
            Ok(s) => valid_utf8(bytes@) && s@ == decode_utf8(bytes@),
            Err(b) => !valid_utf8(bytes@) && b@ == bytes@,
        },
{
    match String::from_utf8(bytes) {
        Ok(s) => Ok(s),
        Err(e) => Err(e.into_bytes()),
    }
}

/// The position of the first character at or after `k` that is not white
/// space (the length if none), given that all before `k` are white space.
proof fn first_non_white(s: Seq<char>, k: int) -> (r: int)
    requires
        0 <= k <= s.len(),
        forall|i: int| 0 <= i < k ==> is_white_space(#[trigger] s[i]),
    ensures
        k <= r <= s.len(),
        forall|i: int| 0 <= i < r ==> is_white_space(#[trigger] s[i]),
        r == s.len() || !is_white_space(s[r]),
    decreases s.len() - k,
{
    if k < s.len() && is_white_space(s[k]) {
        first_non_white(s, k + 1)
    } else {
        k
    }
}

/// The position just after the last character before `m` and not before
/// `start` that is not white space (`start` if none), given that all from `m`
/// on are white space.
proof fn after_last_non_white(s: Seq<char>, start: int, m: int) -> (r: int)
    requires
        0 <= start <= m <= s.len(),
        forall|i: int| m <= i < s.len() ==> is_white_space(#[trigger] s[i]),
    ensures
        start <= r <= m,
        forall|i: int| r <= i < s.len() ==> is_white_space(#[trigger] s[i]),
        r == start || !is_white_space(s[r - 1]),
    decreases m - start,
{
    if m > start && is_white_space(s[m - 1]) {
        after_last_non_white(s, start, m - 1)
    } else {
        m
    }
}

/// Trimming keeps one contiguous piece of the text: everything removed before
/// and after it is white space, and the piece neither starts nor ends with
/// white space.
pub proof fn lemma_trim_shape(s: Seq<char>)
    ensures
        exists|start: int, end: int|
            {
                &&& 0 <= start <= end <= s.len()
                &&& trim(s) == s.subrange(start, end)
                &&& forall|i: int| 0 <= i < start ==> is_white_space(#[trigger] s[i])
                &&& forall|i: int| end <= i < s.len() ==> is_white_space(#[trigger] s[i])
                &&& start < end ==> !is_white_space(s[start]) && !is_white_space(s[end - 1])
            },
{
    let start = first_non_white(s, 0);
    let end = after_last_non_white(s, start, s.len() as int);
    lemma_trim_start_at(s, start);
    let t = s.subrange(start, s.len() as int);
    assert forall|i: int| end - start <= i < t.len() implies is_white_space(#[trigger] t[i]) by {
        assert(t[i] == s[start + i]);
    }
    if end > start {
        assert(t[end - start - 1] == s[end - 1]);
    }
    lemma_trim_end_at(t, end - start);
    assert(t.subrange(0, end - start) =~= s.subrange(start, end));
}

/// Spaces, tabs, line ends, the no-break space and the ideographic space are
/// white space; printable ASCII characters other than the space are not.
pub proof fn lemma_white_space_examples(c: char)
    ensures
        is_white_space(' ') && is_white_space('\t') && is_white_space('\n') && is_white_space('\r'),
        is_white_space('\u{a0}') && is_white_space('\u{3000}') && is_white_space('\u{2028}'),
        0x21 <= (c as u32) <= 0x7e ==> !is_white_space(c),
        !is_white_space('\u{200b}'),
{
}

} // verus!
