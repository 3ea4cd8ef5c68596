//! Lines printed by the packet capture tool: trimming, splitting into the
//! `text|raw|masking key` fields, and the choice of the JSON text to read.

use vstd::prelude::*;
use vstd::string::{StrSliceExecFns, StringExecFns, StringSliceAdditionalSpecFns};

use crate::sniffer::{unmask_result, unmask_websocket_payload};
use crate::text::{is_white_space, trim, trim_end, trim_start, trim_white_space};

verus! {

broadcast use vstd::string::group_string_axioms;

/// The character between the fields of a capture line. The capture tool is
/// told to print it (`separator_option`), and lines are split at it.
pub const FIELD_SEPARATOR: char = '|';

/// The capture tool's option value that makes it print `FIELD_SEPARATOR`
/// between the fields (`-E separator=|`).
pub fn separator_option() -> (res: String)
    ensures
        res@ == "separator="@ + seq![FIELD_SEPARATOR],
{
    proof {
        reveal_strlit("separator=|");
        reveal_strlit("separator=");
    }
    let res = String::from_str("separator=|");
    assert(res@ =~= "separator="@ + seq![FIELD_SEPARATOR]);
    res
}

/// The fields of one capture line.
#[derive(Debug, PartialEq, Eq)]
pub struct CapturedFields {
    /// Payload already in clear text (traffic from the server).
    pub text_payload: String,
    /// Hexadecimal masked payload (traffic from the player).
    pub raw_payload: String,
    /// Hexadecimal masking key of the raw payload.
    pub masking_key: String,
}

/// Character positions of the separators of `s`, in increasing order.
pub open spec fn separator_positions(s: Seq<char>) -> Seq<int>
    decreases s.len(),
{
    if s.len() == 0 {
        Seq::empty()
    } else if s.last() == FIELD_SEPARATOR {
        separator_positions(s.drop_last()).push(s.len() - 1)
    } else {
        separator_positions(s.drop_last())
    }
}

/// Field `k` of `s` split at the separator, or the empty text where `s` has fewer fields.
pub open spec fn field(s: Seq<char>, k: int) -> Seq<char> {
    let seps = separator_positions(s);
    if 0 <= k <= seps.len() {
        let start = if k == 0 {
            0
        } else {
            seps[k - 1] + 1
        };
        let end = if k == seps.len() {
            s.len() as int
        } else {
            seps[k]
        };
        s.subrange(start, end)
    } else {
        Seq::empty()
    }
}

/// The three fields of a capture line once trimmed; nothing for a blank line.
pub open spec fn capture_fields(line: Seq<char>) -> Option<(Seq<char>, Seq<char>, Seq<char>)> {
    let t = trim(line);
    if t.len() == 0 {
        None
    } else {
        Some((field(t, 0), field(t, 1), field(t, 2)))
    }
}

/// The JSON text carried by fields `(text, raw, key)`: the clear text when there
/// is one, else the unmasked raw payload when both it and the key are present
/// and unmasking succeeds, else nothing.
pub open spec fn payload_of(fields: (Seq<char>, Seq<char>, Seq<char>)) -> Option<Seq<char>> {
    let (text, raw, key) = fields;
    if text.len() != 0 {
        Some(text)
    } else if raw.len() != 0 && key.len() != 0 {
        match unmask_result(vstd::utf8::encode_utf8(raw), vstd::utf8::encode_utf8(key)) {
            Ok(s) => Some(s),
            Err(_) => None,
        }
    } else {
        None
    }
}

proof fn lemma_separator_positions_bounds(s: Seq<char>)
    ensures
        forall|j: int|
            0 <= j < separator_positions(s).len() ==> 0 <= #[trigger] separator_positions(s)[j]
                < s.len() && s[separator_positions(s)[j]] == FIELD_SEPARATOR,
        forall|j: int, l: int|
            0 <= j < l < separator_positions(s).len() ==> #[trigger] separator_positions(s)[j]
                < #[trigger] separator_positions(s)[l],
    decreases s.len(),
{
    if s.len() > 0 {
        let prefix = s.drop_last();
        lemma_separator_positions_bounds(prefix);
        let prev = separator_positions(prefix);
        let cur = separator_positions(s);
        assert forall|j: int| 0 <= j < prev.len() implies 0 <= #[trigger] prev[j] < s.len() - 1
            && s[prev[j]] == FIELD_SEPARATOR by {
            assert(prefix[prev[j]] == s[prev[j]]);
        }
        if s.last() == FIELD_SEPARATOR {
            assert(cur == prev.push(s.len() - 1));
            assert forall|j: int, l: int| 0 <= j < l < cur.len() implies #[trigger] cur[j]
                < #[trigger] cur[l] by {
                if l < prev.len() {
                    assert(cur[j] == prev[j] && cur[l] == prev[l]);
                } else {
                    assert(cur[j] == prev[j]);
                }
            }
        } else {
            assert(cur == prev);
        }
    }
}

/// Text of field `k` of `t`, given the separator positions of `t`.
fn field_text(t: &str, n: usize, seps: &Vec<usize>, k: usize) -> (res: String)
    requires
        n == t@.len(),
        seps@.len() == separator_positions(t@).len(),
        forall|j: int| 0 <= j < seps@.len() ==> seps@[j] as int == #[trigger] separator_positions(t@)[j],
    ensures
        res@ == field(t@, k as int),
{
    proof {
        lemma_separator_positions_bounds(t@);
    }
    if k > seps.len() {
        return String::new();
    }
    let ghost sp = separator_positions(t@);
    assert(k > 0 ==> seps@[k - 1] as int == sp[k - 1] && sp[k - 1] < n);
    assert(k < seps@.len() ==> seps@[k as int] as int == sp[k as int] && sp[k as int] < n);
    assert(0 < k < seps@.len() ==> sp[k - 1] < sp[k as int]);
    let start: usize = if k == 0 {
        0
    } else {
        seps[k - 1] + 1
    };
    let end: usize = if k == seps.len() {
        n
    } else {
        seps[k]
    };
    let piece = t.substring_char(start, end);
    piece.to_owned()
}

/// Splits one capture line (`text|raw|masking key`) after trimming its white
/// space; a blank line has no fields.
pub fn parse_capture_line(line: &str) -> (res: Option<CapturedFields>)
    ensures
        match res {
            None => capture_fields(line@) is None,
            Some(f) => capture_fields(line@) == Some(
                (f.text_payload@, f.raw_payload@, f.masking_key@),
            ),
        },
{
    let t = trim_white_space(line);
    if t.is_empty() {
        return None;
    }
    let n = t.unicode_len();
    let ghost chars = t@;
    let mut seps: Vec<usize> = Vec::new();
    let mut i: usize = 0;
    for c in iter: t.chars()
        invariant
            iter.seq() == chars,
            chars == t@,
            n == chars.len(),
            i == iter.index(),
            seps@.len() == separator_positions(chars.take(i as int)).len(),
            forall|j: int|
                0 <= j < seps@.len() ==> seps@[j] as int == #[trigger] separator_positions(
                    chars.take(i as int),
                )[j],
    {
        assert(chars.take(i + 1).drop_last() =~= chars.take(i as int));
        if c == FIELD_SEPARATOR {
            seps.push(i);
        }
        i += 1;
    }
    assert(chars.take(n as int) =~= chars);
    let text_payload = field_text(t, n, &seps, 0);
    let raw_payload = field_text(t, n, &seps, 1);
    let masking_key = field_text(t, n, &seps, 2);
    Some(CapturedFields { text_payload, raw_payload, masking_key })
}

impl CapturedFields {
    /// The JSON text to read from these fields: the clear text if present,
    /// otherwise the unmasked raw payload when both it and the masking key are
    /// present and unmasking succeeds; `None` for a line with no usable payload.
    pub fn select_payload(&self) -> (res: Option<String>)
        ensures
            match res {
                None => payload_of((self.text_payload@, self.raw_payload@, self.masking_key@)) is None,
                Some(s) => payload_of((self.text_payload@, self.raw_payload@, self.masking_key@))
                    == Some(s@),
            },
    {
        if !self.text_payload.as_str().is_empty() {
            return Some(self.text_payload.clone());
        }
        if !self.raw_payload.as_str().is_empty() && !self.masking_key.as_str().is_empty() {
            match unmask_websocket_payload(self.raw_payload.as_str(), self.masking_key.as_str()) {
                Ok(s) => Some(s),
                Err(_) => None,
            }
        } else {
            None
        }
    }
}

/// Appending text without the separator adds no separator.
proof fn lemma_positions_of_plain_suffix(x: Seq<char>, c: Seq<char>)
    requires
        forall|i: int| 0 <= i < c.len() ==> c[i] != FIELD_SEPARATOR,
    ensures
        separator_positions(x + c) == separator_positions(x),
    decreases c.len(),
{
    if c.len() == 0 {
        assert(x + c =~= x);
    } else {
        assert((x + c).drop_last() =~= x + c.drop_last());
        lemma_positions_of_plain_suffix(x, c.drop_last());
    }
}

/// A line `text|raw|key` (fields joined by `FIELD_SEPARATOR`) whose three
/// fields hold no separator (and that has no white space to trim at its ends)
/// is split back into those three fields, and its payload is chosen from them.
pub proof fn lemma_capture_line_fields(text: Seq<char>, raw: Seq<char>, key: Seq<char>)
    requires
        forall|i: int| 0 <= i < text.len() ==> text[i] != FIELD_SEPARATOR,
        forall|i: int| 0 <= i < raw.len() ==> raw[i] != FIELD_SEPARATOR,
        forall|i: int| 0 <= i < key.len() ==> key[i] != FIELD_SEPARATOR,
        text.len() == 0 || !is_white_space(text[0]),
        key.len() == 0 || !is_white_space(key.last()),
    ensures
        capture_fields(text + seq![FIELD_SEPARATOR] + raw + seq![FIELD_SEPARATOR] + key) == Some(
            (text, raw, key),
        ),
        payload_of((text, raw, key)) == if text.len() != 0 {
            Some(text)
        } else if raw.len() != 0 && key.len() != 0 {
            match unmask_result(vstd::utf8::encode_utf8(raw), vstd::utf8::encode_utf8(key)) {
                Ok(s) => Some(s),
                Err(_) => None,
            }
        } else {
            None
        },
{
    let bar = seq![FIELD_SEPARATOR];
    let line = text + bar + raw + bar + key;
    assert(!is_white_space(FIELD_SEPARATOR));
    // The line has nothing to trim.
    assert(line.len() > 0);
    if text.len() == 0 {
        assert(line[0] == FIELD_SEPARATOR);
    } else {
        assert(line[0] == text[0]);
    }
    assert(trim_start(line) == line);
    if key.len() == 0 {
        assert(line.last() == FIELD_SEPARATOR);
    } else {
        assert(line.last() == key.last());
    }
    assert(trim_end(line) == line);
    // Separator positions.
    lemma_positions_of_plain_suffix(Seq::empty(), text);
    assert(Seq::<char>::empty() + text =~= text);
    let p1 = text + bar;
    assert(p1.drop_last() =~= text);
    assert(separator_positions(p1) == seq![text.len() as int]);
    lemma_positions_of_plain_suffix(p1, raw);
    let p2 = p1 + raw + bar;
    assert(p2.drop_last() =~= p1 + raw);
    assert(separator_positions(p2) == seq![text.len() as int, (text.len() + 1 + raw.len()) as int]);
    lemma_positions_of_plain_suffix(p2, key);
    assert(line =~= p2 + key);
    let seps = separator_positions(line);
    assert(seps == seq![text.len() as int, (text.len() + 1 + raw.len()) as int]);
    assert(field(line, 0) =~= text);
    assert(field(line, 1) =~= raw);
    assert(field(line, 2) =~= key);
}

} // verus!
