//! Text extraction decisions: truncation and caret presence.
//!
//! A matched element's selection is a sequence of text ranges; the foreign
//! calls hand their raw text back, and the library materializes each one
//! truncated to a caller-chosen bound so that no pathological range can
//! produce an unbounded read. The caret is reported by the provider as an
//! "is active" flag plus an optional range; a caret exists only when both
//! the flag is true and the range is present.

use vstd::prelude::*;

verus! {

/// The first `max` characters of `s`, or all of `s` when it is short
/// enough.
pub open spec fn truncated(s: Seq<char>, max: nat) -> Seq<char> {
    if s.len() <= max {
        s
    } else {
        s.subrange(0, max as int)
    }
}

/// Materializes `text` truncated to at most `max_chars` characters.
pub fn truncate_chars(text: &str, max_chars: usize) -> (r: String)
    ensures
        r@ == truncated(text@, max_chars as nat),
        r@.len() <= max_chars,
{
    let len = text.unicode_len();
    if len <= max_chars {
        text.to_owned()
    } else {
        let sub = text.substring_char(0, max_chars);
        sub.to_owned()
    }
}

/// Materializes a selection: one string per selected range, each the raw
/// text of that range truncated to `max_chars_per_range` characters, in
/// the provider's selection order.
pub fn extract_selection(raw_texts: &Vec<String>, max_chars_per_range: usize) -> (r: Vec<String>)
    ensures
        r@.len() == raw_texts@.len(),
        forall|i: int|
            0 <= i < r@.len() ==> #[trigger] r@[i]@ == truncated(
                raw_texts@[i]@,
                max_chars_per_range as nat,
            ),
        forall|i: int| 0 <= i < r@.len() ==> #[trigger] r@[i]@.len() <= max_chars_per_range,
{
    let mut out: Vec<String> = Vec::new();
    let mut i: usize = 0;
    while i < raw_texts.len()
        invariant
            i <= raw_texts.len(),
            out@.len() == i,
            forall|j: int|
                0 <= j < i ==> #[trigger] out@[j]@ == truncated(
                    raw_texts@[j]@,
                    max_chars_per_range as nat,
                ),
            forall|j: int| 0 <= j < i ==> #[trigger] out@[j]@.len() <= max_chars_per_range,
        decreases raw_texts.len() - i,
    {
        let t = truncate_chars(raw_texts[i].as_str(), max_chars_per_range);
        out.push(t);
        i = i + 1;
    }
    out
}

/// Decides whether a caret is present and materializes its text. The
/// provider reports an "is active" flag and, independently, an optional
/// range whose raw text is handed in here; a caret exists only when the
/// flag is true and the range was present, and its text is truncated like
/// any selection range.
pub fn extract_caret(is_active: bool, raw_text: Option<String>, max_chars: usize) -> (r: Option<
    String,
>)
    ensures
        r is Some <==> (is_active && raw_text is Some),
        (match r {
            Some(t) => t@ == truncated(raw_text->Some_0@, max_chars as nat) && t@.len()
                <= max_chars,
            None => true,
        }),
{
    if is_active {
        match raw_text {
            Some(raw) => Some(truncate_chars(raw.as_str(), max_chars)),
            None => None,
        }
    } else {
        None
    }
}

} // verus!
