//! Building the report emitted after a successful extraction: one line per
//! selection range, carrying its index and text, and one trailing caret
//! line when a caret range was found.

use vstd::prelude::*;
use crate::extract::{extract_caret, extract_selection, truncated};

verus! {

/// The character for one decimal digit.
pub open spec fn digit_char(d: int) -> char {
    if d == 0 {
        '0'
    } else if d == 1 {
        '1'
    } else if d == 2 {
        '2'
    } else if d == 3 {
        '3'
    } else if d == 4 {
        '4'
    } else if d == 5 {
        '5'
    } else if d == 6 {
        '6'
    } else if d == 7 {
        '7'
    } else if d == 8 {
        '8'
    } else {
        '9'
    }
}

/// The decimal digits of a non-negative number, most significant first,
/// with no leading zeros (a single zero for 0).
pub open spec fn spec_decimal(n: int) -> Seq<char>
    decreases n,
{
    if n < 10 {
        seq![digit_char(n)]
    } else {
        spec_decimal(n / 10).push(digit_char(n % 10))
    }
}

/// The one-character string for a decimal digit.
fn digit_str(d: u64) -> (s: &'static str)
    requires
        d < 10,
    ensures
        s@ =~= seq![digit_char(d as int)],
{
    proof {
        reveal_strlit("0");
        reveal_strlit("1");
        reveal_strlit("2");
        reveal_strlit("3");
        reveal_strlit("4");
        reveal_strlit("5");
        reveal_strlit("6");
        reveal_strlit("7");
        reveal_strlit("8");
        reveal_strlit("9");
    }
    if d == 0 {
        "0"
    } else if d == 1 {
        "1"
    } else if d == 2 {
        "2"
    } else if d == 3 {
        "3"
    } else if d == 4 {
        "4"
    } else if d == 5 {
        "5"
    } else if d == 6 {
        "6"
    } else if d == 7 {
        "7"
    } else if d == 8 {
        "8"
    } else {
        "9"
    }
}

/// Renders a number in decimal.
pub fn decimal(n: u64) -> (s: String)
    ensures
        s@ == spec_decimal(n as int),
    decreases n,
{
    if n < 10 {
        let s = String::from_str(digit_str(n));
        proof {
            assert(s@ =~= spec_decimal(n as int));
        }
        s
    } else {
        let mut s = decimal(n / 10);
        s.append(digit_str(n % 10));
        proof {
            assert(s@ =~= spec_decimal(n as int));
        }
        s
    }
}

/// What one selection line holds: a dash, the range's index in decimal, a
/// line break, and the range's text indented by one space.
pub open spec fn spec_selection_line(index: int, text: Seq<char>) -> Seq<char> {
    "- "@ + spec_decimal(index) + "\n "@ + text
}

/// What the caret line holds.
pub open spec fn spec_caret_line(text: Seq<char>) -> Seq<char> {
    "- Caret\n "@ + text
}

/// Renders the report line for one selection range.
pub fn selection_line(index: u64, text: &str) -> (line: String)
    ensures
        line@ == spec_selection_line(index as int, text@),
{
    let mut line = String::from_str("- ");
    let num = decimal(index);
    line.append(num.as_str());
    line.append("\n ");
    line.append(text);
    proof {
        assert(line@ =~= spec_selection_line(index as int, text@));
    }
    line
}

/// Renders the report line for the caret range.
pub fn caret_line(text: &str) -> (line: String)
    ensures
        line@ == spec_caret_line(text@),
{
    let mut line = String::from_str("- Caret\n ");
    line.append(text);
    line
}

/// Builds the whole report for one poll cycle: one line per selection
/// range, in selection order and carrying its index, then one caret line
/// if and only if a caret was found.
pub fn report_lines(selection: &Vec<String>, caret: &Option<String>) -> (lines: Vec<String>)
    ensures
        lines@.len() == selection@.len() + (if caret is Some {
            1int
        } else {
            0int
        }),
        forall|i: int|
            0 <= i < selection@.len() ==> #[trigger] lines@[i]@ == spec_selection_line(
                i,
                selection@[i]@,
            ),
        caret is Some ==> lines@.last()@ == spec_caret_line(caret->Some_0@),
{
    let mut lines: Vec<String> = Vec::new();
    let mut i: usize = 0;
    while i < selection.len()
        invariant
            i <= selection.len(),
            lines@.len() == i,
            forall|j: int|
                0 <= j < i ==> #[trigger] lines@[j]@ == spec_selection_line(j, selection@[j]@),
        decreases selection.len() - i,
    {
        let line = selection_line(i as u64, selection[i].as_str());
        lines.push(line);
        i = i + 1;
    }
    match caret {
        Some(text) => {
            let line = caret_line(text.as_str());
            lines.push(line);
        },
        None => {},
    }
    lines
}

/// The whole reporting path of one successful cycle: truncates each raw
/// selection text, decides caret presence from the provider's flag and
/// optional range text, and renders the report. One line per selection
/// range in order, then a caret line exactly when the caret was active
/// and its range present.
pub fn extraction_report(
    raw_selection: &Vec<String>,
    caret_active: bool,
    raw_caret: Option<String>,
    max_chars: usize,
) -> (lines: Vec<String>)
    ensures
        lines@.len() == raw_selection@.len() + (if caret_active && raw_caret is Some {
            1int
        } else {
            0int
        }),
        forall|i: int|
            0 <= i < raw_selection@.len() ==> #[trigger] lines@[i]@ == spec_selection_line(
                i,
                truncated(raw_selection@[i]@, max_chars as nat),
            ),
        (caret_active && raw_caret is Some) ==> lines@.last()@ == spec_caret_line(
            truncated(raw_caret->Some_0@, max_chars as nat),
        ),
{
    let selection = extract_selection(raw_selection, max_chars);
    let caret = extract_caret(caret_active, raw_caret, max_chars);
    report_lines(&selection, &caret)
}

} // verus!
