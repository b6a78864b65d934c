//! Messages for code paths that must never run: where the parser finds
//! itself on one, it says which, and what it was looking at.

use crate::decimal::{decimal, lemma_decimal_denotes, push_decimal};
use crate::error::is_single_line;
use vstd::prelude::*;
use vstd::string::*;
use vstd::utf8::*;

verus! {

/// The message for an impossible match arm in `function`, at `line` of its
/// source file.
pub open spec fn unreachable_rule_text(function: Seq<char>, line: nat) -> Seq<char> {
    "Unreachable Rule: "@ + function + " at line "@ + decimal(line)
}

/// Builds the message that says which impossible match arm was taken:
/// the name of the enclosing function and the line of the arm.
pub fn unreachable_rule(function: &str, line: u32) -> (message: String)
    ensures
        message@ == unreachable_rule_text(function@, line as nat),
{
    let mut message = String::from_str("Unreachable Rule: ");
    message.append(function);
    message.append(" at line ");
    push_decimal(&mut message, line);
    message
}

/// The message begins with its label, and is a single line where the
/// function's name is one.
pub proof fn lemma_unreachable_rule_single_line(function: Seq<char>, line: nat)
    ensures
        "Unreachable Rule: "@.is_prefix_of(unreachable_rule_text(function, line)),
        is_single_line(function) ==> is_single_line(unreachable_rule_text(function, line)),
{
    reveal_strlit("Unreachable Rule: ");
    reveal_strlit(" at line ");
    lemma_decimal_denotes(line);
}

/// Whether the last three bytes of `marker` can be cut off: there are three,
/// and they are whole characters.
pub open spec fn has_marker_name(marker: &str) -> bool {
    let bytes = marker.spec_bytes();
    bytes.len() >= 3 && is_char_boundary(bytes, bytes.len() - 3)
}

/// The characters of `marker` before its last three bytes.
pub open spec fn without_marker_name(marker: &str) -> Seq<char>
    recommends
        has_marker_name(marker),
{
    let bytes = marker.spec_bytes();
    decode_utf8(bytes.subrange(0, bytes.len() - 3))
}

/// The path of the function in which a marker stands. A marker is a function
/// with a name of one letter, declared inside the function of interest: its
/// path is that of the function, then `::` and the letter, and this cuts
/// those three bytes off.
pub fn enclosing_function(marker: &str) -> (function: &str)
    requires
        has_marker_name(marker),
    ensures
        function@ == without_marker_name(marker),
{
    let len: usize = marker.as_bytes().len();
    let (function, _) = marker.split_at(len - 3);
    proof {
        encode_utf8_decode_utf8(function@);
    }
    function
}

/// The encoding of two texts in a row is the two encodings in a row.
proof fn lemma_encode_utf8_concat(a: Seq<char>, b: Seq<char>)
    ensures
        encode_utf8(a + b) == encode_utf8(a) + encode_utf8(b),
    decreases a.len(),
{
    if a.len() == 0 {
    } else {
        lemma_encode_utf8_concat(a.drop_first(), b);
        assert((a + b).drop_first() =~= a.drop_first() + b);
    }
}

/// In the encoding of two texts in a row, a character begins where the
/// second text does.
proof fn lemma_char_boundary_between(a: Seq<char>, b: Seq<char>)
    ensures
        is_char_boundary(encode_utf8(a + b), encode_utf8(a).len() as int),
    decreases a.len(),
{
    let bytes = encode_utf8(a + b);
    encode_utf8_valid_utf8(a + b);
    if a.len() > 0 {
        lemma_encode_utf8_concat(a, b);
        lemma_char_boundary_between(a.drop_first(), b);
        encode_utf8_first_scalar(a + b);
        assert((a + b).drop_first() =~= a.drop_first() + b);
        assert(pop_first_scalar(bytes) =~= encode_utf8(a.drop_first() + b));
    }
}

/// For a marker `f` declared in a function, [`enclosing_function`] can be
/// called on the marker's path and returns the function's path.
pub proof fn lemma_marker_names_function(marker: &str, function: Seq<char>)
    requires
        marker@ == function + "::f"@,
    ensures
        has_marker_name(marker),
        without_marker_name(marker) == function,
{
    reveal_strlit("::f");
    let bytes = marker.spec_bytes();
    lemma_encode_utf8_concat(function, "::f"@);
    lemma_char_boundary_between(function, "::f"@);
    is_ascii_chars_encode_utf8("::f"@);
    assert(bytes.subrange(0, bytes.len() - 3) =~= encode_utf8(function));
    encode_utf8_decode_utf8(function);
}

/// The three lines that describe a parse-tree node which no case handles:
/// its rule, its span, its text, in this order.
pub open spec fn debug_case_lines(rule: Seq<char>, span: Seq<char>, text: Seq<char>) -> Seq<
    Seq<char>,
> {
    seq!["Rule::"@ + rule + "=>continue,"@, "Span: "@ + span, "Text: "@ + text]
}

/// The lines bear the labels `Rule:`, `Span:` and `Text:`, in this order,
/// and each is a single line where the three texts it is made from are.
pub proof fn lemma_debug_case_lines_labelled(rule: Seq<char>, span: Seq<char>, text: Seq<char>)
    ensures
        debug_case_lines(rule, span, text).len() == 3,
        "Rule:"@.is_prefix_of(debug_case_lines(rule, span, text)[0]),
        "Span:"@.is_prefix_of(debug_case_lines(rule, span, text)[1]),
        "Text:"@.is_prefix_of(debug_case_lines(rule, span, text)[2]),
        is_single_line(rule) ==> is_single_line(debug_case_lines(rule, span, text)[0]),
        is_single_line(span) ==> is_single_line(debug_case_lines(rule, span, text)[1]),
        is_single_line(text) ==> is_single_line(debug_case_lines(rule, span, text)[2]),
{
    reveal_strlit("Rule::");
    reveal_strlit("=>continue,");
    reveal_strlit("Span: ");
    reveal_strlit("Text: ");
    reveal_strlit("Rule:");
    reveal_strlit("Span:");
    reveal_strlit("Text:");
}

/// Builds the lines to print for a parse-tree node that no case handles,
/// from the node's rule and span as their debug texts and from its source
/// text.
pub fn debug_cases(rule: &str, span: &str, text: &str) -> (lines: Vec<String>)
    ensures
        lines@.len() == 3,
        forall|i: int|
            0 <= i < 3 ==> (#[trigger] lines@[i])@ == debug_case_lines(rule@, span@, text@)[i],
{
    let mut rule_line = String::from_str("Rule::");
    rule_line.append(rule);
    rule_line.append("=>continue,");
    let mut span_line = String::from_str("Span: ");
    span_line.append(span);
    let mut text_line = String::from_str("Text: ");
    text_line.append(text);
    let mut lines: Vec<String> = Vec::new();
    lines.push(rule_line);
    lines.push(span_line);
    lines.push(text_line);
    lines
}

} // verus!
