use vstd::prelude::*;

verus! {

/// How a comment marks its lines, as the markup scanner is told.
#[derive(Clone, Copy, Debug, PartialEq, Eq, Structural)]
pub struct CommentOptions {
    /// Each line starts with `//` and one more character.
    pub line_comment: bool,
    /// Lines may start with `*`.
    pub inline_comment: bool,
    /// The character after the comment opener is `!`.
    pub uses_exclamation_mark: bool,
    /// The opener may be followed by `<`.
    pub extra_angled_bracket: bool,
}

/// The options of comments that open with no recognized prefix.
pub open spec fn no_comment_options() -> CommentOptions {
    CommentOptions { line_comment: false, inline_comment: false, uses_exclamation_mark: false, extra_angled_bracket: false }
}

/// The comment options that a comment's opening prefix calls for.
pub open spec fn spec_options_from_prefix(prefix: Seq<char>) -> CommentOptions {
    let line = CommentOptions { line_comment: true, ..no_comment_options() };
    let inline = CommentOptions { inline_comment: true, ..no_comment_options() };
    if prefix == "///"@ {
        line
    } else if prefix == "///<"@ {
        CommentOptions { extra_angled_bracket: true, ..line }
    } else if prefix == "//!"@ {
        CommentOptions { uses_exclamation_mark: true, ..line }
    } else if prefix == "//!<"@ {
        CommentOptions { uses_exclamation_mark: true, extra_angled_bracket: true, ..line }
    } else if prefix == "/**"@ {
        inline
    } else if prefix == "/**<"@ {
        CommentOptions { extra_angled_bracket: true, ..inline }
    } else if prefix == "/*!"@ {
        CommentOptions { uses_exclamation_mark: true, ..inline }
    } else if prefix == "/*!<"@ {
        CommentOptions { uses_exclamation_mark: true, extra_angled_bracket: true, ..inline }
    } else {
        no_comment_options()
    }
}

/// The comment options for a comment that opens with `prefix`.
pub fn options_from_prefix(prefix: &str) -> (r: CommentOptions)
    ensures
        r == spec_options_from_prefix(prefix@),
{
    let none = CommentOptions { line_comment: false, inline_comment: false, uses_exclamation_mark: false, extra_angled_bracket: false };
    let line = CommentOptions { line_comment: true, ..none };
    let inline = CommentOptions { inline_comment: true, ..none };
    if crate::compiler::strings::str_eq(prefix, "///") {
        line
    } else if crate::compiler::strings::str_eq(prefix, "///<") {
        CommentOptions { extra_angled_bracket: true, ..line }
    } else if crate::compiler::strings::str_eq(prefix, "//!") {
        CommentOptions { uses_exclamation_mark: true, ..line }
    } else if crate::compiler::strings::str_eq(prefix, "//!<") {
        CommentOptions { uses_exclamation_mark: true, extra_angled_bracket: true, ..line }
    } else if crate::compiler::strings::str_eq(prefix, "/**") {
        inline
    } else if crate::compiler::strings::str_eq(prefix, "/**<") {
        CommentOptions { extra_angled_bracket: true, ..inline }
    } else if crate::compiler::strings::str_eq(prefix, "/*!") {
        CommentOptions { uses_exclamation_mark: true, ..inline }
    } else if crate::compiler::strings::str_eq(prefix, "/*!<") {
        CommentOptions { uses_exclamation_mark: true, extra_angled_bracket: true, ..inline }
    } else {
        none
    }
}

/// Whether a byte, read as a character, is white space.
pub open spec fn is_whitespace_byte(c: u8) -> bool {
    (9 <= c && c <= 13) || c == 32 || c == 0x85 || c == 0xA0
}

/// The number of white-space bytes that `text` starts with from `i`.
pub open spec fn leading_whitespace(text: Seq<u8>, i: int) -> int
    decreases text.len() - i,
{
    if i >= text.len() || !is_whitespace_byte(text[i]) {
        i
    } else {
        leading_whitespace(text, i + 1)
    }
}

/// Whether a byte is a blank that may separate the comment marker from the text.
pub open spec fn is_blank(c: u8) -> bool {
    c == 9 || c == 0x0b || c == 0x0c || c == 32
}

/// Where the comment marker of a line ends, after the white space before it and at most one blank
/// after it; where the line holds only white space, or its marker does not match, nothing of it
/// is a marker.
pub open spec fn spec_scan_line(text: Seq<u8>, o: CommentOptions) -> int {
    let ws = leading_whitespace(text, 0);
    let at = |k: int, b: u8| ws + k < text.len() && text[ws + k] == b;
    let marker: Option<int> = if o.line_comment {
        if at(0, 47) && at(1, 47) && ws + 2 < text.len() {
            Some(if o.extra_angled_bracket && at(3, 60) { ws + 4 } else { ws + 3 })
        } else {
            None
        }
    } else if o.inline_comment {
        if at(0, 47) && at(1, 42) {
            Some(if o.extra_angled_bracket && at(1, 60) { ws + 2 } else { ws + 1 })
        } else if at(0, 42) {
            Some(ws + 1)
        } else {
            None
        }
    } else {
        Some(ws)
    };
    if ws >= text.len() {
        0
    } else {
        match marker {
            None => 0,
            Some(ix) => if ix < text.len() && is_blank(text[ix]) { ix + 1 } else { ix },
        }
    }
}

proof fn lemma_leading_whitespace(text: Seq<u8>, i: int)
    requires
        0 <= i <= text.len(),
    ensures
        i <= leading_whitespace(text, i) <= text.len(),
    decreases text.len() - i,
{
    if i < text.len() && is_whitespace_byte(text[i]) {
        lemma_leading_whitespace(text, i + 1);
    }
}

/// Whether `text[ix]` is white space.
fn is_whitespace_at(text: &[u8], ix: usize) -> (r: bool)
    requires
        ix < text@.len(),
    ensures
        r == is_whitespace_byte(text@[ix as int]),
{
    let c = text[ix];
    (9 <= c && c <= 13) || c == 32 || c == 0x85 || c == 0xA0
}

/// Whether `text[ix]` is the byte `b`.
fn byte_at(text: &[u8], ix: usize, b: u8) -> (r: bool)
    ensures
        r == (ix < text@.len() && text@[ix as int] == b),
{
    ix < text.len() && text[ix] == b
}

/// The number of bytes at the start of a comment line that belong to its comment marker: the
/// white space before it, the marker itself, and one blank after it.
pub fn externally_scan_line(text: &[u8], options: CommentOptions) -> (r: usize)
    requires
        !(options.inline_comment && options.line_comment),
    ensures
        r as int == spec_scan_line(text@, options),
{
    proof {
        lemma_leading_whitespace(text@, 0);
    }
    let mut ix: usize = 0;
    while ix < text.len() && is_whitespace_at(text, ix)
        invariant
            ix <= text@.len(),
            leading_whitespace(text@, ix as int) == leading_whitespace(text@, 0),
        decreases text@.len() - ix,
    {
        ix = ix + 1;
    }
    if ix >= text.len() {
        return 0;
    }
    if options.line_comment {
        if byte_at(text, ix, 47u8) && byte_at(text, ix + 1, 47u8) {
            ix = ix + 2;
        } else {
            return 0;
        }
        if ix < text.len() {
            ix = ix + 1;
        } else {
            return 0;
        }
        if options.extra_angled_bracket {
            if byte_at(text, ix, 60u8) {
                ix = ix + 1;
            }
        }
    } else if options.inline_comment {
        if byte_at(text, ix, 47u8) && byte_at(text, ix + 1, 42u8) {
            ix = ix + 1;
            if options.extra_angled_bracket {
                if byte_at(text, ix, 60u8) {
                    ix = ix + 1;
                }
            }
        } else if byte_at(text, ix, 42u8) {
            ix = ix + 1;
        } else {
            return 0;
        }
    }
    if ix < text.len() && (text[ix] == 9 || text[ix] == 0x0b || text[ix] == 0x0c || text[ix] == 32) {
        ix = ix + 1;
    }
    ix
}

} // verus!
