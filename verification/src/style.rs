//! Styled text through the `colored` crate.
//!
//! Styling is cosmetic and environment-dependent: whether escape codes are
//! emitted depends on the terminal and the environment at run time. The
//! contracts therefore state only the shape every outcome has — the plain
//! text wrapped in some (possibly empty) prefix and suffix, neither holding
//! a line break — and the rendering logic is verified over that shape.

use vstd::prelude::*;
use vstd::utf8::is_ascii_chars;

verus! {

/// True when the text holds neither a newline nor a carriage return, so a
/// wrap of that shape cannot split what it styles across terminal lines.
pub open spec fn break_free(s: Seq<char>) -> bool {
    forall|i: int| 0 <= i < s.len() ==> s[i] != '\n' && s[i] != '\r'
}

/// True when `styled` is `plain` surrounded by some prefix and suffix that
/// hold no line break, the shape of terminal styling: an escape-code prefix
/// and a reset suffix may wrap the text, or it may pass through unchanged
/// (both parts empty).
pub open spec fn styled_from(styled: Seq<char>, plain: Seq<char>) -> bool {
    exists|pre: Seq<char>, post: Seq<char>|
        styled == pre + plain + post && break_free(pre) && break_free(post)
}

/// True when the text holds no ESC character, so that styling can only wrap
/// it, never rewrite it.
pub open spec fn esc_free(s: Seq<char>) -> bool {
    forall|i: int| 0 <= i < s.len() ==> s[i] != '\u{1b}'
}

/// Relies on colored::Colorize::color for &str and on ColoredString's
/// Display: when colors are disabled the input passes through unchanged;
/// when enabled it is wrapped in a style prefix (escape bracket, digits and
/// semicolons, a final letter) and the fixed reset suffix, neither holding a
/// line break, provided the input itself holds no escape sequence (an inner
/// reset would be rewritten, not kept). The color name must be ASCII: an
/// unknown ASCII name falls back to white, but the crate parses names that
/// start with a hash sign by slicing them at byte offsets, which panics when
/// the slice lands inside a multi-byte character.
#[verifier::external_body]
pub(crate) fn colorized(s: &str, color: &str) -> (r: String)
    requires
        is_ascii_chars(color@),
    ensures
        esc_free(s@) ==> styled_from(r@, s@),
{
    colored::Colorize::color(s, color).to_string()
}

/// Relies on colored::Colorize::bold for &str, with the same Display
/// behaviour as `colorized`; it sets a style flag and parses no name, so it
/// has no panic path.
#[verifier::external_body]
pub(crate) fn bolded(s: &str) -> (r: String)
    ensures
        esc_free(s@) ==> styled_from(r@, s@),
{
    colored::Colorize::bold(s).to_string()
}

} // verus!
