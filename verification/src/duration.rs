//! Formatting of a duration in seconds as `HH:MM:SS` text.

use crate::text::{
    lemma_newline_free_concat, lemma_pad2_newline_free, newline_free, pad2, pad2_string,
};
use vstd::prelude::*;

verus! {

use vstd::string::StringExecFns;

/// `HH:MM:SS` text for a duration in seconds: hours are zero-padded to at
/// least two digits but grow without bound, minutes and seconds are always
/// exactly two digits.
pub open spec fn duration_text(s: nat) -> Seq<char> {
    pad2(s / 3600) + seq![':'] + pad2((s / 60) % 60) + seq![':'] + pad2(s % 60)
}

/// Renders a duration in seconds as `HH:MM:SS`, the hour field growing
/// beyond two digits when needed.
pub fn human_seconds(s: usize) -> (r: String)
    ensures
        r@ == duration_text(s as nat),
{
    let hours = s / 3600;
    let minutes = (s / 60) % 60;
    let seconds = s % 60;
    let mut out = pad2_string(hours);
    out.append(":");
    let m = pad2_string(minutes);
    out.append(m.as_str());
    out.append(":");
    let q = pad2_string(seconds);
    out.append(q.as_str());
    proof {
        reveal_strlit(":");
        assert(out@ =~= duration_text(s as nat));
    }
    out
}

/// The duration text holds only digits and colons, never a newline.
pub proof fn lemma_duration_text_newline_free(s: nat)
    ensures
        newline_free(duration_text(s)),
{
    lemma_pad2_newline_free(s / 3600);
    lemma_pad2_newline_free((s / 60) % 60);
    lemma_pad2_newline_free(s % 60);
    lemma_newline_free_concat(pad2(s / 3600), seq![':']);
    lemma_newline_free_concat(pad2(s / 3600) + seq![':'], pad2((s / 60) % 60));
    lemma_newline_free_concat(pad2(s / 3600) + seq![':'] + pad2((s / 60) % 60), seq![':']);
    lemma_newline_free_concat(
        pad2(s / 3600) + seq![':'] + pad2((s / 60) % 60) + seq![':'],
        pad2(s % 60),
    );
}

} // verus!
