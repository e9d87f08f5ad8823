//! Terminal width discovery with a fixed fallback.
//!
//! The width is queried afresh on every render, never cached: the terminal
//! may be resized between ticks. When no terminal is attached (output
//! redirected to a file) or the query otherwise fails, a fixed default is
//! used instead; the query never fails loudly.

use vstd::prelude::*;

verus! {

/// Column count assumed when no terminal is attached or the query fails.
pub const DEFAULT_TERMINAL_WIDTH: usize = 80;

/// The width chosen for one query outcome: the queried column count when the
/// query succeeded, the fixed fallback when it failed.
pub open spec fn effective_width(d: Option<(usize, usize)>) -> usize {
    match d {
        Some(dims) => dims.0,
        None => DEFAULT_TERMINAL_WIDTH,
    }
}

/// Relies on term_size::dimensions: queries the terminal for its
/// (columns, rows) and returns None when there is no terminal, the query
/// fails, or a reported dimension is zero. The outcome depends on the
/// runtime environment, so nothing is promised of it.
#[verifier::external_body]
fn terminal_dimensions() -> Option<(usize, usize)> {
    term_size::dimensions()
}

/// Applies the fallback rule to one query outcome: deterministic, so a
/// failed query yields the default width on every call.
pub fn width_or_default(d: Option<(usize, usize)>) -> (r: usize)
    ensures
        r == effective_width(d),
{
    match d {
        Some((w, _)) => w,
        None => DEFAULT_TERMINAL_WIDTH,
    }
}

/// Queries the terminal afresh and applies the fallback rule. The result
/// depends on the terminal at the moment of the call, so no two calls are
/// related.
pub fn get_terminal_width() -> usize {
    width_or_default(terminal_dimensions())
}

/// Whenever the width query fails, the chosen width is the fixed default,
/// 80 columns, identically on every call.
pub proof fn lemma_width_fallback()
    ensures
        effective_width(None::<(usize, usize)>) == 80,
{
}

} // verus!
