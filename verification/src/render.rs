//! Fixed-budget layout of one progress line, and line erasure.
//!
//! Each tick is laid out against the current terminal width: the percent
//! field takes three columns, the index, total and ETA fields take their
//! natural widths, five separators and one trailing column for the carriage
//! return are reserved, and whatever remains is the byte budget for the
//! filename. Widths are recomputed on every call, so the layout may shift
//! when the index grows past a power of ten; a terminal too narrow for the
//! fixed widgets clamps the filename budget to zero instead of failing.

use crate::duration::{duration_text, human_seconds, lemma_duration_text_newline_free};
use crate::progress::Progress;
use crate::text::{
    dec_rep, dec_string, lemma_dec_rep_len_bound, lemma_dec_rep_newline_free,
    lemma_newline_free_concat, lemma_spaces_newline_free, newline_free, pow10, space_string,
    spaces,
};
use crate::truncate::{lemma_truncate_newline_free, lossy_truncated, truncate_lossy};
use vstd::arithmetic::div_mod::{lemma_div_by_multiple, lemma_div_is_ordered};
use vstd::prelude::*;

verus! {

use vstd::string::StrSliceExecFns;
use vstd::string::StringExecFns;

/// The integer percentage of a transfer: floored, never rounded.
pub open spec fn percent(done: nat, size: nat) -> nat
    recommends
        0 < size,
{
    done * 100 / size
}

/// Text padded on the left with spaces to at least `w` characters.
pub open spec fn left_pad(s: Seq<char>, w: nat) -> Seq<char> {
    if s.len() >= w {
        s
    } else {
        spaces((w - s.len()) as nat) + s
    }
}

/// Text padded on the right with spaces to at least `w` characters.
pub open spec fn right_pad(s: Seq<char>, w: nat) -> Seq<char> {
    if s.len() >= w {
        s
    } else {
        s + spaces((w - s.len()) as nat)
    }
}

/// The filename field's byte budget: the width left after the percent field
/// (three columns), the index, total and ETA fields, five separators and the
/// trailing carriage-return column — clamped to zero when the terminal is
/// too narrow for the fixed widgets.
pub open spec fn file_budget(width: nat, index_width: nat, total_width: nat, eta_width: nat) -> nat {
    let fixed = 3 + index_width + total_width + eta_width + 5 + 1;
    if width >= fixed {
        (width - fixed) as nat
    } else {
        0
    }
}

/// The full progress line for one snapshot at one terminal width: percent
/// right-aligned in three columns, index/total, the filename truncated to
/// its byte budget and padded to that budget with spaces, the ETA, and a
/// trailing carriage return so the next tick overwrites the line in place.
pub open spec fn rendered(
    index: nat,
    num_files: nat,
    name: Seq<char>,
    done: nat,
    size: nat,
    eta: nat,
    width: nat,
) -> Seq<char> {
    let eta_text = duration_text(eta);
    let idx_text = dec_rep(index);
    let tot_text = dec_rep(num_files);
    let budget = file_budget(width, idx_text.len(), tot_text.len(), eta_text.len());
    left_pad(dec_rep(percent(done, size)), 3) + "% "@ + idx_text + "/"@ + tot_text + " "@
        + right_pad(lossy_truncated(name, budget), budget) + " "@ + eta_text + "\r"@
}

/// A transfer within bounds is never more than fully done: the floored
/// percentage cannot exceed one hundred.
pub proof fn lemma_percent_le_100(done: nat, size: nat)
    requires
        0 < size,
        done <= size,
    ensures
        percent(done, size) <= 100,
{
    assert((done as int) * 100 <= (size as int) * 100) by (nonlinear_arith)
        requires
            done <= size,
    ;
    lemma_div_is_ordered((done as int) * 100, (size as int) * 100, size as int);
    lemma_div_by_multiple(100, size as int);
    assert((size as int) * 100 == 100 * (size as int)) by (nonlinear_arith);
}

/// Floored integer percentage, exact for any byte counts within bounds.
pub fn percent_of(file_done: usize, file_size: usize) -> (r: usize)
    requires
        0 < file_size,
        file_done <= file_size,
    ensures
        r == percent(file_done as nat, file_size as nat),
        r <= 100,
{
    let pct_wide: u128 = (file_done as u128) * 100 / (file_size as u128);
    proof {
        lemma_percent_le_100(file_done as nat, file_size as nat);
    }
    pct_wide as usize
}

/// Lays out one progress line for a snapshot at the given terminal width.
pub fn render_line(p: &Progress, width: usize) -> (r: String)
    requires
        p.wf(),
    ensures
        r@ == rendered(
            p.index as nat,
            p.num_files as nat,
            p.current_file@,
            p.file_done as nat,
            p.file_size as nat,
            p.eta as nat,
            width as nat,
        ),
{
    let eta_str = human_seconds(p.eta);
    let eta_width = eta_str.as_str().unicode_len();
    let idx_str = dec_string(p.index);
    let index_width = idx_str.as_str().unicode_len();
    let tot_str = dec_string(p.num_files);
    let total_width = tot_str.as_str().unicode_len();
    // widget widths and separators, summed in u128 so the sum cannot overflow
    let fixed: u128 = 3 + index_width as u128 + total_width as u128 + eta_width as u128 + 5 + 1;
    let file_width: usize = if (width as u128) >= fixed {
        (width as u128 - fixed) as usize
    } else {
        0
    };
    proof {
        assert(file_width as nat == file_budget(
            width as nat,
            dec_rep(p.index as nat).len(),
            dec_rep(p.num_files as nat).len(),
            duration_text(p.eta as nat).len(),
        ));
    }
    let pct = percent_of(p.file_done, p.file_size);
    let pct_str = dec_string(pct);
    let pct_width = pct_str.as_str().unicode_len();
    let mut out = if pct_width < 3 {
        let mut pad = space_string(3 - pct_width);
        pad.append(pct_str.as_str());
        pad
    } else {
        pct_str
    };
    out.append("% ");
    out.append(idx_str.as_str());
    out.append("/");
    out.append(tot_str.as_str());
    out.append(" ");
    let mut name_field = truncate_lossy(p.current_file.as_str(), file_width);
    let name_width = name_field.as_str().unicode_len();
    if name_width < file_width {
        let pad = space_string(file_width - name_width);
        name_field.append(pad.as_str());
    }
    out.append(name_field.as_str());
    out.append(" ");
    out.append(eta_str.as_str());
    out.append("\r");
    proof {
        assert(out@ =~= rendered(
            p.index as nat,
            p.num_files as nat,
            p.current_file@,
            p.file_done as nat,
            p.file_size as nat,
            p.eta as nat,
            width as nat,
        ));
    }
    out
}

/// Layout invariant: for a snapshot within bounds and a terminal wide
/// enough that the filename budget is nonnegative, the rendered line fills
/// the width exactly — the three-column percent field, the index, total and
/// ETA fields, five separator characters, the padded filename field and the
/// trailing carriage-return column — and it ends in a carriage return, not
/// a newline.
pub proof fn lemma_layout_invariant(
    index: nat,
    num_files: nat,
    name: Seq<char>,
    done: nat,
    size: nat,
    eta: nat,
    width: nat,
)
    requires
        0 < size,
        done <= size,
        width >= 3 + dec_rep(index).len() + dec_rep(num_files).len() + duration_text(eta).len()
            + 6,
    ensures
        rendered(index, num_files, name, done, size, eta, width).len() == width,
        rendered(index, num_files, name, done, size, eta, width).last() == '\r',
{
    reveal_strlit("% ");
    reveal_strlit("/");
    reveal_strlit(" ");
    reveal_strlit("\r");
    let line = rendered(index, num_files, name, done, size, eta, width);
    let iw = dec_rep(index).len();
    let tw = dec_rep(num_files).len();
    let ew = duration_text(eta).len();
    let budget = file_budget(width, iw, tw, ew);
    lemma_percent_le_100(done, size);
    assert(pow10(3) == 1000) by {
        reveal_with_fuel(pow10, 4);
    }
    lemma_dec_rep_len_bound(percent(done, size), 3);
    assert(left_pad(dec_rep(percent(done, size)), 3).len() == 3);
    crate::truncate::lemma_truncate_char_count(name, budget);
    assert(right_pad(lossy_truncated(name, budget), budget).len() == budget);
    assert(line.len() == 3 + 2 + iw + 1 + tw + 1 + budget + 1 + ew + 1);
    assert(line.last() == '\r');
}

/// The rendered line never spills onto a next terminal row: at every width
/// it ends in a carriage return, and — provided the filename itself holds
/// no newline — no newline appears anywhere in it, so the next tick's line
/// overwrites it in place. (A filename holding a newline lands in the line
/// verbatim.)
pub proof fn lemma_rendered_single_line(
    index: nat,
    num_files: nat,
    name: Seq<char>,
    done: nat,
    size: nat,
    eta: nat,
    width: nat,
)
    requires
        newline_free(name),
    ensures
        rendered(index, num_files, name, done, size, eta, width).last() == '\r',
        newline_free(rendered(index, num_files, name, done, size, eta, width)),
{
    reveal_strlit("% ");
    reveal_strlit("/");
    reveal_strlit(" ");
    reveal_strlit("\r");
    let eta_text = duration_text(eta);
    let idx_text = dec_rep(index);
    let tot_text = dec_rep(num_files);
    let budget = file_budget(width, idx_text.len(), tot_text.len(), eta_text.len());
    let pct_text = left_pad(dec_rep(percent(done, size)), 3);
    let name_text = right_pad(lossy_truncated(name, budget), budget);
    assert(newline_free(pct_text)) by {
        lemma_dec_rep_newline_free(percent(done, size));
        lemma_spaces_newline_free((3 - dec_rep(percent(done, size)).len()) as nat);
        if dec_rep(percent(done, size)).len() < 3 {
            lemma_newline_free_concat(
                spaces((3 - dec_rep(percent(done, size)).len()) as nat),
                dec_rep(percent(done, size)),
            );
        }
    }
    assert(newline_free(name_text)) by {
        lemma_truncate_newline_free(name, budget);
        lemma_spaces_newline_free((budget - lossy_truncated(name, budget).len()) as nat);
        if lossy_truncated(name, budget).len() < budget {
            lemma_newline_free_concat(
                lossy_truncated(name, budget),
                spaces((budget - lossy_truncated(name, budget).len()) as nat),
            );
        }
    }
    lemma_dec_rep_newline_free(index);
    lemma_dec_rep_newline_free(num_files);
    lemma_duration_text_newline_free(eta);
    lemma_newline_free_concat(pct_text, "% "@);
    lemma_newline_free_concat(pct_text + "% "@, idx_text);
    lemma_newline_free_concat(pct_text + "% "@ + idx_text, "/"@);
    lemma_newline_free_concat(pct_text + "% "@ + idx_text + "/"@, tot_text);
    lemma_newline_free_concat(pct_text + "% "@ + idx_text + "/"@ + tot_text, " "@);
    lemma_newline_free_concat(pct_text + "% "@ + idx_text + "/"@ + tot_text + " "@, name_text);
    lemma_newline_free_concat(
        pct_text + "% "@ + idx_text + "/"@ + tot_text + " "@ + name_text,
        " "@,
    );
    lemma_newline_free_concat(
        pct_text + "% "@ + idx_text + "/"@ + tot_text + " "@ + name_text + " "@,
        eta_text,
    );
    lemma_newline_free_concat(
        pct_text + "% "@ + idx_text + "/"@ + tot_text + " "@ + name_text + " "@ + eta_text,
        "\r"@,
    );
    assert(rendered(index, num_files, name, done, size, eta, width).last() == '\r');
}

/// The text that blanks one terminal row: a run of spaces the width of the
/// terminal, then a carriage return and no newline.
pub fn erase_text(width: usize) -> (r: String)
    ensures
        r@ == spaces(width as nat) + "\r"@,
{
    let mut s = space_string(width);
    s.append("\r");
    s
}

} // verus!
