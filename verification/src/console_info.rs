//! The console sink: composes the renderer, the width provider, the
//! truncator and the duration formatter into the text for each lifecycle
//! event of one sync run.

use crate::progress::{Progress, ProgressInfo, Stats};
use crate::render::{erase_text, render_line, rendered};
use crate::style::{bolded, colorized, esc_free, styled_from};
use crate::text::{dec_rep, dec_string, spaces};
use crate::width::get_terminal_width;
use vstd::prelude::*;

verus! {

use vstd::string::StringExecFns;

/// Announcement text: a marker, the source and the destination in one
/// newline-terminated sentence.
pub open spec fn announce_text(
    marker: Seq<char>,
    source: Seq<char>,
    destination: Seq<char>,
) -> Seq<char> {
    marker + " Syncing from "@ + source + " to "@ + destination + " \u{2026}\n"@
}

/// Summary text: two newline-terminated lines, a marker and the synced and
/// up-to-date counts on the first, the copied and symlink counts on the
/// second.
pub open spec fn summary_text(
    marker: Seq<char>,
    num_synced: nat,
    up_to_date: nat,
    copied: nat,
    symlink_created: nat,
    symlink_updated: nat,
) -> Seq<char> {
    marker + " Synced "@ + dec_rep(num_synced) + " files ("@ + dec_rep(up_to_date)
        + " up to date)\n"@ + dec_rep(copied) + " files copied, "@ + dec_rep(symlink_created)
        + " symlinks created, "@ + dec_rep(symlink_updated) + " symlinks updated\n"@
}

/// Composes the announcement line from an already-styled marker, source and
/// destination.
pub fn announce_line(marker: &str, source: &str, destination: &str) -> (r: String)
    ensures
        r@ == announce_text(marker@, source@, destination@),
{
    let mut out = String::from_str(marker);
    out.append(" Syncing from ");
    out.append(source);
    out.append(" to ");
    out.append(destination);
    out.append(" \u{2026}\n");
    proof {
        assert(out@ =~= announce_text(marker@, source@, destination@));
    }
    out
}

/// Composes the two summary lines from an already-styled marker and the
/// final counters.
pub fn summary_lines(marker: &str, stats: &Stats) -> (r: String)
    ensures
        r@ == summary_text(
            marker@,
            stats.num_synced as nat,
            stats.up_to_date as nat,
            stats.copied as nat,
            stats.symlink_created as nat,
            stats.symlink_updated as nat,
        ),
{
    let mut out = String::from_str(marker);
    out.append(" Synced ");
    let synced = dec_string(stats.num_synced);
    out.append(synced.as_str());
    out.append(" files (");
    let up_to_date = dec_string(stats.up_to_date);
    out.append(up_to_date.as_str());
    out.append(" up to date)\n");
    let copied = dec_string(stats.copied);
    out.append(copied.as_str());
    out.append(" files copied, ");
    let created = dec_string(stats.symlink_created);
    out.append(created.as_str());
    out.append(" symlinks created, ");
    let updated = dec_string(stats.symlink_updated);
    out.append(updated.as_str());
    out.append(" symlinks updated\n");
    proof {
        assert(out@ =~= summary_text(
            marker@,
            stats.num_synced as nat,
            stats.up_to_date as nat,
            stats.copied as nat,
            stats.symlink_created as nat,
            stats.symlink_updated as nat,
        ));
    }
    out
}

/// The console implementation of [`ProgressInfo`]: renders against the
/// terminal width, queried afresh on every call.
#[derive(Default)]
pub struct ConsoleProgressInfo {}

impl ConsoleProgressInfo {
    pub fn new() -> ConsoleProgressInfo {
        ConsoleProgressInfo {  }
    }
}

impl ProgressInfo for ConsoleProgressInfo {
    /// The announcement, with the marker colored and the paths emphasized;
    /// styling may wrap each part in escape codes but never rewrites it.
    fn start(&self, source: &str, destination: &str) -> (r: String)
        ensures
            esc_free(source@) && esc_free(destination@) ==> exists|m: Seq<char>, s: Seq<char>, d: Seq<char>|
                {
                    &&& styled_from(m, "::"@)
                    &&& styled_from(s, source@)
                    &&& styled_from(d, destination@)
                    &&& r@ == announce_text(m, s, d)
                },
    {
        proof {
            reveal_strlit("blue");
            assert(vstd::utf8::is_ascii_chars("blue"@));
        }
        let marker = colorized("::", "blue");
        let src = bolded(source);
        let dst = bolded(destination);
        let out = announce_line(marker.as_str(), src.as_str(), dst.as_str());
        proof {
            reveal_strlit("::");
            if esc_free(source@) && esc_free(destination@) {
                assert(esc_free("::"@));
                assert(styled_from(marker@, "::"@) && styled_from(src@, source@) && styled_from(
                    dst@,
                    destination@,
                ) && out@ == announce_text(marker@, src@, dst@));
            }
        }
        out
    }

    /// Reserved hook: the console sink emits nothing for a new file.
    fn new_file(&self, _name: &str) -> (r: String)
        ensures
            r@ == Seq::<char>::empty(),
    {
        String::new()
    }

    /// One status line laid out against the terminal width at the moment of
    /// the call.
    fn progress(&self, p: &Progress) -> (r: String)
        ensures
            exists|w: nat|
                r@ == rendered(
                    p.index as nat,
                    p.num_files as nat,
                    p.current_file@,
                    p.file_done as nat,
                    p.file_size as nat,
                    p.eta as nat,
                    w,
                ),
    {
        let width = get_terminal_width();
        let out = render_line(p, width);
        proof {
            assert(out@ == rendered(
                p.index as nat,
                p.num_files as nat,
                p.current_file@,
                p.file_done as nat,
                p.file_size as nat,
                p.eta as nat,
                width as nat,
            ));
        }
        out
    }

    /// A row of spaces as wide as the terminal at the moment of the call,
    /// ending in a carriage return, so the summary starts on a clean line.
    fn done_syncing(&self) -> (r: String)
        ensures
            exists|w: nat| r@ == spaces(w) + "\r"@,
    {
        let width = get_terminal_width();
        let out = erase_text(width);
        proof {
            assert(out@ == spaces(width as nat) + "\r"@);
        }
        out
    }

    /// The two summary lines, with the marker colored; styling may wrap the
    /// marker but never rewrites it.
    fn end(&self, stats: &Stats) -> (r: String)
        ensures
            exists|m: Seq<char>|
                {
                    &&& styled_from(m, " \u{2713}"@)
                    &&& r@ == summary_text(
                        m,
                        stats.num_synced as nat,
                        stats.up_to_date as nat,
                        stats.copied as nat,
                        stats.symlink_created as nat,
                        stats.symlink_updated as nat,
                    )
                },
    {
        proof {
            reveal_strlit("green");
            assert(vstd::utf8::is_ascii_chars("green"@));
        }
        let marker = colorized(" \u{2713}", "green");
        proof {
            reveal_strlit(" \u{2713}");
            assert(esc_free(" \u{2713}"@));
        }
        let out = summary_lines(marker.as_str(), stats);
        proof {
            assert(styled_from(marker@, " \u{2713}"@) && out@ == summary_text(
                marker@,
                stats.num_synced as nat,
                stats.up_to_date as nat,
                stats.copied as nat,
                stats.symlink_created as nat,
                stats.symlink_updated as nat,
            ));
        }
        out
    }
}

} // verus!
