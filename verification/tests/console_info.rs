use sync_progress::console_info::{announce_line, summary_lines, ConsoleProgressInfo};
use sync_progress::progress::{Progress, ProgressInfo, Stats};
use sync_progress::render::{erase_text, percent_of, render_line};
use sync_progress::truncate::truncate_lossy;
use sync_progress::duration::human_seconds;

#[test]
fn test_truncate_string() {
    let new_text = truncate_lossy("ééé", 2);
    assert_eq!(new_text, "é");
}

#[test]
fn test_human_seconds() {
    assert_eq!("00:00:05", human_seconds(5));
    assert_eq!("00:00:42", human_seconds(42));
    assert_eq!("00:03:05", human_seconds(185));
    assert_eq!("02:04:05", human_seconds(7445));
    assert_eq!("200:00:02", human_seconds(720_002));
}

#[test]
fn human_seconds_boundaries() {
    assert_eq!("00:00:00", human_seconds(0));
    assert_eq!("00:00:59", human_seconds(59));
    assert_eq!("00:01:00", human_seconds(60));
    assert_eq!("00:59:59", human_seconds(3599));
    assert_eq!("01:00:00", human_seconds(3600));
}

#[test]
fn truncate_empty_and_zero_budget() {
    assert_eq!(truncate_lossy("", 0), "");
    assert_eq!(truncate_lossy("", 7), "");
    assert_eq!(truncate_lossy("abc", 0), "");
}

#[test]
fn truncate_whole_text_fits() {
    assert_eq!(truncate_lossy("abc", 3), "abc");
    assert_eq!(truncate_lossy("abc", 10), "abc");
    assert_eq!(truncate_lossy("ééé", 6), "ééé");
}

#[test]
fn truncate_mid_character_replaces() {
    // one byte of the two-byte "é" survives the cut: replaced, not dropped
    assert_eq!(truncate_lossy("é", 1), "\u{fffd}");
    assert_eq!(truncate_lossy("ééé", 3), "é\u{fffd}");
    assert_eq!(truncate_lossy("ééé", 5), "éé\u{fffd}");
}

#[test]
fn width_fallback_is_deterministic() {
    assert_eq!(sync_progress::width::DEFAULT_TERMINAL_WIDTH, 80);
    assert_eq!(sync_progress::width::width_or_default(None), 80);
    assert_eq!(sync_progress::width::width_or_default(None), 80);
    assert_eq!(sync_progress::width::width_or_default(Some((120, 40))), 120);
}

#[test]
fn percent_is_floored() {
    assert_eq!(percent_of(1, 3), 33);
    assert_eq!(percent_of(2, 3), 66);
    assert_eq!(percent_of(50, 100), 50);
    assert_eq!(percent_of(0, 7), 0);
    assert_eq!(percent_of(7, 7), 100);
}

fn snapshot() -> Progress {
    Progress {
        index: 1,
        num_files: 10,
        current_file: String::from("a.txt"),
        file_done: 50,
        file_size: 100,
        eta: 65,
    }
}

#[test]
fn render_line_exact_at_width_80() {
    let line = render_line(&snapshot(), 80);
    // widgets: 3 + 1 (index) + 2 (total) + 8 (eta); separators 5; return 1
    let file_width = 80 - (3 + 1 + 2 + 8) - 5 - 1;
    let mut expected = String::from(" 50% 1/10 a.txt");
    for _ in 0..file_width - "a.txt".len() {
        expected.push(' ');
    }
    expected.push_str(" 00:01:05\r");
    assert_eq!(line, expected);
    assert_eq!(line.len(), 80);
    assert!(line.ends_with('\r'));
    assert!(!line.contains('\n'));
}

#[test]
fn render_line_narrow_terminal_clamps() {
    // too narrow for the fixed widgets: the filename budget clamps to zero
    let line = render_line(&snapshot(), 10);
    assert_eq!(line, " 50% 1/10  00:01:05\r");
}

#[test]
fn render_line_percent_floored_in_line() {
    let p = Progress {
        index: 2,
        num_files: 3,
        current_file: String::from("b"),
        file_done: 1,
        file_size: 3,
        eta: 0,
    };
    let line = render_line(&p, 40);
    assert!(line.starts_with(" 33% 2/3 "));
}

#[test]
fn render_line_truncates_multibyte_name() {
    let p = Progress {
        index: 1,
        num_files: 10,
        current_file: String::from("ééé"),
        file_done: 50,
        file_size: 100,
        eta: 65,
    };
    // fixed widgets take 20 columns, so width 23 leaves a 3-byte name budget:
    // one whole two-byte character fits, the severed one becomes U+FFFD, and
    // one space pads the field to its 3-column budget
    let line = render_line(&p, 23);
    assert_eq!(line, " 50% 1/10 é\u{fffd}  00:01:05\r");
}

#[test]
fn erase_text_is_spaces_then_return() {
    assert_eq!(erase_text(5), "     \r");
    assert_eq!(erase_text(0), "\r");
}

#[test]
fn announce_line_exact() {
    assert_eq!(
        announce_line("::", "/src", "/dst"),
        ":: Syncing from /src to /dst …\n"
    );
}

#[test]
fn summary_lines_exact() {
    let stats = Stats {
        num_synced: 10,
        up_to_date: 3,
        copied: 7,
        symlink_created: 1,
        symlink_updated: 0,
    };
    assert_eq!(
        summary_lines("+", &stats),
        "+ Synced 10 files (3 up to date)\n7 files copied, 1 symlinks created, 0 symlinks updated\n"
    );
}

#[test]
fn end_to_end_scenario() {
    let sink = ConsoleProgressInfo::new();

    let started = sink.start("/src", "/dst");
    assert!(started.contains("Syncing from"));
    assert!(started.contains("/src"));
    assert!(started.contains("/dst"));
    assert!(started.ends_with('\n'));

    assert_eq!(sink.new_file("a.txt"), "");

    let line = sink.progress(&snapshot());
    assert!(line.contains("50% 1/10"));
    assert!(line.contains("00:01:05"));
    assert!(line.ends_with('\r'));
    assert!(!line.contains('\n'));

    let erased = sink.done_syncing();
    assert!(erased.ends_with('\r'));
    assert!(erased[..erased.len() - 1].chars().all(|c| c == ' '));

    let stats = Stats {
        num_synced: 10,
        up_to_date: 3,
        copied: 7,
        symlink_created: 1,
        symlink_updated: 0,
    };
    let summary = sink.end(&stats);
    assert!(summary.contains(" Synced 10 files (3 up to date)\n"));
    assert!(summary.ends_with("7 files copied, 1 symlinks created, 0 symlinks updated\n"));
}
