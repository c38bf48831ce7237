use axinstall::progress::{parse_total, InstallProgress};

#[test]
fn synthetic_stream_reaches_full_progress() {
    let mut lines = vec!["Packages (5):".to_string()];
    for i in 0..5 {
        lines.push(format!("downloading package-{}...", i));
    }
    for i in 0..5 {
        lines.push(format!("installing package-{}...", i));
    }
    let mut p = InstallProgress::new();
    p.observe_stream(&lines);
    assert_eq!(p.total, Some(5));
    assert_eq!(p.downloaded, 5);
    assert_eq!(p.installed, 5);
}

#[test]
fn first_total_announcement_wins() {
    let mut p = InstallProgress::new();
    p.observe_line("Packages (5):");
    p.observe_line("Packages (9):");
    assert_eq!(p.total, Some(5));
}

#[test]
fn unrelated_lines_change_nothing() {
    let mut p = InstallProgress::new();
    p.observe_line("resolving dependencies...");
    p.observe_line("Packages (x):");
    p.observe_line("Packages (12");
    assert_eq!(p.total, None);
    assert_eq!(p.downloaded, 0);
    assert_eq!(p.installed, 0);
}

#[test]
fn parse_total_reads_the_count() {
    assert_eq!(parse_total("Packages (5):"), Some(5));
    assert_eq!(parse_total(":: Packages (123) total"), Some(123));
    assert_eq!(parse_total("Packages ()"), None);
    assert_eq!(parse_total("Packages (5"), None);
    assert_eq!(parse_total("no announcement"), None);
    assert_eq!(parse_total("Packages (00007)"), Some(7));
}

#[test]
fn parse_total_ignores_unrepresentable_counts() {
    assert_eq!(parse_total("Packages (99999999999999999999999999)"), None);
}

#[test]
fn keywords_bump_their_counters() {
    let mut p = InstallProgress::new();
    p.observe_line("downloading linux-6.1...");
    p.observe_line("downloading base...");
    p.observe_line("installing base...");
    assert_eq!(p.downloaded, 2);
    assert_eq!(p.installed, 1);
}

#[test]
fn one_line_can_record_both_events() {
    let mut p = InstallProgress::new();
    p.observe_line("downloading then installing base...");
    assert_eq!(p.downloaded, 1);
    assert_eq!(p.installed, 1);
}
