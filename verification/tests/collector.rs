use code_reviewer::{DiffCollector, ToolOutcome};

fn ran(success: bool, stdout: Option<&str>) -> ToolOutcome {
    ToolOutcome::Ran {
        success,
        stdout: stdout.map(|s| s.to_string()),
        stderr: String::new(),
    }
}

#[test]
fn test_get_unstaged_changes_no_changes() {
    let collector = DiffCollector::from_listing("");
    assert!(collector.done());
    let changes = collector.into_changes();
    assert!(changes.is_empty());
}

#[test]
fn test_get_unstaged_changes_with_modifications() {
    let mut collector = DiffCollector::from_listing("test.txt\n");
    assert!(!collector.done());
    assert_eq!(collector.next_file().unwrap().as_str(), "test.txt");
    let diff = "diff --git a/test.txt b/test.txt\n-initial content\n+modified content\n";
    collector.record(ran(true, Some(diff)));
    assert!(collector.done());
    let diffs = collector.into_changes();
    assert_eq!(diffs.len(), 1);
    assert_eq!(diffs[0].file_path, "test.txt");
    assert!(diffs[0].content.contains("modified content"));
    assert!(diffs[0].content.contains("initial content"));
}

#[test]
fn listing_skips_blank_lines_and_keeps_order() {
    let collector = DiffCollector::from_listing("a.txt\n\n  \nb.txt\r\nc.txt");
    let files: Vec<String> = collector.files.clone();
    assert_eq!(files, vec!["a.txt".to_string(), "b.txt".to_string(), "c.txt".to_string()]);
}

#[test]
fn collection_keeps_exactly_the_nonblank_successes_in_order() {
    let mut collector = DiffCollector::from_listing("a.txt\nb.txt\nc.txt\nd.txt\n");
    collector.record(ran(true, Some("-x\n+y\n")));
    collector.record(ran(true, Some("   \n")));
    collector.record(ToolOutcome::Failed { message: "boom".to_string() });
    collector.record(ran(true, Some("-p\n+q\n")));
    let changes = collector.into_changes();
    assert_eq!(changes.len(), 2);
    assert_eq!(changes[0].file_path, "a.txt");
    assert_eq!(changes[0].content, "-x\n+y\n");
    assert_eq!(changes[1].file_path, "d.txt");
    assert_eq!(changes[1].content, "-p\n+q\n");
}

#[test]
fn per_file_failure_is_a_skip_not_an_abort() {
    let mut collector = DiffCollector::from_listing("a.txt\nb.txt\n");
    collector.record(ran(false, Some("unreadable")));
    collector.record(ran(true, Some("-1\n+2\n")));
    let changes = collector.into_changes();
    assert_eq!(changes.len(), 1);
    assert_eq!(changes[0].file_path, "b.txt");
}

#[test]
fn undecodable_per_file_output_is_a_skip() {
    let mut collector = DiffCollector::from_listing("a.txt\n");
    collector.record(ran(true, None));
    let changes = collector.into_changes();
    assert!(changes.is_empty());
}
