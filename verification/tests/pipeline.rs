//! End-to-end runs of the one-shot search pass over in-memory snapshots.

use fragment::generation::GenerationCounter;
use fragment::note::{FileSnapshot, ListItem, ListingEntry};
use fragment::pattern::SearchError;
use fragment::search::{grep_life, search};

fn entry(path: &str, name: &str, modified: u64, first_line: &str) -> ListingEntry {
    ListingEntry {
        path: path.to_string(),
        file_name: name.to_string(),
        is_file: true,
        modified: Some(modified),
        first_line: first_line.to_string(),
    }
}

fn snapshot(
    path: &str,
    name: &str,
    modified: u64,
    first_line: &str,
    content: Option<&str>,
) -> FileSnapshot {
    FileSnapshot {
        entry: entry(path, name, modified, first_line),
        content: content.map(|c| c.to_string()),
    }
}

fn three_notes() -> Vec<FileSnapshot> {
    vec![
        snapshot(
            "notes/a.md",
            "a.md",
            300,
            "fn main",
            Some("fn main\nsecond line\n"),
        ),
        snapshot(
            "notes/b.md",
            "b.md",
            200,
            "nothing here",
            Some("nothing here\njust prose\n"),
        ),
        snapshot(
            "notes/c.md",
            "c.md",
            100,
            "alpha",
            Some("alpha\nbeta\nfn main appears here\n"),
        ),
    ]
}

fn paths(results: &[ListItem]) -> Vec<&str> {
    results.iter().map(|r| r.path.as_str()).collect()
}

#[test]
fn end_to_end_two_matches() {
    let counter = GenerationCounter::new();
    let gen = counter.next();
    let d = search("fn", three_notes(), &counter, gen).expect("valid pattern");
    assert!(d.completed);
    assert_eq!(d.generation, gen);
    assert_eq!(paths(&d.results), vec!["notes/a.md", "notes/c.md"]);
    let a = &d.results[0];
    let a_hit = a.found_line.as_ref().expect("a.md matched");
    assert_eq!(a_hit.line_number, 1);
    assert_eq!(a_hit.text, "fn main");
    let c = &d.results[1];
    let c_hit = c.found_line.as_ref().expect("c.md matched");
    assert_eq!(c_hit.line_number, 3);
    assert_eq!(c_hit.text, "fn main appears here");
}

#[test]
fn empty_query_returns_full_annotated_listing() {
    let counter = GenerationCounter::new();
    let gen = counter.next();
    let d = search("", three_notes(), &counter, gen).expect("empty pattern is accepted");
    assert!(d.completed);
    assert_eq!(
        paths(&d.results),
        vec!["notes/a.md", "notes/b.md", "notes/c.md"]
    );
    for item in &d.results {
        let hit = item.found_line.as_ref().expect("annotated at line 1");
        assert_eq!(hit.line_number, 1);
        assert_eq!(hit.text, item.first_line);
    }
}

#[test]
fn results_ordered_newest_first() {
    let counter = GenerationCounter::new();
    let gen = counter.next();
    let files = vec![
        snapshot("n/old.md", "old.md", 10, "x", Some("x match\n")),
        snapshot("n/new.md", "new.md", 900, "x", Some("x match\n")),
        snapshot("n/mid.md", "mid.md", 500, "x", Some("x match\n")),
        snapshot("n/tie.md", "tie.md", 500, "x", Some("x match\n")),
    ];
    let d = search("match", files, &counter, gen).expect("valid pattern");
    assert_eq!(d.results.len(), 4);
    for pair in d.results.windows(2) {
        assert!(pair[0].modified >= pair[1].modified);
    }
    assert_eq!(d.results[0].path, "n/new.md");
    // Equal timestamps keep their enumeration order.
    assert_eq!(d.results[1].path, "n/mid.md");
    assert_eq!(d.results[2].path, "n/tie.md");
    assert_eq!(d.results[3].path, "n/old.md");
}

#[test]
fn running_twice_is_deterministic() {
    let counter = GenerationCounter::new();
    let g1 = counter.next();
    let d1 = search("fn", three_notes(), &counter, g1).expect("valid pattern");
    let g2 = counter.next();
    let d2 = search("fn", three_notes(), &counter, g2).expect("valid pattern");
    assert!(d1.completed && d2.completed);
    assert_eq!(d1.results.len(), d2.results.len());
    for (x, y) in d1.results.iter().zip(d2.results.iter()) {
        assert_eq!(x.path, y.path);
        assert_eq!(x.file_name, y.file_name);
        assert_eq!(x.modified, y.modified);
        assert_eq!(x.first_line, y.first_line);
        match (&x.found_line, &y.found_line) {
            (Some(hx), Some(hy)) => {
                assert_eq!(hx.line_number, hy.line_number);
                assert_eq!(hx.text, hy.text);
            }
            (None, None) => {}
            _ => panic!("deliveries disagree on a matched line"),
        }
    }
}

#[test]
fn invalid_pattern_fails_the_run() {
    let counter = GenerationCounter::new();
    let gen = counter.next();
    let r = search("(", three_notes(), &counter, gen);
    assert_eq!(r.err(), Some(SearchError::InvalidPattern));
}

#[test]
fn non_matching_and_unreadable_files_are_absent() {
    let counter = GenerationCounter::new();
    let gen = counter.next();
    let files = vec![
        snapshot("n/yes.md", "yes.md", 30, "x", Some("prose\nneedle on two\n")),
        snapshot("n/no.md", "no.md", 20, "x", Some("nothing relevant\n")),
        snapshot("n/gone.md", "gone.md", 10, "x", None),
    ];
    let d = search("needle", files, &counter, gen).expect("valid pattern");
    assert_eq!(paths(&d.results), vec!["n/yes.md"]);
    let hit = d.results[0].found_line.as_ref().expect("matched");
    assert_eq!(hit.line_number, 2);
    assert_eq!(hit.text, "needle on two");
}

#[test]
fn first_matching_line_wins() {
    let counter = GenerationCounter::new();
    let gen = counter.next();
    let files = vec![snapshot(
        "n/multi.md",
        "multi.md",
        5,
        "intro",
        Some("intro\nneedle first\nneedle again\n"),
    )];
    let d = search("needle", files, &counter, gen).expect("valid pattern");
    assert_eq!(d.results.len(), 1);
    let hit = d.results[0].found_line.as_ref().expect("matched");
    assert_eq!(hit.line_number, 2);
    assert_eq!(hit.text, "needle first");
}

#[test]
fn matched_line_text_is_trimmed() {
    let counter = GenerationCounter::new();
    let gen = counter.next();
    let files = vec![snapshot(
        "n/pad.md",
        "pad.md",
        5,
        "intro",
        Some("intro\n   needle padded   \n"),
    )];
    let d = search("needle", files, &counter, gen).expect("valid pattern");
    let hit = d.results[0].found_line.as_ref().expect("matched");
    assert_eq!(hit.text, "needle padded");
}

#[test]
fn hidden_and_non_file_entries_are_skipped() {
    let counter = GenerationCounter::new();
    let gen = counter.next();
    let mut files = vec![
        snapshot("n/.secret.md", ".secret.md", 40, "x", Some("x\n")),
        snapshot("n/plain.md", "plain.md", 30, "x", Some("x\n")),
    ];
    files.push(FileSnapshot {
        entry: ListingEntry {
            path: "n/subdir".to_string(),
            file_name: "subdir".to_string(),
            is_file: false,
            modified: Some(20),
            first_line: String::new(),
        },
        content: None,
    });
    files.push(FileSnapshot {
        entry: ListingEntry {
            path: "n/unstat.md".to_string(),
            file_name: "unstat.md".to_string(),
            is_file: true,
            modified: None,
            first_line: "x".to_string(),
        },
        content: Some("x\n".to_string()),
    });
    let d = search("", files, &counter, gen).expect("empty pattern is accepted");
    assert_eq!(paths(&d.results), vec!["n/plain.md"]);
}

fn item(path: &str, name: &str, modified: u64, first_line: &str) -> ListItem {
    ListItem {
        path: path.to_string(),
        file_name: name.to_string(),
        modified,
        first_line: first_line.to_string(),
        found_line: None,
    }
}

#[test]
fn grep_keeps_listing_order_and_matches_only() {
    let counter = GenerationCounter::new();
    let gen = counter.next();
    let listing = vec![
        item("notes/a.md", "a.md", 300, "fn main"),
        item("notes/b.md", "b.md", 200, "nothing here"),
        item("notes/c.md", "c.md", 100, "alpha"),
    ];
    let found = grep_life("fn", &listing, &three_notes(), &counter, gen).expect("valid pattern");
    assert_eq!(paths(&found), vec!["notes/a.md", "notes/c.md"]);
    assert_eq!(
        found[1].found_line.as_ref().expect("c.md matched").line_number,
        3
    );
}

#[test]
fn grep_skips_files_without_text() {
    let counter = GenerationCounter::new();
    let gen = counter.next();
    let listing = vec![item("n/ghost.md", "ghost.md", 10, "x")];
    let found =
        grep_life("x", &listing, &Vec::new(), &counter, gen).expect("valid pattern");
    assert!(found.is_empty());
}

#[test]
fn grep_rejects_an_invalid_pattern() {
    let counter = GenerationCounter::new();
    let gen = counter.next();
    let r = grep_life("(", &Vec::new(), &Vec::new(), &counter, gen);
    assert_eq!(r.err(), Some(SearchError::InvalidPattern));
}

#[test]
fn grep_stops_when_superseded() {
    let counter = GenerationCounter::new();
    let gen = counter.next();
    counter.next();
    let listing = vec![item("notes/a.md", "a.md", 300, "fn main")];
    let found = grep_life("fn", &listing, &three_notes(), &counter, gen).expect("valid pattern");
    assert!(found.is_empty());
}

#[test]
fn superseded_run_is_truncated_and_tagged() {
    let counter = GenerationCounter::new();
    let gen = counter.next();
    // A newer submission was assigned before this run starts walking.
    counter.next();
    let d = search("fn", three_notes(), &counter, gen).expect("valid pattern");
    assert!(!d.completed);
    assert_eq!(d.generation, gen);
    assert!(d.results.is_empty());
}
