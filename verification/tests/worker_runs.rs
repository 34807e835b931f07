//! Driving the incremental worker by hand, with controlled counter values.

use fragment::note::{ListItem, ListingEntry, SortMethod};
use fragment::generation::GenerationCounter;
use fragment::search::list_of_all_files;
use fragment::worker::SearchWorker;

fn entry(path: &str, name: &str, modified: u64) -> ListingEntry {
    ListingEntry {
        path: path.to_string(),
        file_name: name.to_string(),
        is_file: true,
        modified: Some(modified),
        first_line: "first".to_string(),
    }
}

#[test]
fn stale_worker_stops_scanning() {
    let my_seq = 1u64;
    let mut w = SearchWorker::new("needle", my_seq).expect("valid pattern");
    let entries = vec![
        entry("n/a.md", "a.md", 30),
        entry("n/b.md", "b.md", 20),
        entry("n/c.md", "c.md", 10),
    ];
    for e in &entries {
        w.observe(my_seq);
        assert!(!w.went_stale());
        assert!(w.offer_entry(e));
    }
    w.finish_listing(SortMethod::DateNewest);
    // First file scans while the run is still current.
    w.observe(my_seq);
    assert!(!w.is_finished());
    assert_eq!(w.next_path().as_str(), "n/a.md");
    w.feed_content(Some("no hit here\n"));
    // A newer generation is assigned before the second file: the next check
    // must detect it and stop the scan.
    w.observe(my_seq + 1);
    assert!(w.went_stale());
    assert!(w.is_finished());
    assert_eq!(w.scanned_count(), 1);
    let d = w.take_delivery();
    assert!(!d.completed);
    assert_eq!(d.generation, my_seq);
    assert!(d.results.is_empty());
}

#[test]
fn current_worker_scans_everything() {
    let my_seq = 3u64;
    let mut w = SearchWorker::new("hit", my_seq).expect("valid pattern");
    let entries = vec![entry("n/a.md", "a.md", 2), entry("n/b.md", "b.md", 9)];
    for e in &entries {
        w.observe(my_seq);
        assert!(w.offer_entry(e));
    }
    w.finish_listing(SortMethod::DateNewest);
    let mut fed = 0;
    while {
        w.observe(my_seq);
        !w.is_finished()
    } {
        let content = if w.next_path().as_str() == "n/b.md" {
            Some("a hit on line one\n")
        } else {
            None
        };
        w.feed_content(content);
        fed += 1;
    }
    assert_eq!(fed, 2);
    assert_eq!(w.scanned_count(), 2);
    let d = w.take_delivery();
    assert!(d.completed);
    assert_eq!(d.results.len(), 1);
    assert_eq!(d.results[0].path, "n/b.md");
    let hit = d.results[0].found_line.as_ref().expect("matched");
    assert_eq!(hit.line_number, 1);
    assert_eq!(hit.text, "a hit on line one");
}

#[test]
fn staleness_observed_while_listing_truncates_the_listing() {
    let my_seq = 1u64;
    let mut w = SearchWorker::new("", my_seq).expect("empty pattern");
    w.observe(my_seq);
    assert!(w.offer_entry(&entry("n/a.md", "a.md", 5)));
    // The counter moves past this run between entries.
    w.observe(my_seq + 4);
    assert!(w.went_stale());
    // The run proceeds with the partial listing it has.
    w.finish_listing(SortMethod::DateNewest);
    let d = w.take_delivery();
    assert!(!d.completed);
    assert_eq!(d.results.len(), 1);
    assert_eq!(d.results[0].path, "n/a.md");
}

#[test]
fn invalid_pattern_rejected_before_any_work() {
    assert!(SearchWorker::new("[unclosed", 1).is_err());
}

fn listed_paths(items: &[ListItem]) -> Vec<&str> {
    items.iter().map(|i| i.path.as_str()).collect()
}

#[test]
fn plain_listing_sorts_and_filters() {
    let counter = GenerationCounter::new();
    let gen = counter.next();
    let entries = vec![
        entry("n/old.md", "old.md", 10),
        entry("n/.hidden.md", ".hidden.md", 99),
        entry("n/new.md", "new.md", 70),
        ListingEntry {
            path: "n/dir".to_string(),
            file_name: "dir".to_string(),
            is_file: false,
            modified: Some(50),
            first_line: String::new(),
        },
    ];
    let listing = list_of_all_files(&entries, SortMethod::DateNewest, &counter, gen);
    assert_eq!(listed_paths(&listing), vec!["n/new.md", "n/old.md"]);
    for item in &listing {
        assert!(item.found_line.is_none());
        assert_eq!(item.first_line, "first");
    }
}
