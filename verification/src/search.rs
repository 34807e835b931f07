//! The whole pipeline as one pass, and the laws that hold of it.
//!
//! [`search`] runs one generation-tagged pass over a snapshot of files:
//! collect the listing (checking the shared counter between entries), sort it
//! newest first, then scan it for the pattern (checking the counter between
//! files), and package whatever came of it. Its contract ties the outcome
//! to [`spec_search_cut`], the mathematical image of a run truncated at some
//! point by staleness; a run that was never superseded returns exactly
//! [`spec_search`].

use vstd::prelude::*;

use crate::generation::GenerationCounter;
use crate::note::annotate_all;
use crate::note::entry_accepted;
use crate::note::note_of;
use crate::note::Delivery;
use crate::note::FileSnapshot;
use crate::note::FileSnapshotView;
use crate::note::ListItem;
use crate::note::ListingEntry;
use crate::note::ListingEntryView;
use crate::note::NoteView;
use crate::note::SortMethod;
use crate::pattern::pattern_ok;
use crate::pattern::SearchError;
use crate::sorting::notes;
use crate::sorting::sort_desc;
use crate::sorting::sorted_desc;
use crate::sorting::lemma_sort_desc_sorted;
use crate::worker::file_result;
use crate::worker::opt_note_seq;
use crate::worker::opt_text;
use crate::worker::SearchWorker;
use crate::worker::WorkerPhase;

verus! {

/// The ghost image of a snapshot sequence.
pub open spec fn snap_views(s: Seq<FileSnapshot>) -> Seq<FileSnapshotView> {
    s.map_values(|f: FileSnapshot| f@)
}

/// The ghost image of an entry sequence.
pub open spec fn entry_views(s: Seq<ListingEntry>) -> Seq<ListingEntryView> {
    s.map_values(|e: ListingEntry| e@)
}

/// The entries of a snapshot sequence.
pub open spec fn entries_of(snaps: Seq<FileSnapshotView>) -> Seq<ListingEntryView> {
    snaps.map_values(|s: FileSnapshotView| s.entry)
}

/// The listing items that a run of entries produces, in enumeration order:
/// each accepted entry's listing item, nothing else.
pub open spec fn accepted_entries(es: Seq<ListingEntryView>) -> Seq<NoteView>
    decreases es.len(),
{
    if es.len() == 0 {
        Seq::empty()
    } else {
        accepted_entries(es.drop_last()) + (if entry_accepted(es.last()) {
            seq![note_of(es.last())]
        } else {
            Seq::<NoteView>::empty()
        })
    }
}

/// The text a run sees for a path: the content of the first snapshot with
/// that path, or nothing when the path is not in the snapshot (or its file
/// was unreadable).
pub open spec fn content_for(snaps: Seq<FileSnapshotView>, path: Seq<char>) -> Option<Seq<char>>
    decreases snaps.len(),
{
    if snaps.len() == 0 {
        Option::None
    } else if snaps[0].entry.path == path {
        snaps[0].content
    } else {
        content_for(snaps.drop_first(), path)
    }
}

/// The match phase over a scanned prefix of the sorted listing: each file's
/// [`file_result`], kept in listing order, matched files only.
pub open spec fn match_fold(
    scan: Seq<NoteView>,
    snaps: Seq<FileSnapshotView>,
    pattern: Seq<char>,
) -> Seq<NoteView>
    decreases scan.len(),
{
    if scan.len() == 0 {
        Seq::empty()
    } else {
        match_fold(scan.drop_last(), snaps, pattern) + opt_note_seq(
            file_result(scan.last(), content_for(snaps, scan.last().path), pattern),
        )
    }
}

/// A run truncated by staleness: it enumerated the first `k1` snapshots,
/// sorted what it accepted of them, and — for a non-empty pattern — scanned
/// the first `k2` items of that sorted listing. The empty pattern has no
/// match phase to truncate: it annotates whatever listing was collected.
pub open spec fn spec_search_cut(
    pattern: Seq<char>,
    snaps: Seq<FileSnapshotView>,
    k1: int,
    k2: int,
) -> Seq<NoteView> {
    let sorted = sort_desc(accepted_entries(entries_of(snaps).take(k1)));
    if pattern.len() == 0 {
        annotate_all(sorted)
    } else {
        match_fold(sorted.take(k2), snaps, pattern)
    }
}

/// A complete, never-superseded run: every snapshot enumerated, every sorted
/// listing item scanned.
pub open spec fn spec_search(pattern: Seq<char>, snaps: Seq<FileSnapshotView>) -> Seq<NoteView> {
    spec_search_cut(
        pattern,
        snaps,
        snaps.len() as int,
        sort_desc(accepted_entries(entries_of(snaps))).len() as int,
    )
}

/// Accepting one more entry appends its listing item, or nothing.
proof fn lemma_accepted_entries_step(es: Seq<ListingEntryView>, i: int)
    requires
        0 <= i < es.len(),
    ensures
        accepted_entries(es.take(i + 1)) == accepted_entries(es.take(i)) + (if entry_accepted(
            es[i],
        ) {
            seq![note_of(es[i])]
        } else {
            Seq::<NoteView>::empty()
        }),
{
    assert(es.take(i + 1).drop_last() =~= es.take(i));
    assert(es.take(i + 1).last() == es[i]);
}

/// Scanning one more listing item appends its file's result, or nothing.
proof fn lemma_match_fold_step(
    scan: Seq<NoteView>,
    snaps: Seq<FileSnapshotView>,
    pattern: Seq<char>,
    i: int,
)
    requires
        0 <= i < scan.len(),
    ensures
        match_fold(scan.take(i + 1), snaps, pattern) == match_fold(scan.take(i), snaps, pattern)
            + opt_note_seq(file_result(scan[i], content_for(snaps, scan[i].path), pattern)),
{
    assert(scan.take(i + 1).drop_last() =~= scan.take(i));
    assert(scan.take(i + 1).last() == scan[i]);
}

/// Every element the match phase keeps is at least as new as any bound its
/// scanned items respect.
proof fn lemma_match_fold_bound(
    scan: Seq<NoteView>,
    snaps: Seq<FileSnapshotView>,
    pattern: Seq<char>,
    b: u64,
)
    requires
        forall|i: int| 0 <= i < scan.len() ==> scan[i].modified >= b,
    ensures
        forall|k: int|
            0 <= k < match_fold(scan, snaps, pattern).len() ==> match_fold(
                scan,
                snaps,
                pattern,
            )[k].modified >= b,
    decreases scan.len(),
{
    if scan.len() > 0 {
        lemma_match_fold_bound(scan.drop_last(), snaps, pattern, b);
    }
}

/// The match phase preserves the listing's ordering: filtering a
/// newest-first sequence leaves a newest-first sequence.
pub proof fn lemma_match_fold_sorted(
    scan: Seq<NoteView>,
    snaps: Seq<FileSnapshotView>,
    pattern: Seq<char>,
)
    requires
        sorted_desc(scan),
    ensures
        sorted_desc(match_fold(scan, snaps, pattern)),
    decreases scan.len(),
{
    if scan.len() > 0 {
        assert(sorted_desc(scan.drop_last()));
        lemma_match_fold_sorted(scan.drop_last(), snaps, pattern);
        let last = scan.last();
        assert(forall|i: int|
            0 <= i < scan.drop_last().len() ==> scan.drop_last()[i].modified >= last.modified);
        lemma_match_fold_bound(scan.drop_last(), snaps, pattern, last.modified);
    }
}

/// Every element the match phase keeps carries a matched line, and is the
/// match outcome of one of the scanned listing items.
pub proof fn lemma_match_fold_matched(
    scan: Seq<NoteView>,
    snaps: Seq<FileSnapshotView>,
    pattern: Seq<char>,
)
    ensures
        forall|k: int|
            0 <= k < match_fold(scan, snaps, pattern).len() ==> (#[trigger] match_fold(
                scan,
                snaps,
                pattern,
            )[k]).found_line is Some,
        forall|k: int|
            0 <= k < match_fold(scan, snaps, pattern).len() ==> exists|j: int|
                0 <= j < scan.len() && file_result(
                    scan[j],
                    content_for(snaps, scan[j].path),
                    pattern,
                ) == Option::Some(#[trigger] match_fold(scan, snaps, pattern)[k]),
    decreases scan.len(),
{
    if scan.len() > 0 {
        lemma_match_fold_matched(scan.drop_last(), snaps, pattern);
        let fr = file_result(scan.last(), content_for(snaps, scan.last().path), pattern);
        let prev = match_fold(scan.drop_last(), snaps, pattern);
        assert forall|k: int|
            0 <= k < match_fold(scan, snaps, pattern).len() implies (#[trigger] match_fold(
            scan,
            snaps,
            pattern,
        )[k]).found_line is Some by {
            if k < prev.len() {
                assert(match_fold(scan, snaps, pattern)[k] == prev[k]);
            } else {
                assert(match_fold(scan, snaps, pattern)[k] == fr->0);
            }
        }
        assert forall|k: int|
            0 <= k < match_fold(scan, snaps, pattern).len() implies exists|j: int|
            0 <= j < scan.len() && file_result(scan[j], content_for(snaps, scan[j].path), pattern)
                == Option::Some(#[trigger] match_fold(scan, snaps, pattern)[k]) by {
            if k < prev.len() {
                assert(match_fold(scan, snaps, pattern)[k] == prev[k]);
                let j = choose|j: int|
                    0 <= j < scan.drop_last().len() && file_result(
                        scan.drop_last()[j],
                        content_for(snaps, scan.drop_last()[j].path),
                        pattern,
                    ) == Option::Some(prev[k]);
                assert(scan.drop_last()[j] == scan[j]);
                assert(file_result(scan[j], content_for(snaps, scan[j].path), pattern)
                    == Option::Some(match_fold(scan, snaps, pattern)[k]));
            } else {
                let j = scan.len() - 1;
                assert(scan[j] == scan.last());
                assert(file_result(scan[j], content_for(snaps, scan[j].path), pattern)
                    == Option::Some(match_fold(scan, snaps, pattern)[k]));
            }
        }
    }
}

/// Annotating for the empty query keeps the ordering: only `found_line`
/// changes, never the modification time.
pub proof fn lemma_annotate_all_sorted(s: Seq<NoteView>)
    requires
        sorted_desc(s),
    ensures
        sorted_desc(annotate_all(s)),
{
    assert forall|i: int, j: int|
        0 <= i <= j < annotate_all(s).len() implies annotate_all(s)[i].modified >= annotate_all(
        s,
    )[j].modified by {
        assert(annotate_all(s)[i].modified == s[i].modified);
        assert(annotate_all(s)[j].modified == s[j].modified);
    }
}

/// A newest-first prefix of a newest-first sequence.
proof fn lemma_sorted_take(s: Seq<NoteView>, k: int)
    requires
        sorted_desc(s),
        0 <= k <= s.len(),
    ensures
        sorted_desc(s.take(k)),
{
}

/// Looks up what the snapshot holds for a path.
fn lookup_content<'a>(files: &'a Vec<FileSnapshot>, path: &String) -> (r: Option<&'a String>)
    ensures
        match r {
            Option::Some(c) => content_for(snap_views(files@), path@) == Option::Some(c@),
            Option::None => content_for(snap_views(files@), path@) is None,
        },
{
    let ghost snaps = snap_views(files@);
    proof {
        assert(snaps.skip(0) =~= snaps);
    }
    let mut i: usize = 0;
    while i < files.len()
        invariant
            i <= files@.len(),
            snaps == snap_views(files@),
            content_for(snaps, path@) == content_for(snaps.skip(i as int), path@),
        decreases files@.len() - i,
    {
        if files[i].entry.path.eq(path) {
            proof {
                assert(snaps.skip(i as int)[0] == snaps[i as int]);
                assert(snaps[i as int].entry.path == path@);
            }
            return match &files[i].content {
                Option::Some(c) => Option::Some(c),
                Option::None => Option::None,
            };
        }
        proof {
            assert(snaps.skip(i as int)[0] == snaps[i as int]);
            assert(snaps[i as int].entry.path == files@[i as int].entry.path@);
            assert(snaps.skip(i as int).drop_first() =~= snaps.skip(i as int + 1));
        }
        i = i + 1;
    }
    proof {
        assert(snaps.skip(files@.len() as int).len() == 0);
    }
    Option::None
}

/// The match phase alone, over an already-built listing in its given order:
/// compiles the pattern (any pattern, the empty one included, is compiled
/// here — rejecting the query exactly when it is invalid), then scans the
/// files one by one, checking `sequence_ref` before each and stopping as
/// soon as the run is superseded. Each file's text comes from `snapshots`;
/// a file with no matching line, or whose text is missing, contributes
/// nothing.
pub fn grep_life(
    pattern: &str,
    files: &Vec<ListItem>,
    snapshots: &Vec<FileSnapshot>,
    sequence_ref: &GenerationCounter,
    self_sequence: u64,
) -> (r: Result<Vec<ListItem>, SearchError>)
    ensures
        r is Ok <==> pattern_ok(pattern@),
        r matches Err(e) ==> e == SearchError::InvalidPattern,
        r matches Ok(found) ==> {
            &&& exists|k: int|
                0 <= k <= files@.len() && notes(found@) == match_fold(
                    notes(files@).take(k),
                    snap_views(snapshots@),
                    pattern@,
                )
            &&& forall|j: int|
                0 <= j < found@.len() ==> (#[trigger] notes(found@)[j]).found_line is Some
            &&& sorted_desc(notes(files@)) ==> sorted_desc(notes(found@))
        },
{
    let matcher = match crate::pattern::Matcher::new(pattern) {
        Ok(m) => m,
        Err(e) => {
            return Err(e);
        },
    };
    let ghost snaps = snap_views(snapshots@);
    let ghost scan = notes(files@);
    let mut found: Vec<ListItem> = Vec::new();
    proof {
        assert(notes(found@) =~= match_fold(scan.take(0), snaps, pattern@));
    }
    let mut i: usize = 0;
    let mut halted = false;
    while i < files.len() && !halted
        invariant
            matcher.pattern() == pattern@,
            i <= files@.len(),
            snaps == snap_views(snapshots@),
            scan == notes(files@),
            notes(found@) == match_fold(scan.take(i as int), snaps, pattern@),
        decreases files@.len() - i + (if halted {
            0int
        } else {
            1int
        }),
    {
        if crate::generation::is_stale(sequence_ref.current(), self_sequence) {
            halted = true;
        } else {
            let item = &files[i];
            let hit = match lookup_content(snapshots, &item.path) {
                Option::Some(content) => matcher.first_match(content.as_str()),
                Option::None => Option::None,
            };
            let ghost before = found@;
            match hit {
                Option::Some((line_number, line)) => {
                    let text = crate::pattern::trim_text(line.as_str());
                    let matched = item.with_found_line(line_number, text);
                    proof {
                        assert(Option::Some(matched@) == file_result(
                            scan[i as int],
                            content_for(snaps, scan[i as int].path),
                            pattern@,
                        ));
                    }
                    found.push(matched);
                },
                Option::None => {
                    proof {
                        assert(file_result(
                            scan[i as int],
                            content_for(snaps, scan[i as int].path),
                            pattern@,
                        ) is None);
                    }
                },
            }
            proof {
                lemma_match_fold_step(scan, snaps, pattern@, i as int);
                assert(notes(found@) =~= match_fold(scan.take(i as int + 1), snaps, pattern@));
            }
            i = i + 1;
        }
    }
    proof {
        lemma_match_fold_matched(scan.take(i as int), snaps, pattern@);
        if sorted_desc(scan) {
            lemma_sorted_take(scan, i as int);
            lemma_match_fold_sorted(scan.take(i as int), snaps, pattern@);
        }
    }
    Ok(found)
}

/// Runs one whole search pass for generation `self_sequence` over a snapshot
/// of files, checking `sequence_ref` between entries and between files and
/// truncating the pass as soon as it reports a newer generation.
///
/// A non-empty query that is not a valid pattern fails the run immediately —
/// the error is the delivery, and no partial listing accompanies it. Every
/// successful delivery is tagged with this run's generation, is ordered
/// newest first, and consists of matched files only (for the empty query:
/// the full listing, annotated as matched at line 1); `completed` says
/// whether staleness truncated the pass.
pub fn search(
    pattern: &str,
    files: Vec<FileSnapshot>,
    sequence_ref: &GenerationCounter,
    self_sequence: u64,
) -> (r: Result<Delivery, SearchError>)
    ensures
        r is Ok <==> (pattern@.len() == 0 || pattern_ok(pattern@)),
        r matches Err(e) ==> e == SearchError::InvalidPattern && !pattern_ok(pattern@),
        r matches Ok(d) ==> {
            &&& d.generation == self_sequence
            &&& sorted_desc(notes(d.results@))
            &&& forall|j: int|
                0 <= j < d.results@.len() ==> (#[trigger] notes(d.results@)[j]).found_line is Some
            &&& exists|k1: int, k2: int|
                0 <= k1 <= files@.len() && 0 <= k2 && notes(d.results@) == spec_search_cut(
                    pattern@,
                    snap_views(files@),
                    k1,
                    k2,
                )
            &&& d.completed ==> notes(d.results@) == spec_search(pattern@, snap_views(files@))
        },
{
    let mut worker = match SearchWorker::new(pattern, self_sequence) {
        Ok(w) => w,
        Err(e) => {
            return Err(e);
        },
    };
    let ghost snaps = snap_views(files@);
    let ghost es = entries_of(snaps);
    proof {
        assert(es.take(0) =~= Seq::<ListingEntryView>::empty());
        assert(worker.listing_view() =~= accepted_entries(es.take(0)));
    }
    let mut i: usize = 0;
    let mut halted = false;
    while i < files.len() && !halted
        invariant
            worker.wf(),
            worker.phase() matches WorkerPhase::Listing,
            worker.generation() == self_sequence,
            worker.query() == pattern@,
            worker.results_view() == Seq::<NoteView>::empty(),
            i <= files@.len(),
            snaps == snap_views(files@),
            es == entries_of(snaps),
            halted ==> worker.stale(),
            !halted ==> !worker.stale(),
            worker.listing_view() == accepted_entries(es.take(i as int)),
        decreases files@.len() - i + (if halted {
            0int
        } else {
            1int
        }),
    {
        worker.observe(sequence_ref.current());
        if worker.went_stale() {
            halted = true;
        } else {
            let ghost listing_before = worker.listing_view();
            let accepted = worker.offer_entry(&files[i].entry);
            proof {
                lemma_accepted_entries_step(es, i as int);
                assert(es[i as int] == files@[i as int].entry@);
                if accepted {
                    assert(worker.listing_view() =~= accepted_entries(es.take(i as int))
                        + seq![note_of(es[i as int])]);
                } else {
                    assert(worker.listing_view() =~= accepted_entries(es.take(i as int + 1)));
                }
            }
            i = i + 1;
        }
    }
    let ghost k1 = i as int;
    worker.finish_listing(SortMethod::DateNewest);
    let ghost sorted = sort_desc(accepted_entries(es.take(k1)));
    proof {
        if pattern@.len() > 0 {
            assert(sorted.take(0) =~= Seq::<NoteView>::empty());
        }
    }
    loop
        invariant
            worker.wf(),
            worker.phase() matches WorkerPhase::Matching,
            worker.generation() == self_sequence,
            worker.query() == pattern@,
            snaps == snap_views(files@),
            es == entries_of(snaps),
            0 <= k1 <= files@.len(),
            worker.listing_view() == sorted,
            sorted == sort_desc(accepted_entries(es.take(k1))),
            sorted_desc(sorted),
            0 <= worker.scanned() <= sorted.len(),
            !worker.stale() ==> k1 == files@.len(),
            pattern@.len() > 0 ==> worker.results_view() == match_fold(
                sorted.take(worker.scanned()),
                snaps,
                pattern@,
            ),
            pattern@.len() == 0 ==> worker.results_view() == annotate_all(sorted),
        ensures
            worker.wf(),
            worker.phase() matches WorkerPhase::Matching,
            worker.generation() == self_sequence,
            worker.query() == pattern@,
            worker.listing_view() == sorted,
            0 <= worker.scanned() <= sorted.len(),
            !worker.stale() ==> k1 == files@.len(),
            pattern@.len() > 0 ==> worker.results_view() == match_fold(
                sorted.take(worker.scanned()),
                snaps,
                pattern@,
            ),
            pattern@.len() == 0 ==> worker.results_view() == annotate_all(sorted),
            worker.finished(),
        decreases sorted.len() - worker.scanned(),
    {
        worker.observe(sequence_ref.current());
        if worker.is_finished() {
            break ;
        }
        let content_ref = lookup_content(&files, worker.next_path());
        let content: Option<&str> = match content_ref {
            Option::Some(c) => Option::Some(c.as_str()),
            Option::None => Option::None,
        };
        let ghost scanned_before = worker.scanned();
        worker.feed_content(content);
        proof {
            lemma_match_fold_step(sorted, snaps, pattern@, scanned_before);
            assert(opt_text(content) == content_for(snaps, sorted[scanned_before].path));
        }
    }
    let ghost w_end = worker;
    let d = worker.take_delivery();
    proof {
        let ghost k2 = w_end.scanned();
        if pattern@.len() == 0 {
            assert(notes(d.results@) == spec_search_cut(pattern@, snaps, k1, 0));
            lemma_sort_desc_sorted(accepted_entries(es.take(k1)));
            lemma_annotate_all_sorted(sorted);
            assert(forall|j: int|
                0 <= j < notes(d.results@).len() ==> (#[trigger] notes(d.results@)[j]).found_line
                    is Some);
        } else {
            assert(notes(d.results@) == spec_search_cut(pattern@, snaps, k1, k2));
            lemma_sort_desc_sorted(accepted_entries(es.take(k1)));
            lemma_sorted_take(sorted, k2);
            lemma_match_fold_sorted(sorted.take(k2), snaps, pattern@);
            lemma_match_fold_matched(sorted.take(k2), snaps, pattern@);
        }
        if d.completed {
            assert(k1 == files@.len());
            assert(es.take(k1) =~= es);
            if pattern@.len() == 0 {
                assert(notes(d.results@) == spec_search(pattern@, snaps));
            } else {
                assert(w_end.scanned() == sorted.len());
                assert(sorted.take(w_end.scanned()) =~= sorted);
                assert(notes(d.results@) == spec_search(pattern@, snaps));
            }
        }
    }
    Ok(d)
}

/// Assembles the plain listing alone: every visible file of the enumerated
/// entries, sorted by the given method, with no matched lines — what a
/// consumer shows before any query has been typed. Checks `sequence_ref`
/// between entries and stops collecting when the run is superseded, so the
/// result is some enumerated prefix's listing.
pub fn list_of_all_files(
    entries: &Vec<ListingEntry>,
    sort_by: SortMethod,
    sequence_ref: &GenerationCounter,
    self_sequence: u64,
) -> (r: Vec<ListItem>)
    ensures
        sorted_desc(notes(r@)),
        exists|k: int|
            0 <= k <= entries@.len() && notes(r@) == sort_desc(
                accepted_entries(entry_views(entries@).take(k)),
            ),
{
    let mut worker = match SearchWorker::new("", self_sequence) {
        Ok(w) => w,
        Err(_) => {
            proof {
                reveal_strlit("");
            }
            // An empty query always starts; this arm is unreachable.
            return Vec::new();
        },
    };
    let ghost es = entry_views(entries@);
    proof {
        assert(es.take(0) =~= Seq::<ListingEntryView>::empty());
        assert(worker.listing_view() =~= accepted_entries(es.take(0)));
    }
    let mut i: usize = 0;
    let mut halted = false;
    while i < entries.len() && !halted
        invariant
            worker.wf(),
            worker.phase() matches WorkerPhase::Listing,
            i <= entries@.len(),
            es == entry_views(entries@),
            halted ==> worker.stale(),
            !halted ==> !worker.stale(),
            worker.listing_view() == accepted_entries(es.take(i as int)),
        decreases entries@.len() - i + (if halted {
            0int
        } else {
            1int
        }),
    {
        worker.observe(sequence_ref.current());
        if worker.went_stale() {
            halted = true;
        } else {
            let accepted = worker.offer_entry(&entries[i]);
            proof {
                lemma_accepted_entries_step(es, i as int);
                assert(es[i as int] == entries@[i as int]@);
                if accepted {
                    assert(worker.listing_view() =~= accepted_entries(es.take(i as int))
                        + seq![note_of(es[i as int])]);
                } else {
                    assert(worker.listing_view() =~= accepted_entries(es.take(i as int + 1)));
                }
            }
            i = i + 1;
        }
    }
    let ghost k = i as int;
    worker.finish_listing(sort_by);
    proof {
        lemma_sort_desc_sorted(accepted_entries(es.take(k)));
    }
    worker.take_listing()
}

/// Determinism: for one pattern and one unchanging snapshot, any two
/// complete, never-superseded runs produce identical result lists, in
/// content and in order.
pub proof fn lemma_search_deterministic(
    pattern: Seq<char>,
    snaps: Seq<FileSnapshotView>,
    r1: Seq<NoteView>,
    r2: Seq<NoteView>,
)
    requires
        r1 == spec_search(pattern, snaps),
        r2 == spec_search(pattern, snaps),
    ensures
        r1 == r2,
{
}

/// Every truncation of a run — and so every delivered result list — is
/// ordered by modification time, newest first.
pub proof fn lemma_spec_search_cut_sorted(
    pattern: Seq<char>,
    snaps: Seq<FileSnapshotView>,
    k1: int,
    k2: int,
)
    requires
        0 <= k1 <= snaps.len(),
        0 <= k2 <= sort_desc(accepted_entries(entries_of(snaps).take(k1))).len(),
    ensures
        sorted_desc(spec_search_cut(pattern, snaps, k1, k2)),
{
    let sorted = sort_desc(accepted_entries(entries_of(snaps).take(k1)));
    lemma_sort_desc_sorted(accepted_entries(entries_of(snaps).take(k1)));
    if pattern.len() == 0 {
        lemma_annotate_all_sorted(sorted);
    } else {
        lemma_sorted_take(sorted, k2);
        lemma_match_fold_sorted(sorted.take(k2), snaps, pattern);
    }
}

/// For the empty query, a complete run is the full unfiltered listing, each
/// item annotated as matched at line 1 with its own first line.
pub proof fn lemma_empty_query_full_listing(snaps: Seq<FileSnapshotView>)
    ensures
        spec_search(Seq::empty(), snaps) == annotate_all(
            sort_desc(accepted_entries(entries_of(snaps))),
        ),
        forall|j: int|
            0 <= j < spec_search(Seq::empty(), snaps).len() ==> #[trigger] spec_search(
                Seq::empty(),
                snaps,
            )[j] == crate::note::annotated(sort_desc(accepted_entries(entries_of(snaps)))[j]),
{
    assert(entries_of(snaps).take(snaps.len() as int) =~= entries_of(snaps));
}

/// For a non-empty pattern, every element of a complete run's result carries
/// a matched line, and is the match outcome of one of the sorted listing's
/// items: a file with no matching line contributes nothing.
pub proof fn lemma_spec_search_matched(pattern: Seq<char>, snaps: Seq<FileSnapshotView>)
    requires
        pattern.len() > 0,
    ensures
        forall|k: int|
            0 <= k < spec_search(pattern, snaps).len() ==> (#[trigger] spec_search(
                pattern,
                snaps,
            )[k]).found_line is Some,
        forall|k: int|
            0 <= k < spec_search(pattern, snaps).len() ==> exists|j: int|
                0 <= j < sort_desc(accepted_entries(entries_of(snaps))).len() && file_result(
                    sort_desc(accepted_entries(entries_of(snaps)))[j],
                    content_for(snaps, sort_desc(accepted_entries(entries_of(snaps)))[j].path),
                    pattern,
                ) == Option::Some(#[trigger] spec_search(pattern, snaps)[k]),
{
    let sorted = sort_desc(accepted_entries(entries_of(snaps)));
    assert(entries_of(snaps).take(snaps.len() as int) =~= entries_of(snaps));
    assert(sorted.take(sorted.len() as int) =~= sorted);
    lemma_match_fold_matched(sorted, snaps, pattern);
}

} // verus!
