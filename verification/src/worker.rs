//! One search run: the two-phase listing-then-matching pass.
//!
//! A [`SearchWorker`] holds the whole state of a single run with a fixed
//! generation. Its caller drives it: it hands in enumerated entries one at a
//! time, then the text of each file the run wants scanned, and reports the
//! shared counter's value in between. The worker decides everything — which
//! entries are kept, their order, what a match means, when the run has gone
//! stale and must stop — and those decisions are what the contracts here pin
//! down. Once a worker has seen the counter move past its own generation it
//! never scans another entry or file; it only packages what it already has.

use vstd::prelude::*;

use crate::generation::stale_at;
use crate::note::annotate_all;
use crate::note::annotated;
use crate::note::entry_accepted;
use crate::note::note_of;
use crate::note::Delivery;
use crate::note::ListItem;
use crate::note::ListingEntry;
use crate::note::MatchedLine;
use crate::note::NoteView;
use crate::note::SortMethod;
use crate::pattern::first_hit;
use crate::pattern::pattern_ok;
use crate::pattern::trimmed;
use crate::pattern::Matcher;
use crate::pattern::SearchError;
use crate::sorting::notes;
use crate::sorting::sort_desc;
use crate::sorting::sorted_desc;
use crate::sorting::sort_listing;

verus! {

/// Where a run stands: collecting the listing, or scanning it for matches.
/// A finished run is a matching-phase run with nothing left to scan.
pub enum WorkerPhase {
    Listing,
    Matching,
}

/// What matching one file adds to the result list: nothing when the file was
/// unreadable or no line matched, otherwise the file's listing item carrying
/// the first matched line, 1-based, trimmed.
pub open spec fn file_result(
    note: NoteView,
    content: Option<Seq<char>>,
    pattern: Seq<char>,
) -> Option<NoteView> {
    match content {
        Option::None => Option::None,
        Option::Some(text) => match first_hit(pattern, text) {
            Option::None => Option::None,
            Option::Some(hit) => Option::Some(
                NoteView {
                    found_line: Option::Some(
                        crate::note::MatchedLineView { line_number: hit.0, text: trimmed(hit.1) },
                    ),
                    ..note
                },
            ),
        },
    }
}

/// `file_result` as a sequence: empty for a skipped file, a single element
/// for a matched one.
pub open spec fn opt_note_seq(r: Option<NoteView>) -> Seq<NoteView> {
    match r {
        Option::None => Seq::empty(),
        Option::Some(n) => seq![n],
    }
}

/// The state of one run.
pub struct SearchWorker {
    my_seq: u64,
    matcher: Option<Matcher>,
    listing: Vec<ListItem>,
    results: Vec<ListItem>,
    next_idx: usize,
    stale: bool,
    phase: WorkerPhase,
}

impl SearchWorker {
    /// The generation this run was assigned at submission.
    pub closed spec fn generation(&self) -> u64 {
        self.my_seq
    }

    /// The query text this run is matching; empty means the degenerate
    /// list-everything query.
    pub closed spec fn query(&self) -> Seq<char> {
        match self.matcher {
            Option::Some(ref m) => m.pattern(),
            Option::None => Seq::empty(),
        }
    }

    /// Whether the run has observed the shared counter past its own
    /// generation. Once set it never clears.
    pub closed spec fn stale(&self) -> bool {
        self.stale
    }

    /// Which phase the run is in.
    pub closed spec fn phase(&self) -> WorkerPhase {
        self.phase
    }

    /// The listing collected so far (sorted once the listing phase is
    /// finished).
    pub closed spec fn listing_view(&self) -> Seq<NoteView> {
        notes(self.listing@)
    }

    /// The results built so far.
    pub closed spec fn results_view(&self) -> Seq<NoteView> {
        notes(self.results@)
    }

    /// How many listing items the match phase has consumed.
    pub closed spec fn scanned(&self) -> int {
        self.next_idx as int
    }

    /// The state a worker never leaves: the scan cursor stays inside the
    /// listing, a compiled matcher belongs to a non-empty valid pattern, and
    /// the cursor and results only ever move in the matching phase.
    pub closed spec fn wf(&self) -> bool {
        &&& self.next_idx <= self.listing@.len()
        &&& match self.matcher {
            Option::Some(ref m) => m.pattern().len() > 0 && pattern_ok(m.pattern()),
            Option::None => true,
        }
        &&& (self.phase matches WorkerPhase::Listing ==> self.next_idx == 0
            && self.results@.len() == 0)
    }

    /// Starts a run: compiles the query once, up front. A non-empty query
    /// that is not a valid pattern fails the whole run here, before any file
    /// is touched; an empty query compiles nothing and will annotate the
    /// full listing instead of matching.
    pub fn new(pattern: &str, my_seq: u64) -> (r: Result<SearchWorker, SearchError>)
        ensures
            r is Ok <==> (pattern@.len() == 0 || pattern_ok(pattern@)),
            r matches Err(e) ==> e == SearchError::InvalidPattern && !pattern_ok(pattern@),
            r matches Ok(w) ==> {
                &&& w.wf()
                &&& w.generation() == my_seq
                &&& w.query() == pattern@
                &&& !w.stale()
                &&& w.phase() matches WorkerPhase::Listing
                &&& w.listing_view() == Seq::<NoteView>::empty()
                &&& w.results_view() == Seq::<NoteView>::empty()
            },
    {
        let matcher: Option<Matcher> = if pattern.unicode_len() == 0 {
            Option::None
        } else {
            match Matcher::new(pattern) {
                Ok(m) => Option::Some(m),
                Err(e) => {
                    return Err(e);
                },
            }
        };
        let w = SearchWorker {
            my_seq,
            matcher,
            listing: Vec::new(),
            results: Vec::new(),
            next_idx: 0,
            stale: false,
            phase: WorkerPhase::Listing,
        };
        proof {
            assert(w.listing_view() =~= Seq::<NoteView>::empty());
            assert(w.results_view() =~= Seq::<NoteView>::empty());
        }
        Ok(w)
    }

    /// Takes one observation of the shared counter. If it has moved past
    /// this run's generation the run is stale from here on: nothing else
    /// changes, but no further entry or file will be accepted.
    pub fn observe(&mut self, current: u64)
        requires
            old(self).wf(),
        ensures
            final(self).wf(),
            final(self).stale() == (old(self).stale() || stale_at(current, old(self).generation())),
            stale_at(current, old(self).generation()) ==> final(self).stale(),
            final(self).generation() == old(self).generation(),
            final(self).query() == old(self).query(),
            final(self).phase() == old(self).phase(),
            final(self).listing_view() == old(self).listing_view(),
            final(self).results_view() == old(self).results_view(),
            final(self).scanned() == old(self).scanned(),
    {
        if crate::generation::is_stale(current, self.my_seq) {
            self.stale = true;
        }
    }

    /// Whether the run has gone stale. The run still delivers whatever it
    /// has collected; staleness is a recognized outcome, not an error.
    pub fn went_stale(&self) -> (r: bool)
        ensures
            r == self.stale(),
    {
        self.stale
    }

    /// Considers one enumerated entry for the listing. Hidden names, non-files
    /// and entries without readable metadata are skipped — the per-entry,
    /// recoverable failures; everything else becomes a listing item. A stale
    /// run accepts no further entries, which is what stops the enumeration.
    pub fn offer_entry(&mut self, entry: &ListingEntry) -> (accepted: bool)
        requires
            old(self).wf(),
            old(self).phase() matches WorkerPhase::Listing,
            !old(self).stale(),
        ensures
            final(self).wf(),
            accepted == entry_accepted(entry@),
            accepted ==> final(self).listing_view() == old(self).listing_view().push(
                note_of(entry@),
            ),
            !accepted ==> final(self).listing_view() == old(self).listing_view(),
            final(self).generation() == old(self).generation(),
            final(self).query() == old(self).query(),
            final(self).stale() == old(self).stale(),
            final(self).phase() == old(self).phase(),
            final(self).results_view() == old(self).results_view(),
            final(self).scanned() == old(self).scanned(),
    {
        if crate::note::is_hidden(entry.file_name.as_str()) {
            return false;
        }
        if !entry.is_file {
            return false;
        }
        let modified: u64 = match entry.modified {
            Option::Some(m) => m,
            Option::None => {
                return false;
            },
        };
        let item = ListItem {
            path: entry.path.clone(),
            file_name: entry.file_name.clone(),
            modified,
            first_line: entry.first_line.clone(),
            found_line: Option::None,
        };
        proof {
            assert(item@ == note_of(entry@));
        }
        self.listing.push(item);
        proof {
            assert(self.listing_view() =~= old(self).listing_view().push(note_of(entry@)));
        }
        true
    }

    /// Ends the listing phase: sorts what was collected — the whole
    /// enumeration, or a partial one when the run went stale — and moves to
    /// the match phase. For the empty query there is nothing to match: the
    /// results become the full annotated listing right here, and the match
    /// phase has nothing left to do.
    pub fn finish_listing(&mut self, sort_by: SortMethod)
        requires
            old(self).wf(),
            old(self).phase() matches WorkerPhase::Listing,
        ensures
            final(self).wf(),
            final(self).listing_view() == sort_desc(old(self).listing_view()),
            sorted_desc(final(self).listing_view()),
            final(self).phase() matches WorkerPhase::Matching,
            final(self).scanned() == 0,
            final(self).generation() == old(self).generation(),
            final(self).query() == old(self).query(),
            final(self).stale() == old(self).stale(),
            old(self).query().len() == 0 ==> final(self).results_view() == annotate_all(
                sort_desc(old(self).listing_view()),
            ),
            old(self).query().len() > 0 ==> final(self).results_view() == Seq::<
                NoteView,
            >::empty(),
    {
        let mut collected: Vec<ListItem> = Vec::new();
        core::mem::swap(&mut collected, &mut self.listing);
        self.listing = sort_listing(collected, sort_by);
        self.phase = WorkerPhase::Matching;
        let empty_query = match &self.matcher {
            Option::None => true,
            Option::Some(_) => false,
        };
        if empty_query {
            let mut res: Vec<ListItem> = Vec::new();
            let ghost sorted = notes(self.listing@);
            proof {
                assert(notes(res@) =~= annotate_all(sorted.take(0)));
            }
            let mut i: usize = 0;
            while i < self.listing.len()
                invariant
                    i <= self.listing@.len(),
                    notes(self.listing@) == sorted,
                    notes(res@) == annotate_all(sorted.take(i as int)),
                decreases self.listing@.len() - i,
            {
                let item = &self.listing[i];
                let a = ListItem {
                    path: item.path.clone(),
                    file_name: item.file_name.clone(),
                    modified: item.modified,
                    first_line: item.first_line.clone(),
                    found_line: Option::Some(
                        MatchedLine { line_number: 1, text: item.first_line.clone() },
                    ),
                };
                proof {
                    assert(a@ == annotated(sorted[i as int]));
                }
                let ghost res_before = res@;
                res.push(a);
                proof {
                    assert(notes(res@) =~= notes(res_before).push(annotated(sorted[i as int])));
                    assert(annotate_all(sorted.take(i as int + 1)) =~= annotate_all(
                        sorted.take(i as int),
                    ).push(annotated(sorted[i as int])));
                }
                i = i + 1;
            }
            proof {
                assert(sorted.take(self.listing@.len() as int) =~= sorted);
            }
            self.results = res;
        }
    }

    /// Whether this run has nothing further to scan: it is in the match
    /// phase and is stale, has consumed its whole listing, or never had a
    /// match phase to run because the query was empty.
    pub open spec fn finished(&self) -> bool {
        &&& self.phase() matches WorkerPhase::Matching
        &&& (self.stale() || self.query().len() == 0 || self.scanned() == self.listing_view().len())
    }

    /// The match-phase loop test.
    pub fn is_finished(&self) -> (r: bool)
        requires
            self.wf(),
        ensures
            r == self.finished(),
    {
        match self.phase {
            WorkerPhase::Listing => false,
            WorkerPhase::Matching => {
                let empty_query = match &self.matcher {
                    Option::None => true,
                    Option::Some(_) => false,
                };
                self.stale || empty_query || self.next_idx == self.listing.len()
            },
        }
    }

    /// The path of the file the match phase wants to scan next; the caller
    /// reads it and hands the text back through [`Self::feed_content`].
    pub fn next_path(&self) -> (r: &String)
        requires
            self.wf(),
            self.phase() matches WorkerPhase::Matching,
            !self.finished(),
        ensures
            r@ == self.listing_view()[self.scanned()].path,
    {
        &self.listing[self.next_idx].path
    }

    /// The sorted listing this run collected.
    pub fn listing_items(&self) -> (r: &Vec<ListItem>)
        ensures
            notes(r@) == self.listing_view(),
    {
        &self.listing
    }

    /// Consumes one file's text — `None` when the file could not be read, a
    /// recoverable failure that skips the file. Exactly the first matching
    /// line, if any, joins the results, carrying its 1-based line number and
    /// trimmed text; a file with no matching line is excluded entirely.
    pub fn feed_content(&mut self, content: Option<&str>)
        requires
            old(self).wf(),
            old(self).phase() matches WorkerPhase::Matching,
            !old(self).finished(),
        ensures
            final(self).wf(),
            final(self).scanned() == old(self).scanned() + 1,
            final(self).results_view() == old(self).results_view() + opt_note_seq(
                file_result(
                    old(self).listing_view()[old(self).scanned()],
                    opt_text(content),
                    old(self).query(),
                ),
            ),
            final(self).generation() == old(self).generation(),
            final(self).query() == old(self).query(),
            final(self).stale() == old(self).stale(),
            final(self).phase() == old(self).phase(),
            final(self).listing_view() == old(self).listing_view(),
    {
        let ghost before = self.results_view();
        let hit: Option<(u64, String)> = match (&self.matcher, content) {
            (Option::Some(m), Option::Some(text)) => m.first_match(text),
            _ => Option::None,
        };
        match hit {
            Option::Some((line_number, line)) => {
                let text = crate::pattern::trim_text(line.as_str());
                let found = self.listing[self.next_idx].with_found_line(line_number, text);
                proof {
                    assert(Option::Some(found@) == file_result(
                        self.listing_view()[self.scanned()],
                        opt_text(content),
                        self.query(),
                    ));
                }
                self.results.push(found);
                proof {
                    assert(self.results_view() =~= before + opt_note_seq(
                        file_result(
                            self.listing_view()[self.scanned()],
                            opt_text(content),
                            self.query(),
                        ),
                    ));
                }
            },
            Option::None => {
                proof {
                    assert(file_result(
                        self.listing_view()[self.scanned()],
                        opt_text(content),
                        self.query(),
                    ) is None);
                    assert(self.results_view() =~= before + opt_note_seq(
                        file_result(
                            self.listing_view()[self.scanned()],
                            opt_text(content),
                            self.query(),
                        ),
                    ));
                }
            },
        }
        let n = self.listing.len();
        proof {
            assert(self.listing@.len() == old(self).listing_view().len());
            assert(self.next_idx < n);
        }
        self.next_idx = self.next_idx + 1;
    }

    /// How many of the sorted listing's files the match phase has consumed
    /// so far — how far the run got before finishing or going stale.
    pub fn scanned_count(&self) -> (r: usize)
        ensures
            r as int == self.scanned(),
    {
        self.next_idx
    }

    /// Gives up the run and keeps only its sorted listing: what a plain
    /// directory listing, with no match phase at all, consists of.
    pub fn take_listing(self) -> (r: Vec<ListItem>)
        requires
            self.wf(),
            self.phase() matches WorkerPhase::Matching,
        ensures
            notes(r@) == self.listing_view(),
    {
        self.listing
    }

    /// Packages the run's outcome: the results so far, tagged with this
    /// run's generation. `completed` says the run was never superseded and
    /// got through its whole listing.
    pub fn take_delivery(self) -> (d: Delivery)
        requires
            self.wf(),
            self.phase() matches WorkerPhase::Matching,
        ensures
            d.generation == self.generation(),
            notes(d.results@) == self.results_view(),
            d.completed == (!self.stale() && (self.query().len() == 0 || self.scanned()
                == self.listing_view().len())),
    {
        let empty_query = match &self.matcher {
            Option::None => true,
            Option::Some(_) => false,
        };
        let completed = !self.stale && (empty_query || self.next_idx == self.listing.len());
        Delivery { results: self.results, generation: self.my_seq, completed }
    }
}

/// The ghost image of a borrowed, possibly absent file text.
pub open spec fn opt_text(c: Option<&str>) -> Option<Seq<char>> {
    match c {
        Option::None => Option::None,
        Option::Some(s) => Option::Some(s@),
    }
}

} // verus!
