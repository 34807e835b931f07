//! The result data model: one entry per file, with an optional matched line.

use vstd::prelude::*;

verus! {

/// A line that a pattern matched inside a file: its 1-based line number and
/// the trimmed text of the line.
pub struct MatchedLine {
    pub line_number: u64,
    pub text: String,
}

/// One file in a result list: identity, display metadata, and — for a
/// pattern-filtered run — the first line the pattern matched.
pub struct ListItem {
    /// Path of the file; the identity key within one snapshot.
    pub path: String,
    /// Display name, derived from the path by the lister.
    pub file_name: String,
    /// Last-modification time in seconds since the epoch; result lists are
    /// ordered by this field, newest first.
    pub modified: u64,
    /// First line of the file, trimmed; the fallback preview.
    pub first_line: String,
    /// `None` for a plain listing entry, `Some` for every element of a
    /// pattern-filtered result set.
    pub found_line: Option<MatchedLine>,
}

/// How a listing is ordered before the match phase runs over it.
pub enum SortMethod {
    DateNewest,
}

/// Ghost shape of a [`MatchedLine`].
pub struct MatchedLineView {
    pub line_number: u64,
    pub text: Seq<char>,
}

/// Ghost shape of a [`ListItem`].
pub struct NoteView {
    pub path: Seq<char>,
    pub file_name: Seq<char>,
    pub modified: u64,
    pub first_line: Seq<char>,
    pub found_line: Option<MatchedLineView>,
}

impl View for MatchedLine {
    type V = MatchedLineView;

    open spec fn view(&self) -> MatchedLineView {
        MatchedLineView { line_number: self.line_number, text: self.text@ }
    }
}

impl View for ListItem {
    type V = NoteView;

    open spec fn view(&self) -> NoteView {
        NoteView {
            path: self.path@,
            file_name: self.file_name@,
            modified: self.modified,
            first_line: self.first_line@,
            found_line: match self.found_line {
                Option::None => Option::None,
                Option::Some(m) => Option::Some(m@),
            },
        }
    }
}

/// What the directory lister reports for one enumerated entry, before the
/// pipeline has decided anything about it. The lister is an outside
/// capability; everything here is plain data.
pub struct ListingEntry {
    /// Path of the entry.
    pub path: String,
    /// Final name component, what the hidden-file rule inspects.
    pub file_name: String,
    /// Whether the entry is a regular file; directories and other entries are
    /// never listed.
    pub is_file: bool,
    /// Last-modification time in seconds since the epoch, or `None` when the
    /// metadata could not be read — a per-entry, recoverable failure that
    /// skips the entry.
    pub modified: Option<u64>,
    /// First line of the file, trimmed; empty when it could not be read.
    pub first_line: String,
}

/// Ghost shape of a [`ListingEntry`].
pub struct ListingEntryView {
    pub path: Seq<char>,
    pub file_name: Seq<char>,
    pub is_file: bool,
    pub modified: Option<u64>,
    pub first_line: Seq<char>,
}

impl View for ListingEntry {
    type V = ListingEntryView;

    open spec fn view(&self) -> ListingEntryView {
        ListingEntryView {
            path: self.path@,
            file_name: self.file_name@,
            is_file: self.is_file,
            modified: self.modified,
            first_line: self.first_line@,
        }
    }
}

/// An enumerated entry together with the file's text, read by the caller:
/// everything one search run needs to know about one file. `content` is
/// `None` when the file could not be read — a per-file, recoverable failure.
pub struct FileSnapshot {
    pub entry: ListingEntry,
    pub content: Option<String>,
}

/// Ghost shape of a [`FileSnapshot`].
pub struct FileSnapshotView {
    pub entry: ListingEntryView,
    pub content: Option<Seq<char>>,
}

impl View for FileSnapshot {
    type V = FileSnapshotView;

    open spec fn view(&self) -> FileSnapshotView {
        FileSnapshotView {
            entry: self.entry@,
            content: match self.content {
                Option::None => Option::None,
                Option::Some(ref c) => Option::Some(c@),
            },
        }
    }
}

/// Which enumerated entries become listing items: visible regular files
/// whose metadata could be read.
pub open spec fn entry_accepted(e: ListingEntryView) -> bool {
    &&& !is_hidden_name(e.file_name)
    &&& e.is_file
    &&& e.modified is Some
}

/// The listing item an accepted entry turns into: a plain listing carries no
/// matched line.
pub open spec fn note_of(e: ListingEntryView) -> NoteView {
    NoteView {
        path: e.path,
        file_name: e.file_name,
        modified: e.modified->0,
        first_line: e.first_line,
        found_line: Option::None,
    }
}

/// A listing item annotated as the empty query annotates it: as if every
/// file matched at line 1 with its own first line.
pub open spec fn annotated(n: NoteView) -> NoteView {
    NoteView {
        found_line: Option::Some(MatchedLineView { line_number: 1, text: n.first_line }),
        ..n
    }
}

/// A whole listing annotated for the empty query: the full unfiltered
/// listing, in its given order.
pub open spec fn annotate_all(s: Seq<NoteView>) -> Seq<NoteView> {
    s.map_values(|n: NoteView| annotated(n))
}

/// What one finished run hands the consumer: the result list, the generation
/// of the run that built it, and whether the run got through every file or
/// was truncated by staleness.
pub struct Delivery {
    pub results: Vec<ListItem>,
    pub generation: u64,
    pub completed: bool,
}

impl ListItem {
    /// A copy of this listing item carrying a matched line: what the match
    /// phase appends to the results when a pattern hits this file.
    pub fn with_found_line(&self, line_number: u64, text: String) -> (r: ListItem)
        ensures
            r@ == (NoteView {
                found_line: Option::Some(MatchedLineView { line_number, text: text@ }),
                ..self@
            }),
    {
        ListItem {
            path: self.path.clone(),
            file_name: self.file_name.clone(),
            modified: self.modified,
            first_line: self.first_line.clone(),
            found_line: Option::Some(MatchedLine { line_number, text }),
        }
    }
}

/// A name is hidden when it starts with a dot; hidden files and directories
/// are excluded from every listing.
pub open spec fn is_hidden_name(name: Seq<char>) -> bool {
    name.len() > 0 && name[0] == '.'
}

/// Whether a file or directory name counts as hidden.
pub fn is_hidden(name: &str) -> (r: bool)
    ensures
        r == is_hidden_name(name@),
{
    if name.unicode_len() == 0 {
        false
    } else {
        name.get_char(0) == '.'
    }
}

} // verus!
