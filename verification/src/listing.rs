//! What the printer's FTP server lists.

use crate::clock::{Span, Timestamp};
use vstd::prelude::*;

verus! {

/// A file in a directory of the printer.
#[derive(Debug)]
pub struct ListEntry {
    pub name: String,
    pub modified: Timestamp,
    pub size: usize,
}

/// What a [`ListEntry`] says.
pub struct EntryView {
    pub name: Seq<char>,
    pub modified: Timestamp,
    pub size: usize,
}

impl View for ListEntry {
    type V = EntryView;

    open spec fn view(&self) -> EntryView {
        EntryView { name: self.name@, modified: self.modified, size: self.size }
    }
}

/// What the entries say, in order.
pub open spec fn entry_views(entries: Seq<ListEntry>) -> Seq<EntryView> {
    entries.map_values(|e: ListEntry| e@)
}

/// What `suppaftp` reads from a line of a listing in a year, if it can be read.
pub uninterp spec fn listed_in(line: Seq<char>, year: int) -> Option<EntryView>;

/// What an entry says, if there is one.
pub open spec fn entry_view(entry: Option<ListEntry>) -> Option<EntryView> {
    match entry {
        Some(entry) => Some(entry@),
        None => None,
    }
}

/// Whether this is what is read from a line, in the year that it happens to be. A
/// line may leave the year of the date out, which is then taken to be the current
/// one. The name and the size are the same in every year, and a file is dated no
/// earlier than the start of 1970.
pub open spec fn is_read_from(entry: Option<EntryView>, line: Seq<char>) -> bool {
    &&& exists|year: int| entry == #[trigger] listed_in(line, year)
    &&& entry matches Some(file) ==> {
        &&& file.modified is AfterEpoch
        &&& file.modified.wf()
        &&& forall|year: int|
            #[trigger] listed_in(line, year) matches Some(other) ==> other.name == file.name
                && other.size == file.size
    }
}

/// Reads a line of a listing, through `suppaftp::list::File::try_from`.
///
/// Trusted: whether the line can be read, and what is read from it, depend on the
/// line and the current year alone, and are named [`listed_in`]. The name and the
/// size do not depend on the year. A date before the start of 1970 is taken to be
/// at it.
#[verifier::external_body]
fn parse_line(line: &str) -> (r: Option<ListEntry>)
    ensures
        exists|year: int| entry_view(r) == #[trigger] listed_in(line@, year),
        r matches Some(file) ==> file.modified is AfterEpoch && file.modified.wf(),
        r matches Some(file) ==> forall|year: int|
            #[trigger] listed_in(line@, year) matches Some(other) ==> other.name == file.name@
                && other.size == file.size,
{
    match suppaftp::list::File::try_from(line) {
        Ok(file) => Some(ListEntry {
            name: file.name().to_string(),
            modified: match file.modified().duration_since(std::time::UNIX_EPOCH) {
                Ok(d) => Timestamp::AfterEpoch(Span { secs: d.as_secs(), nanos: d.subsec_nanos() }),
                Err(e) => Timestamp::BeforeEpoch(
                    Span { secs: e.duration().as_secs(), nanos: e.duration().subsec_nanos() },
                ),
            },
            size: file.size(),
        }),
        Err(_) => None,
    }
}

/// The entries that there are, in order.
pub open spec fn present_views(read: Seq<Option<ListEntry>>) -> Seq<EntryView>
    decreases read.len(),
{
    if read.len() == 0 {
        Seq::empty()
    } else {
        match read.last() {
            Some(entry) => present_views(read.drop_last()).push(entry@),
            None => present_views(read.drop_last()),
        }
    }
}

/// Keeps the entries that there are, in order.
pub fn present(read: Vec<Option<ListEntry>>) -> (entries: Vec<ListEntry>)
    ensures
        entry_views(entries@) == present_views(read@),
{
    let ghost all = read@;
    let mut entries: Vec<ListEntry> = Vec::new();
    for entry in it: read
        invariant
            it.seq() == all,
            entry_views(entries@) == present_views(all.take(it.index() as int)),
    {
        let ghost more = all.take(it.index() + 1);
        assert(more.drop_last() == all.take(it.index() as int));
        assert(more.last() == entry);
        let ghost before = entry_views(entries@);
        if let Some(entry) = entry {
            entries.push(entry);
            assert(entry_views(entries@) == before.push(entry@));
        }
    }
    assert(all.take(all.len() as int) == all);
    entries
}

/// Whether each entry is what is read from the line at its place.
pub open spec fn read_from(read: Seq<Option<ListEntry>>, lines: Seq<String>) -> bool {
    &&& read.len() == lines.len()
    &&& forall|i: int|
        0 <= i < read.len() ==> is_read_from(entry_view(#[trigger] read[i]), lines[i]@)
}

/// Reads a listing. Lines that cannot be read are passed over; the others keep
/// their order.
pub fn parse_listing(lines: &Vec<String>) -> (entries: Vec<ListEntry>)
    ensures
        exists|read: Seq<Option<ListEntry>>|
            #![trigger present_views(read)]
            read_from(read, lines@) && entry_views(entries@) == present_views(read),
{
    let mut read: Vec<Option<ListEntry>> = Vec::new();
    for i in 0..lines.len()
        invariant
            read@.len() == i,
            forall|j: int|
                0 <= j < i ==> is_read_from(entry_view(#[trigger] read@[j]), lines@[j]@),
    {
        read.push(parse_line(lines[i].as_str()));
    }
    let ghost all = read@;
    let entries = present(read);
    assert(read_from(all, lines@));
    entries
}

/// A line that was read adds its entry at the end, and one that was not read adds
/// nothing.
pub proof fn law_entries_follow_the_lines(read: Seq<Option<ListEntry>>, entry: ListEntry)
    ensures
        present_views(Seq::empty()) == Seq::<EntryView>::empty(),
        present_views(read.push(Some(entry))) == present_views(read).push(
            EntryView { name: entry.name@, modified: entry.modified, size: entry.size },
        ),
        present_views(read.push(None)) == present_views(read),
{
    assert(read.push(Some(entry)).drop_last() == read);
    assert(read.push(None).drop_last() == read);
}

} // verus!
