//! The scanner's choice among the entries of a folder.

use vstd::prelude::*;

verus! {

/// A file found in the source folder, with its creation time in whole seconds
/// since the Unix epoch.
#[derive(Debug)]
pub struct ListItem {
    pub metadata: i64,
    pub file_path: String,
}

impl ListItem {
    pub fn new(metadata: i64, file_path: String) -> (r: ListItem)
        ensures
            r.metadata == metadata,
            r.file_path@ == file_path@,
    {
        ListItem { metadata: metadata, file_path: file_path }
    }
}

/// What a listing tells of one entry of the folder.
#[derive(Debug)]
pub struct EntryInfo {
    pub path: String,
    pub is_file: bool,
    /// The creation time in seconds since the epoch, where it could be read.
    pub created: Option<i64>,
}

/// The scanner's result: the files to consider, and the files whose creation
/// time could not be read.
#[derive(Debug)]
pub struct ScanOutcome {
    pub records: Vec<ListItem>,
    pub unreadable: Vec<String>,
}

/// A record as a pair of creation time and path.
pub open spec fn item_view(x: ListItem) -> (i64, Seq<char>) {
    (x.metadata, x.file_path@)
}

pub open spec fn item_views(v: Seq<ListItem>) -> Seq<(i64, Seq<char>)> {
    v.map_values(|x: ListItem| item_view(x))
}

pub open spec fn path_views(v: Seq<String>) -> Seq<Seq<char>> {
    v.map_values(|s: String| s@)
}

/// The records of the entries, in order: one for each plain file whose
/// creation time was read.
pub open spec fn records_of(e: Seq<EntryInfo>) -> Seq<(i64, Seq<char>)>
    decreases e.len(),
{
    if e.len() == 0 {
        Seq::empty()
    } else {
        let rest = records_of(e.drop_last());
        let x = e.last();
        if x.is_file && x.created is Some {
            rest.push((x.created->0, x.path@))
        } else {
            rest
        }
    }
}

/// The paths of the plain files whose creation time could not be read, in order.
pub open spec fn unreadable_of(e: Seq<EntryInfo>) -> Seq<Seq<char>>
    decreases e.len(),
{
    if e.len() == 0 {
        Seq::empty()
    } else {
        let rest = unreadable_of(e.drop_last());
        let x = e.last();
        if x.is_file && x.created is None {
            rest.push(x.path@)
        } else {
            rest
        }
    }
}

/// Keeps the plain files of a listing. A file whose creation time could not
/// be read becomes no record and is reported in `unreadable` instead; other
/// entries (folders, links) are passed over.
pub fn collect_records(entries: &Vec<EntryInfo>) -> (r: ScanOutcome)
    ensures
        item_views(r.records@) == records_of(entries@),
        path_views(r.unreadable@) == unreadable_of(entries@),
{
    let mut records: Vec<ListItem> = Vec::new();
    let mut unreadable: Vec<String> = Vec::new();
    let mut i: usize = 0;
    while i < entries.len()
        invariant
            i <= entries.len(),
            item_views(records@) == records_of(entries@.subrange(0, i as int)),
            path_views(unreadable@) == unreadable_of(entries@.subrange(0, i as int)),
        decreases entries.len() - i,
    {
        let ghost before = entries@.subrange(0, i as int);
        let e = &entries[i];
        assert(entries@.subrange(0, i + 1).drop_last() =~= before);
        assert(entries@.subrange(0, i + 1).last() == entries@[i as int]);
        if e.is_file {
            match e.created {
                Some(t) => {
                    let ghost old_records = records@;
                    records.push(ListItem::new(t, e.path.clone()));
                    assert(item_views(records@) =~= item_views(old_records).push((t, e.path@)));
                },
                None => {
                    let ghost old_unreadable = unreadable@;
                    unreadable.push(e.path.clone());
                    assert(path_views(unreadable@) =~= path_views(old_unreadable).push(e.path@));
                },
            }
        }
        i += 1;
    }
    assert(entries@.subrange(0, i as int) =~= entries@);
    ScanOutcome { records, unreadable }
}

} // verus!
