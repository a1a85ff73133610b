//! Where each file goes: the folder of its date under the source folder.

use vstd::prelude::*;
use vstd::string::StrSliceExecFns;
use vstd::string::StringExecFns;
use crate::date::bucket_name;
use crate::date::convert_sec_to_ymd;
use crate::scan::ListItem;
use crate::text::check_extension;
use crate::text::has_marker;
use crate::text::upper_of;

verus! {

/// What becomes of one file of the source folder.
#[derive(Debug)]
pub enum FileAction {
    /// Not of a sorted kind: it stays where it is.
    Leave,
    /// Of a sorted kind, but its creation time has no calendar date: it stays
    /// where it is.
    NoDate { source: String },
    /// Make sure `folder` exists, then move `source` to `destination`.
    Move { source: String, folder: String, destination: String },
}

/// The length of `s` up to and with its last `/`; zero where it has none.
pub open spec fn last_slash_end(s: Seq<char>) -> int
    decreases s.len(),
{
    if s.len() == 0 {
        0
    } else if s.last() == '/' {
        s.len() as int
    } else {
        last_slash_end(s.drop_last())
    }
}

/// The last `/`-separated part of a path: all of it where it has no `/`.
pub open spec fn base_name(s: Seq<char>) -> Seq<char> {
    s.subrange(last_slash_end(s), s.len() as int)
}

/// Two parts of a path joined by `/`.
pub open spec fn join(a: Seq<char>, b: Seq<char>) -> Seq<char> {
    a + seq!['/'] + b
}

/// `a` is what becomes of `item` in the folder `parent`.
pub open spec fn action_for(a: FileAction, item: ListItem, parent: Seq<char>) -> bool {
    if !has_marker(upper_of(item.file_path@)) {
        a is Leave
    } else {
        match bucket_name(item.metadata as int) {
            None => match a {
                FileAction::NoDate { source } => source@ == item.file_path@,
                _ => false,
            },
            Some(name) => match a {
                FileAction::Move { source, folder, destination } => {
                    &&& source@ == item.file_path@
                    &&& folder@ == join(parent, name)
                    &&& destination@ == join(join(parent, name), base_name(item.file_path@))
                },
                _ => false,
            },
        }
    }
}

/// The file name at the end of a path: what follows its last `/`.
pub fn base_name_of(path: &str) -> (r: String)
    ensures
        r@ == base_name(path@),
{
    let n = path.unicode_len();
    let mut i: usize = n;
    assert(path@.subrange(0, n as int) =~= path@);
    while i > 0 && path.get_char(i - 1) != '/'
        invariant
            n == path@.len(),
            i <= n,
            last_slash_end(path@) == last_slash_end(path@.subrange(0, i as int)),
        decreases i,
    {
        assert(path@.subrange(0, i as int).drop_last() =~= path@.subrange(0, i - 1));
        i -= 1;
    }
    path.substring_char(i, n).to_owned()
}

/// `a` and `b` joined by `/`.
pub fn join_path(a: &str, b: &str) -> (r: String)
    ensures
        r@ == join(a@, b@),
{
    let mut s = a.to_owned();
    proof {
        reveal_strlit("/");
    }
    s.append("/");
    s.append(b);
    s
}

/// The action for one file in the folder `parent_folder_path`.
pub fn action_for_item(file: &ListItem, parent_folder_path: &str) -> (r: FileAction)
    ensures
        action_for(r, *file, parent_folder_path@),
{
    let file_path: &str = file.file_path.as_str();
    if !check_extension(file_path) {
        return FileAction::Leave;
    }
    match convert_sec_to_ymd(file.metadata) {
        None => FileAction::NoDate { source: file.file_path.clone() },
        Some(name) => {
            let folder = join_path(parent_folder_path, name.as_str());
            let destination = join_path(folder.as_str(), base_name_of(file_path).as_str());
            FileAction::Move { source: file.file_path.clone(), folder, destination }
        },
    }
}

/// The action for each file of a scan, in order: a file of a sorted kind goes
/// to `<parent>/<YYYY.MM.DD>/<its name>`, the folder of its creation date;
/// any other file stays.
pub fn file_hendler(file_list: Vec<ListItem>, parent_folder_path: &str) -> (r: Vec<FileAction>)
    ensures
        r.len() == file_list.len(),
        forall|i: int|
            0 <= i < r.len() ==> action_for(#[trigger] r[i], file_list[i], parent_folder_path@),
{
    let mut r: Vec<FileAction> = Vec::new();
    let mut i: usize = 0;
    while i < file_list.len()
        invariant
            i <= file_list.len(),
            r.len() == i,
            forall|k: int|
                0 <= k < i ==> action_for(#[trigger] r[k], file_list[k], parent_folder_path@),
        decreases file_list.len() - i,
    {
        r.push(action_for_item(&file_list[i], parent_folder_path));
        i += 1;
    }
    r
}

/// What creating a folder came to.
#[derive(Debug, Clone, Copy, PartialEq, Eq, Structural)]
pub enum DirCreation {
    Created,
    AlreadyExists,
    Failed,
}

/// The folder is there to move into: it was made, or it was there already.
pub open spec fn ensured(o: DirCreation) -> bool {
    o is Created || o is AlreadyExists
}

/// Whether a file may be moved after its folder was asked for: a folder that
/// already exists counts as made, any other failure skips the move.
pub fn dir_ready(outcome: DirCreation) -> (r: bool)
    ensures
        r == ensured(outcome),
{
    match outcome {
        DirCreation::Failed => false,
        _ => true,
    }
}

/// Asking twice for the same folder succeeds both times: the first call makes
/// it, and the second finds it there.
pub proof fn lemma_ensure_twice()
    ensures
        ensured(DirCreation::Created),
        ensured(DirCreation::AlreadyExists),
{
}

} // verus!
