//! The library's model of one directory of the filesystem.
//!
//! A `Directory` is the listing of a directory's direct children; each
//! child has a name, a flag saying whether it is itself a directory,
//! and its byte content.  The create operations work on this model and
//! report their outcome; the shell around the library mirrors a
//! `Created` outcome onto the real filesystem.

use vstd::prelude::*;

use crate::Outcome;

verus! {

/// One child of a directory: its name, whether it is itself a
/// directory, and its byte content (empty for directories and for
/// freshly created files).
#[derive(Debug, Clone, PartialEq)]
pub struct FsEntry {
    pub name: String,
    pub is_dir: bool,
    pub content: Vec<u8>,
}

/// The mathematical model of one directory entry.
#[verifier::ext_equal]
pub struct EntryModel {
    pub name: Seq<char>,
    pub is_dir: bool,
    pub content: Seq<u8>,
}

impl View for FsEntry {
    type V = EntryModel;

    open spec fn view(&self) -> EntryModel {
        EntryModel { name: self.name@, is_dir: self.is_dir, content: self.content@ }
    }
}

/// The listing of one directory's direct children, in the order the
/// filesystem yields them.
#[derive(Debug, Clone, PartialEq)]
pub struct Directory {
    pub entries: Vec<FsEntry>,
}

impl View for Directory {
    type V = Seq<EntryModel>;

    open spec fn view(&self) -> Seq<EntryModel> {
        self.entries@.map_values(|e: FsEntry| e@)
    }
}

/// Whether the listing holds an entry of exactly this name.
pub open spec fn dir_contains_name(d: Seq<EntryModel>, name: Seq<char>) -> bool {
    exists|i: int| 0 <= i < d.len() && d[i].name == name
}

/// The outcome of asking for an entry named `name`: newly created when
/// absent, otherwise reported as already existing.
pub open spec fn create_outcome(d: Seq<EntryModel>, name: Seq<char>) -> Outcome {
    if dir_contains_name(d, name) {
        Outcome::AlreadyExisted
    } else {
        Outcome::Created
    }
}

/// The listing after asking for an entry named `name`: unchanged when
/// such an entry is present, else extended at the end with one empty
/// entry of that name.
pub open spec fn dir_after_create(d: Seq<EntryModel>, name: Seq<char>, is_dir: bool) -> Seq<
    EntryModel,
> {
    if dir_contains_name(d, name) {
        d
    } else {
        d.push(EntryModel { name: name, is_dir: is_dir, content: Seq::empty() })
    }
}

/// Whether `dir` already has an entry of exactly the name `name`.
pub fn dir_has_entry(dir: &Directory, name: &String) -> (r: bool)
    ensures
        r == dir_contains_name(dir@, name@),
{
    let n = dir.entries.len();
    let mut i: usize = 0;
    while i < n
        invariant
            i <= n,
            n == dir.entries.len(),
            forall|j: int| 0 <= j < i ==> dir@[j].name != name@,
        decreases n - i,
    {
        if dir.entries[i].name == *name {
            proof {
                assert(dir@[i as int].name == name@);
            }
            return true;
        }
        i = i + 1;
    }
    false
}

/// Creates an entry named `name` in the modelled directory unless one
/// of that exact name is already present, and reports which happened.
/// An existing entry is never touched, whatever it holds.
pub fn create_entry(dir: &mut Directory, name: String, is_dir: bool) -> (o: Outcome)
    ensures
        o == create_outcome(old(dir)@, name@),
        final(dir)@ == dir_after_create(old(dir)@, name@, is_dir),
{
    let ghost name_view = name@;
    if dir_has_entry(dir, &name) {
        Outcome::AlreadyExisted
    } else {
        let entry = FsEntry { name, is_dir, content: Vec::new() };
        dir.entries.push(entry);
        proof {
            assert(dir@ =~= dir_after_create(old(dir)@, name_view, is_dir));
        }
        Outcome::Created
    }
}

/// Law: a second create request for the same name reports
/// `AlreadyExisted` and leaves the listing exactly as the first request
/// left it; the first request reports `Created` whenever the name was
/// absent.
pub proof fn lemma_create_idempotent(d: Seq<EntryModel>, name: Seq<char>, is_dir: bool)
    ensures
        !dir_contains_name(d, name) ==> create_outcome(d, name) == Outcome::Created,
        create_outcome(dir_after_create(d, name, is_dir), name) == Outcome::AlreadyExisted,
        dir_after_create(dir_after_create(d, name, is_dir), name, is_dir) == dir_after_create(
            d,
            name,
            is_dir,
        ),
{
    let d1 = dir_after_create(d, name, is_dir);
    if !dir_contains_name(d, name) {
        assert(d1[d.len() as int].name == name);
        assert(dir_contains_name(d1, name));
    }
}

/// Law: once a create request for a name has reported `Created`, a
/// later request for the same name reports `AlreadyExisted` and changes
/// nothing, however the entries' contents have been rewritten in the
/// meantime: only the names decide.
pub proof fn lemma_create_never_overwrites(
    d: Seq<EntryModel>,
    name: Seq<char>,
    is_dir: bool,
    later: Seq<EntryModel>,
)
    requires
        create_outcome(d, name) == Outcome::Created,
        later.len() == dir_after_create(d, name, is_dir).len(),
        forall|i: int|
            0 <= i < later.len() ==> later[i].name == dir_after_create(d, name, is_dir)[i].name,
    ensures
        create_outcome(later, name) == Outcome::AlreadyExisted,
        dir_after_create(later, name, is_dir) == later,
{
    let d1 = dir_after_create(d, name, is_dir);
    assert(!dir_contains_name(d, name));
    assert(d1[d.len() as int].name == name);
    assert(later[d.len() as int].name == name);
    assert(dir_contains_name(later, name));
}

} // verus!
