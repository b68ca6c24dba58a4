//! The lockfile of an instance: the list of the releases that were installed
//! into it, kept as one document under the instance's mods directory.

use vstd::prelude::*;
use crate::error::ModpmError;
use crate::modrinth::{ModVersion, ModVersionFile, ModVersionFileView, ModVersionView, MpmMod};
use crate::text::{lemma_views_push, views};

verus! {

/// The operations on a lockfile.
pub struct ModpmLockfile {}

/// One installed release: the release, the file that was downloaded for it,
/// and the project where a front end attached it.
#[derive(Debug, Clone, PartialEq)]
pub struct LockfileMod {
    pub version: ModVersion,
    pub file: ModVersionFile,
    pub mpm_mod: Option<MpmMod>,
}

/// What a `LockfileMod` holds.
pub struct LockfileModView {
    pub version: ModVersionView,
    pub file: ModVersionFileView,
    pub mpm_mod: Option<MpmMod>,
}

impl View for LockfileMod {
    type V = LockfileModView;

    open spec fn view(&self) -> LockfileModView {
        LockfileModView { version: self.version@, file: self.file@, mpm_mod: self.mpm_mod }
    }
}

/// What reading the lockfile of an instance gave.
#[derive(Debug, Clone, PartialEq)]
pub enum LockfileRead {
    /// There is no lockfile.
    Absent,
    /// There is one, and it does not hold a list of entries.
    Malformed,
    /// The entries of the lockfile, in its order.
    Parsed(Vec<LockfileMod>),
}

/// The entries that a read stands for: none where the file is absent, and no
/// list at all where it is malformed.
pub open spec fn stored(read: LockfileRead) -> Option<Seq<LockfileModView>> {
    match read {
        LockfileRead::Absent => Some(Seq::empty()),
        LockfileRead::Malformed => None,
        LockfileRead::Parsed(list) => Some(views(list@)),
    }
}

/// The entry that records `file` as the download of `version`.
pub open spec fn entry_of(version: ModVersionView, file: ModVersionFileView) -> LockfileModView {
    LockfileModView { version, file, mpm_mod: None }
}

/// Whether `entries` hold a release of the project `project_id`.
pub open spec fn records(entries: Seq<LockfileModView>, project_id: Seq<char>) -> bool {
    exists|i: int| 0 <= i < entries.len() && (#[trigger] entries[i]).version.project_id == project_id
}

/// The name of the lockfile inside a mods directory.
pub open spec fn lockfile_name() -> Seq<char> {
    "/.modpm_lockfile.json"@
}

impl ModpmLockfile {
    /// The entries of a lockfile. An absent file holds none; a malformed one
    /// is an error and never read as empty.
    pub fn get_lockfile(read: LockfileRead) -> (r: Result<Vec<LockfileMod>, ModpmError>)
        ensures
            match r {
                Ok(list) => stored(read) == Some(views(list@)),
                Err(e) => e == ModpmError::CorruptLockfile && stored(read) is None,
            },
            read matches LockfileRead::Parsed(given) ==> r matches Ok(list) && list == given,
    {
        match read {
            LockfileRead::Absent => {
                let list: Vec<LockfileMod> = Vec::new();
                assert(views(list@) =~= Seq::<LockfileModView>::empty());
                Ok(list)
            },
            LockfileRead::Malformed => Err(ModpmError::CorruptLockfile),
            LockfileRead::Parsed(list) => Ok(list),
        }
    }

    /// The document to write back after `file` was downloaded for `version`:
    /// the entries that were read, in their order, and the new entry last.
    pub fn add_to_lockfile(read: LockfileRead, version: &ModVersion, file: &ModVersionFile) -> (r:
        Result<Vec<LockfileMod>, ModpmError>)
        ensures
            match r {
                Ok(list) => stored(read) matches Some(prior) && views(list@) == prior.push(
                    entry_of(version@, file@),
                ),
                Err(e) => e == ModpmError::CorruptLockfile && stored(read) is None,
            },
    {
        match ModpmLockfile::get_lockfile(read) {
            Ok(list) => {
                let mut list = list;
                let entry = LockfileMod {
                    version: version.clone(),
                    file: file.clone(),
                    mpm_mod: None,
                };
                proof {
                    lemma_views_push(list@, entry);
                }
                list.push(entry);
                Ok(list)
            },
            Err(e) => Err(e),
        }
    }

    /// Whether `entries` hold a release of the project `project_id`.
    pub fn has_project(entries: &Vec<LockfileMod>, project_id: &String) -> (r: bool)
        ensures
            r == records(views(entries@), project_id@),
    {
        let mut i: usize = 0;
        while i < entries.len()
            invariant
                i <= entries.len(),
                forall|j: int| 0 <= j < i ==> entries[j].version.project_id@ != project_id@,
            decreases entries.len() - i,
        {
            if entries[i].version.project_id == *project_id {
                assert(views(entries@)[i as int].version.project_id == project_id@);
                return true;
            }
            i = i + 1;
        }
        assert(!records(views(entries@), project_id@)) by {
            if records(views(entries@), project_id@) {
                let j = choose|j: int|
                    0 <= j < views(entries@).len() && (#[trigger] views(
                        entries@,
                    )[j]).version.project_id == project_id@;
                assert(entries[j].version.project_id@ == project_id@);
            }
        }
        false
    }

    /// Where the lockfile lies, given the mods directory of the instance.
    pub fn path(mods_directory: &str) -> (r: String)
        ensures
            r@ == mods_directory@ + lockfile_name(),
    {
        crate::text::joined(mods_directory, "/.modpm_lockfile.json")
    }
}

/// Reading back what an append wrote gives the entries that were there
/// before, in their order, followed by the new entry. On a lockfile that was
/// absent or empty, that is the new entry alone.
pub proof fn lemma_append_then_get(
    read: LockfileRead,
    written: Vec<LockfileMod>,
    version: ModVersionView,
    file: ModVersionFileView,
)
    requires
        stored(read) matches Some(prior) && views(written@) == prior.push(entry_of(version, file)),
    ensures
        stored(LockfileRead::Parsed(written)) == Some(stored(read)->0.push(entry_of(version, file))),
        stored(LockfileRead::Parsed(written))->0.len() == stored(read)->0.len() + 1,
        stored(LockfileRead::Parsed(written))->0.last() == entry_of(version, file),
        forall|i: int|
            0 <= i < stored(read)->0.len() ==> stored(LockfileRead::Parsed(written))->0[i]
                == stored(read)->0[i],
        stored(read)->0.len() == 0 ==> stored(LockfileRead::Parsed(written)) == Some(
            seq![entry_of(version, file)],
        ),
        records(stored(LockfileRead::Parsed(written))->0, version.project_id),
{
    let prior = stored(read)->0;
    let after = stored(LockfileRead::Parsed(written))->0;
    assert(after[prior.len() as int].version.project_id == version.project_id);
    if prior.len() == 0 {
        assert(after =~= seq![entry_of(version, file)]);
    }
}

} // verus!
