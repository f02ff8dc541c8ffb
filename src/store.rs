//! The profile store: loading and saving the profile set as a whole, and the
//! migration from the legacy file to the current one.

use vstd::prelude::*;
use crate::error::{Loaded, Persisted, StoreError, persist_result, persist_result_spec};
use crate::paths::{
    current_store_path, legacy_store_path, legacy_path_of, resolved_store_path, store_path_of,
};
use crate::profile::ProfileSet;

verus! {

/// What `load` reads, given what the legacy and the current store files
/// hold (`None`: no such file): the legacy file while it is the only one,
/// else the current file.
pub open spec fn store_source(legacy: Option<ProfileSet>, current: Option<ProfileSet>) -> Loaded<ProfileSet> {
    if legacy is Some && current is None {
        Loaded::Parsed(legacy->Some_0)
    } else {
        match current {
            Some(s) => Loaded::Parsed(s),
            None => Loaded::Absent,
        }
    }
}

/// The legacy and current store files after saving `set`: the set is in the
/// current file, and the legacy file is gone unless removing it failed.
pub open spec fn files_after_save(
    legacy: Option<ProfileSet>,
    current: Option<ProfileSet>,
    set: ProfileSet,
    removal_failed: bool,
) -> (Option<ProfileSet>, Option<ProfileSet>) {
    (if removal_failed { legacy } else { None }, Some(set))
}

/// Whether `r` is what `load` returns on reading `found`.
pub open spec fn loads_as(found: Loaded<ProfileSet>, r: Result<ProfileSet, StoreError>) -> bool {
    match found {
        Loaded::Absent => r is Ok && r->Ok_0.profiles@.len() == 0 && r->Ok_0.current is None,
        Loaded::Unreadable(e) => r == Err::<ProfileSet, StoreError>(StoreError::Read(e)),
        Loaded::Malformed(e) => r == Err::<ProfileSet, StoreError>(StoreError::Parse(e)),
        Loaded::Parsed(s) => r == Ok::<ProfileSet, StoreError>(s),
    }
}

/// The profile set, from what reading the resolved store file gave: the
/// empty set when there is no file, a read or parse error when the file
/// could not be read or parsed.
pub fn load_profiles(found: Loaded<ProfileSet>) -> (r: Result<ProfileSet, StoreError>)
    ensures
        loads_as(found, r),
{
    match found {
        Loaded::Absent => Ok(ProfileSet::new()),
        Loaded::Unreadable(e) => Err(StoreError::Read(e)),
        Loaded::Malformed(e) => Err(StoreError::Parse(e)),
        Loaded::Parsed(s) => Ok(s),
    }
}

/// Where a save writes, and the legacy file to remove once the write has
/// succeeded.
pub struct SavePlan {
    pub target: String,
    pub legacy_cleanup: Option<String>,
}

/// The plan of a save: always write the current-format file, and remove the
/// legacy file afterwards when it exists.
pub fn save_profiles(home: &str, app: &str, legacy_exists: bool) -> (r: SavePlan)
    ensures
        r.target@ == store_path_of(home@, app@),
        r.legacy_cleanup is Some <==> legacy_exists,
        r.legacy_cleanup is Some ==> r.legacy_cleanup->Some_0@ == legacy_path_of(home@, app@),
{
    let target = current_store_path(home, app);
    let legacy_cleanup = if legacy_exists {
        Some(legacy_store_path(home, app))
    } else {
        None
    };
    SavePlan { target, legacy_cleanup }
}

impl SavePlan {
    /// The save's result from the outcome of the write, and the legacy file
    /// to remove now: only after a successful write. A failure to remove it
    /// is to be ignored.
    pub fn complete(self, outcome: Persisted) -> (r: (Result<(), StoreError>, Option<String>))
        ensures
            r.0 == persist_result_spec(outcome),
            r.1 == (if outcome is Written { self.legacy_cleanup } else { None }),
    {
        let written = match &outcome {
            Persisted::Written => true,
            _ => false,
        };
        let result = persist_result(outcome);
        if written {
            (result, self.legacy_cleanup)
        } else {
            (result, None)
        }
    }
}

/// Saving a set and loading again gives the set back, whatever the store
/// files held before and whether or not the legacy file could be removed;
/// and the load reads the very file that the save wrote.
pub proof fn lemma_save_then_load(
    home: Seq<char>,
    app: Seq<char>,
    legacy: Option<ProfileSet>,
    current: Option<ProfileSet>,
    set: ProfileSet,
    removal_failed: bool,
)
    ensures
        ({
            let after = files_after_save(legacy, current, set, removal_failed);
            &&& store_source(after.0, after.1) == Loaded::Parsed(set)
            &&& resolved_store_path(home, app, after.0 is Some, after.1 is Some) == store_path_of(home, app)
        }),
{
}

/// With only the legacy file present, load reads it; the first save writes
/// the current file and removes the legacy one; a second save has no legacy
/// file left to remove and leaves the files in the same shape.
pub proof fn lemma_migration(
    home: Seq<char>,
    app: Seq<char>,
    old_set: ProfileSet,
    first: ProfileSet,
    second: ProfileSet,
)
    ensures
        store_source(Some(old_set), None) == Loaded::Parsed(old_set),
        resolved_store_path(home, app, true, false) == legacy_path_of(home, app),
        files_after_save(Some(old_set), None, first, false) == (None::<ProfileSet>, Some(first)),
        store_source(None, Some(first)) == Loaded::Parsed(first),
        resolved_store_path(home, app, false, true) == store_path_of(home, app),
        files_after_save(None, Some(first), second, false) == (None::<ProfileSet>, Some(second)),
        files_after_save(None, Some(first), second, true) == (None::<ProfileSet>, Some(second)),
{
}

/// With no store file, load reads nothing and gives the empty set.
pub proof fn lemma_first_run(home: Seq<char>, app: Seq<char>, r: Result<ProfileSet, StoreError>)
    requires
        loads_as(store_source(None, None), r),
    ensures
        r is Ok,
        r->Ok_0.profiles@.len() == 0,
        r->Ok_0.current is None,
        resolved_store_path(home, app, false, false) == store_path_of(home, app),
{
}

/// Importing what export gave (the set that load returns) and loading
/// again gives that same set.
pub proof fn lemma_import_export(
    legacy: Option<ProfileSet>,
    current: Option<ProfileSet>,
    exported: ProfileSet,
    removal_failed: bool,
)
    requires
        loads_as(store_source(legacy, current), Ok(exported)),
    ensures
        ({
            let after = files_after_save(legacy, current, exported, removal_failed);
            loads_as(store_source(after.0, after.1), Ok(exported))
        }),
{
}

/// A store file that does not parse makes load fail with a parse error.
pub proof fn lemma_malformed_store(diagnostic: String, r: Result<ProfileSet, StoreError>)
    requires
        loads_as(Loaded::Malformed(diagnostic), r),
    ensures
        r == Err::<ProfileSet, StoreError>(StoreError::Parse(diagnostic)),
{
}

} // verus!
