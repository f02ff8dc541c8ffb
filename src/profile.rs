//! The data that is stored: profiles, the profile set, and the two fields
//! of the application's config file.

use vstd::prelude::*;

verus! {

/// One named connection configuration.
#[derive(Debug, Clone, PartialEq, Eq)]
pub struct Profile {
    pub base_url: String,
    pub api_key: String,
    pub description: String,
    pub created: String,
}

/// The set of profiles, keyed by name, and the name of the selected one.
///
/// `current` may name a profile that is not in `profiles`: such a stale
/// selection is kept as it is and means that no profile is active.
#[derive(Debug, Clone, PartialEq, Eq)]
pub struct ProfileSet {
    pub profiles: Vec<(String, Profile)>,
    pub current: Option<String>,
}

/// The fields of the application's own config file.
#[derive(Debug, Clone, PartialEq, Eq)]
pub struct AppConfig {
    pub base_url: String,
    pub api_key: String,
}

impl ProfileSet {
    /// Profile names are keys: no two entries share one.
    pub open spec fn wf(&self) -> bool {
        forall|i: int, j: int|
            0 <= i < j < self.profiles@.len() ==> self.profiles@[i].0@ != self.profiles@[j].0@
    }

    /// Whether some entry has the name `name`.
    pub open spec fn has_name(&self, name: Seq<char>) -> bool {
        exists|i: int| 0 <= i < self.profiles@.len() && self.profiles@[i].0@ == name
    }

    /// The set of the first run: no profiles, nothing selected.
    pub fn new() -> (r: ProfileSet)
        ensures
            r.profiles@.len() == 0,
            r.current is None,
            r.wf(),
    {
        ProfileSet { profiles: Vec::new(), current: None }
    }

    /// The selected profile, when the selection names an entry of the set;
    /// `None` when nothing is selected or the selection is stale.
    pub fn active_profile(&self) -> (r: Option<&Profile>)
        requires
            self.wf(),
        ensures
            r is Some <==> (self.current is Some && self.has_name(self.current->Some_0@)),
            r is Some ==> exists|i: int|
                0 <= i < self.profiles@.len() && self.profiles@[i].0@ == self.current->Some_0@
                    && self.profiles@[i].1 == *r->Some_0,
    {
        match &self.current {
            None => None,
            Some(name) => {
                let mut i: usize = 0;
                while i < self.profiles.len()
                    invariant
                        0 <= i <= self.profiles@.len(),
                        self.current == Some(*name),
                        forall|k: int| 0 <= k < i ==> self.profiles@[k].0@ != name@,
                    decreases self.profiles@.len() - i,
                {
                    if self.profiles[i].0 == *name {
                        assert(self.profiles@[i as int].0@ == name@);
                        return Some(&self.profiles[i].1);
                    }
                    i = i + 1;
                }
                assert(!self.has_name(name@));
                None
            },
        }
    }
}

} // verus!
