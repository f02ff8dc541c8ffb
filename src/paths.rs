//! Locations of the profile store and of the application's config file,
//! computed from the home directory, the application's name, and which
//! files exist.

use vstd::prelude::*;
use vstd::string::*;

verus! {

/// `name` placed under the directory `base`.
pub open spec fn joined(base: Seq<char>, name: Seq<char>) -> Seq<char> {
    base + seq!['/'] + name
}

/// File name of the store in its current format.
pub open spec fn store_file_name(app: Seq<char>) -> Seq<char> {
    app + "-configs.cccm"@
}

/// File name of the store in its legacy format.
pub open spec fn legacy_file_name(app: Seq<char>) -> Seq<char> {
    seq!['.'] + app + "_configs.json"@
}

/// The store file in its current format.
pub open spec fn store_path_of(home: Seq<char>, app: Seq<char>) -> Seq<char> {
    joined(home, store_file_name(app))
}

/// The store file in its legacy format.
pub open spec fn legacy_path_of(home: Seq<char>, app: Seq<char>) -> Seq<char> {
    joined(home, legacy_file_name(app))
}

/// The store file that is read: the legacy one while it is the only one.
pub open spec fn resolved_store_path(
    home: Seq<char>,
    app: Seq<char>,
    legacy_exists: bool,
    current_exists: bool,
) -> Seq<char> {
    if legacy_exists && !current_exists {
        legacy_path_of(home, app)
    } else {
        store_path_of(home, app)
    }
}

/// Directory of the primary application config file.
pub open spec fn primary_config_dir(home: Seq<char>, app: Seq<char>) -> Seq<char> {
    joined(home, seq!['.'] + app)
}

/// Primary location of the application config file.
pub open spec fn primary_config_path(home: Seq<char>, app: Seq<char>) -> Seq<char> {
    joined(primary_config_dir(home, app), "config.json"@)
}

/// Fallback location of the application config file.
pub open spec fn fallback_config_path(home: Seq<char>, app: Seq<char>) -> Seq<char> {
    joined(joined(joined(home, ".config"@), app), "config.json"@)
}

/// Places `name` under the directory `base`.
pub fn join_path(base: &str, name: &str) -> (r: String)
    ensures
        r@ == joined(base@, name@),
{
    let mut r = String::from_str(base);
    r.append("/");
    r.append(name);
    proof {
        reveal_strlit("/");
    }
    r
}

/// `app` with a dot in front: the name of a hidden file or directory.
fn hidden(app: &str) -> (r: String)
    ensures
        r@ == seq!['.'] + app@,
{
    let mut r = String::from_str(".");
    r.append(app);
    proof {
        reveal_strlit(".");
    }
    r
}

/// Path of the store file in its current format.
pub fn current_store_path(home: &str, app: &str) -> (r: String)
    ensures
        r@ == store_path_of(home@, app@),
{
    let mut name = String::from_str(app);
    name.append("-configs.cccm");
    join_path(home, name.as_str())
}

/// Path of the store file in its legacy format.
pub fn legacy_store_path(home: &str, app: &str) -> (r: String)
    ensures
        r@ == legacy_path_of(home@, app@),
{
    let mut name = hidden(app);
    name.append("_configs.json");
    join_path(home, name.as_str())
}

/// The store file to read, given which of the two store files exist: the
/// legacy file while it exists and the current one does not, else the
/// current file.
pub fn get_manager_config_path(home: &str, app: &str, legacy_exists: bool, current_exists: bool) -> (r: String)
    ensures
        r@ == resolved_store_path(home@, app@, legacy_exists, current_exists),
{
    if legacy_exists && !current_exists {
        legacy_store_path(home, app)
    } else {
        current_store_path(home, app)
    }
}

/// Directory of the primary application config file.
pub fn primary_config_dir_path(home: &str, app: &str) -> (r: String)
    ensures
        r@ == primary_config_dir(home@, app@),
{
    let dir = hidden(app);
    join_path(home, dir.as_str())
}

/// The candidate locations of the application config file, in the order in
/// which they are tried.
pub fn get_app_config_paths(home: &str, app: &str) -> (r: Vec<String>)
    ensures
        r@.len() == 2,
        r@[0]@ == primary_config_path(home@, app@),
        r@[1]@ == fallback_config_path(home@, app@),
{
    let dir = primary_config_dir_path(home, app);
    let primary = join_path(dir.as_str(), "config.json");
    let config_dir = join_path(home, ".config");
    let app_dir = join_path(config_dir.as_str(), app);
    let fallback = join_path(app_dir.as_str(), "config.json");
    let mut r: Vec<String> = Vec::new();
    r.push(primary);
    r.push(fallback);
    r
}

/// Where the application config file is, and the directory to create first
/// (best effort) when no candidate exists yet.
pub struct ConfigLocation {
    pub path: String,
    pub create_dir: Option<String>,
}

/// The first candidate location that exists; when none does, the primary
/// location together with its directory, to be created.
pub fn find_config_file(home: &str, app: &str, primary_exists: bool, fallback_exists: bool) -> (r: ConfigLocation)
    ensures
        primary_exists ==> r.path@ == primary_config_path(home@, app@) && r.create_dir is None,
        !primary_exists && fallback_exists ==> r.path@ == fallback_config_path(home@, app@)
            && r.create_dir is None,
        !primary_exists && !fallback_exists ==> r.path@ == primary_config_path(home@, app@)
            && r.create_dir is Some && r.create_dir->Some_0@ == primary_config_dir(home@, app@),
{
    let mut candidates = get_app_config_paths(home, app);
    if primary_exists {
        let path = candidates.remove(0);
        ConfigLocation { path, create_dir: None }
    } else if fallback_exists {
        let path = candidates.remove(1);
        ConfigLocation { path, create_dir: None }
    } else {
        let path = candidates.remove(0);
        ConfigLocation { path, create_dir: Some(primary_config_dir_path(home, app)) }
    }
}

} // verus!
