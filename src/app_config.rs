//! The application's own config file: reading it for display, and the two
//! fields written into it when a profile is switched to.

use vstd::prelude::*;
use crate::error::{Loaded, StoreError};
use crate::profile::{AppConfig, Profile};

verus! {

/// Whether `r` is what reading the config gives on `found`.
pub open spec fn reads_as(found: Loaded<AppConfig>, r: Result<AppConfig, StoreError>) -> bool {
    match found {
        Loaded::Absent => r == Err::<AppConfig, StoreError>(StoreError::NotFound),
        Loaded::Unreadable(e) => r == Err::<AppConfig, StoreError>(StoreError::Read(e)),
        Loaded::Malformed(e) => r == Err::<AppConfig, StoreError>(StoreError::Parse(e)),
        Loaded::Parsed(c) => r == Ok::<AppConfig, StoreError>(c),
    }
}

/// The active application config, from what reading its file gave: an
/// error when no candidate file exists or it cannot be read or parsed.
pub fn get_current_config(found: Loaded<AppConfig>) -> (r: Result<AppConfig, StoreError>)
    ensures
        reads_as(found, r),
{
    match found {
        Loaded::Absent => Err(StoreError::NotFound),
        Loaded::Unreadable(e) => Err(StoreError::Read(e)),
        Loaded::Malformed(e) => Err(StoreError::Parse(e)),
        Loaded::Parsed(c) => Ok(c),
    }
}

/// Whether `c` holds exactly the endpoint and key of `p`.
pub open spec fn mirrors(c: AppConfig, p: Profile) -> bool {
    c.base_url@ == p.base_url@ && c.api_key@ == p.api_key@
}

/// The config file's content after switching to `profile`. Any other field
/// of an earlier file is not kept, so the earlier content does not matter.
pub fn mirror_of(profile: &Profile) -> (r: AppConfig)
    ensures
        mirrors(r, *profile),
{
    AppConfig { base_url: profile.base_url.clone(), api_key: profile.api_key.clone() }
}

} // verus!
