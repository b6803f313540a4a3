//! Information about the application that reports errors.

use vstd::prelude::*;

verus! {

pub struct AppInfo {
    pub version: Option<String>,
    pub release_stage: Option<String>,
    pub atype: Option<String>,
}

pub open spec fn opt_str_view(s: Option<&str>) -> Option<Seq<char>> {
    match s {
        Some(v) => Some(v@),
        None => None,
    }
}

pub open spec fn opt_string_view(s: Option<String>) -> Option<Seq<char>> {
    match s {
        Some(v) => Some(v@),
        None => None,
    }
}

pub fn to_owned_opt(s: Option<&str>) -> (r: Option<String>)
    ensures
        opt_string_view(r) == opt_str_view(s),
{
    match s {
        Some(v) => Some(v.to_owned()),
        None => None,
    }
}

impl AppInfo {
    pub fn new(version: Option<&str>, release_stage: Option<&str>, atype: Option<&str>) -> (r: AppInfo)
        ensures
            opt_string_view(r.version) == opt_str_view(version),
            opt_string_view(r.release_stage) == opt_str_view(release_stage),
            opt_string_view(r.atype) == opt_str_view(atype),
    {
        AppInfo {
            version: to_owned_opt(version),
            release_stage: to_owned_opt(release_stage),
            atype: to_owned_opt(atype),
        }
    }
}

} // verus!
