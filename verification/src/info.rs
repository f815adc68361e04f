//! Build-time package introspection: the immutable version/name pair that the
//! UI layer may request at any time.

use vstd::prelude::*;

verus! {

/// Immutable application metadata, fixed when the package is built.
#[derive(Debug, PartialEq, Eq)]
pub struct AppInfo {
    pub version: String,
    pub name: String,
}

/// The package version this build carries.
pub open spec fn app_version_text() -> Seq<char> {
    "0.1.0"@
}

/// The package name this build carries.
pub open spec fn app_name_text() -> Seq<char> {
    "native_bridge"@
}

/// Returns the build-time package metadata. Every call yields the same pair:
/// the result is pinned to the two build-time constants, so no mutation is
/// possible between calls.
pub fn get_app_version() -> (r: AppInfo)
    ensures
        r.version@ == app_version_text(),
        r.name@ == app_name_text(),
{
    AppInfo { version: String::from_str("0.1.0"), name: String::from_str("native_bridge") }
}

/// Any two values that satisfy the contract of [`get_app_version`] agree on
/// both fields: the reported metadata cannot drift within one process
/// lifetime.
pub proof fn lemma_app_info_constant(a: AppInfo, b: AppInfo)
    requires
        a.version@ == app_version_text(),
        a.name@ == app_name_text(),
        b.version@ == app_version_text(),
        b.name@ == app_name_text(),
    ensures
        a.version@ == b.version@,
        a.name@ == b.name@,
{
}

} // verus!
