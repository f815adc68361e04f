//! Directory resolution: maps a symbolic request key to the path the platform
//! provider reported for that directory family.
//!
//! The provider itself (an OS facility) is queried by the surrounding binary;
//! its answers arrive here as a plain [`HostPaths`] snapshot, so the whole
//! decision — which key denotes which family, and when the answer is absent —
//! is verified.

use vstd::prelude::*;

verus! {

/// The five directory families the resolver recognizes.
#[derive(Clone, Copy, Debug, PartialEq, Eq, Structural)]
pub enum DirKey {
    AppData,
    AppCache,
    AppLog,
    Home,
    Temp,
}

/// The spelling under which the UI requests each directory family.
pub open spec fn key_text(k: DirKey) -> Seq<char> {
    match k {
        DirKey::AppData => "appData"@,
        DirKey::AppCache => "appCache"@,
        DirKey::AppLog => "appLog"@,
        DirKey::Home => "home"@,
        DirKey::Temp => "temp"@,
    }
}

/// Which directory family a request key denotes, if any. The match is exact
/// and case-sensitive; every other string is an unrecognized key, which is a
/// valid input, not an error.
pub open spec fn parsed_key(s: Seq<char>) -> Option<DirKey> {
    if s == "appData"@ {
        Some(DirKey::AppData)
    } else if s == "appCache"@ {
        Some(DirKey::AppCache)
    } else if s == "appLog"@ {
        Some(DirKey::AppLog)
    } else if s == "home"@ {
        Some(DirKey::Home)
    } else if s == "temp"@ {
        Some(DirKey::Temp)
    } else {
        None
    }
}

/// Character-for-character equality of two string slices.
pub fn str_eq(a: &str, b: &str) -> (r: bool)
    ensures
        r == (a@ == b@),
{
    let a_len = a.unicode_len();
    let b_len = b.unicode_len();
    if a_len != b_len {
        return false;
    }
    let mut i: usize = 0;
    while i < a_len
        invariant
            a_len == a@.len(),
            a_len == b@.len(),
            i <= a_len,
            forall|j: int| 0 <= j < i ==> a@[j] == b@[j],
        decreases a_len - i,
    {
        if a.get_char(i) != b.get_char(i) {
            return false;
        }
        i += 1;
    }
    proof {
        assert(a@ =~= b@);
    }
    true
}

/// Parses a request key into the directory family it denotes, or `None` for
/// any string outside the five recognized spellings.
pub fn parse_key(key: &str) -> (r: Option<DirKey>)
    ensures
        r == parsed_key(key@),
{
    if str_eq(key, "appData") {
        Some(DirKey::AppData)
    } else if str_eq(key, "appCache") {
        Some(DirKey::AppCache)
    } else if str_eq(key, "appLog") {
        Some(DirKey::AppLog)
    } else if str_eq(key, "home") {
        Some(DirKey::Home)
    } else if str_eq(key, "temp") {
        Some(DirKey::Temp)
    } else {
        None
    }
}

/// Snapshot of the platform path-provider's answers, one per directory
/// family, queried by the surrounding binary and handed over as plain text
/// (lossy-converted where the raw path was not valid text). `None` records
/// that the provider could not resolve that family — no home directory
/// detectable, for instance.
pub struct HostPaths {
    pub app_data: Option<String>,
    pub app_cache: Option<String>,
    pub app_log: Option<String>,
    pub home: Option<String>,
    pub temp: Option<String>,
}

/// The provider's answer for one directory family.
pub open spec fn provided_path(host: HostPaths, k: DirKey) -> Option<String> {
    match k {
        DirKey::AppData => host.app_data,
        DirKey::AppCache => host.app_cache,
        DirKey::AppLog => host.app_log,
        DirKey::Home => host.home,
        DirKey::Temp => host.temp,
    }
}

/// What resolving a request key yields: the provider's answer for the family
/// the key denotes. Absence covers both an unrecognized key and a family the
/// provider could not resolve; the two cases deliberately collapse into the
/// same "no value" outcome.
pub open spec fn resolution(host: HostPaths, key: Seq<char>) -> Option<String> {
    match parsed_key(key) {
        Some(k) => provided_path(host, k),
        None => None,
    }
}

/// A correctly configured host: the provider answered every directory family
/// with non-empty text.
pub open spec fn well_configured(host: HostPaths) -> bool {
    &&& host.app_data is Some && host.app_data.unwrap()@.len() > 0
    &&& host.app_cache is Some && host.app_cache.unwrap()@.len() > 0
    &&& host.app_log is Some && host.app_log.unwrap()@.len() > 0
    &&& host.home is Some && host.home.unwrap()@.len() > 0
    &&& host.temp is Some && host.temp.unwrap()@.len() > 0
}

fn clone_answer(p: &Option<String>) -> (r: Option<String>)
    ensures
        r == *p,
{
    match p {
        Some(s) => Some(s.clone()),
        None => None,
    }
}

/// Looks up the provider's answer for one recognized directory family.
pub fn resolve(host: &HostPaths, k: DirKey) -> (r: Option<String>)
    ensures
        r == provided_path(*host, k),
{
    match k {
        DirKey::AppData => clone_answer(&host.app_data),
        DirKey::AppCache => clone_answer(&host.app_cache),
        DirKey::AppLog => clone_answer(&host.app_log),
        DirKey::Home => clone_answer(&host.home),
        DirKey::Temp => clone_answer(&host.temp),
    }
}

/// Resolves a request key against the host snapshot. Never fails: an
/// unrecognized key, like an unresolved family, is answered with `None`.
/// A pure lookup — nothing is created on disk, nothing cached.
pub fn get_app_path(host: &HostPaths, key: &str) -> (r: Option<String>)
    ensures
        r == resolution(*host, key@),
{
    match parse_key(key) {
        Some(k) => resolve(host, k),
        None => None,
    }
}

/// On a correctly configured host, every recognized key resolves to a
/// non-empty path.
pub proof fn lemma_recognized_key_resolves(host: HostPaths, key: Seq<char>)
    requires
        well_configured(host),
        parsed_key(key) is Some,
    ensures
        resolution(host, key) is Some,
        resolution(host, key).unwrap()@.len() > 0,
{
}

/// Resolution is a function of the snapshot and the key alone: within one
/// process lifetime (one snapshot), the same key always resolves to the same
/// path.
pub proof fn lemma_resolution_idempotent(
    host: HostPaths,
    key: Seq<char>,
    r1: Option<String>,
    r2: Option<String>,
)
    requires
        r1 == resolution(host, key),
        r2 == resolution(host, key),
    ensures
        r1 == r2,
{
}

/// Each directory family is recognized under its own spelling: parsing is a
/// left inverse of [`key_text`], so the five spellings reach all five
/// families and no spelling denotes two.
pub proof fn lemma_key_text_parses(k: DirKey)
    ensures
        parsed_key(key_text(k)) == Some(k),
{
    reveal_strlit("appData");
    reveal_strlit("appCache");
    reveal_strlit("appLog");
    reveal_strlit("home");
    reveal_strlit("temp");
    assert("appData"@.len() == 7);
    assert("appCache"@.len() == 8);
    assert("appLog"@.len() == 6);
    assert("home"@.len() == 4);
    assert("temp"@.len() == 4);
    assert("home"@[0] == 'h' && "temp"@[0] == 't');
    match k {
        DirKey::AppData => assert(parsed_key("appData"@) == Some(DirKey::AppData)),
        DirKey::AppCache => assert(parsed_key("appCache"@) == Some(DirKey::AppCache)),
        DirKey::AppLog => assert(parsed_key("appLog"@) == Some(DirKey::AppLog)),
        DirKey::Home => assert(parsed_key("home"@) == Some(DirKey::Home)),
        DirKey::Temp => assert(parsed_key("temp"@) == Some(DirKey::Temp)),
    }
}

/// A request key outside the five recognized spellings resolves to nothing,
/// whatever the host provides.
pub proof fn lemma_unrecognized_key_absent(host: HostPaths, key: Seq<char>)
    requires
        key != "appData"@,
        key != "appCache"@,
        key != "appLog"@,
        key != "home"@,
        key != "temp"@,
    ensures
        resolution(host, key) is None,
{
}

} // verus!
