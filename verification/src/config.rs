//! How a setting is chosen: a non-empty value from the process environment,
//! else a non-empty value baked in at build time, else the default.

use vstd::prelude::*;

verus! {

/// The address the server listens on when none is configured.
pub const DEFAULT_LISTEN_ADDR: &'static str = "0.0.0.0:3000";

/// The SQLite database used when none is configured.
pub const DEFAULT_DATABASE_PATH: &'static str = "backend/ull-fleet-server/data/fleet.sqlite3";

/// The uploads directory used when none is configured.
pub const DEFAULT_UPLOADS_DIR: &'static str = "backend/ull-fleet-server/data/uploads";

/// The view of an optional text.
pub open spec fn text_view(v: Option<String>) -> Option<Seq<char>> {
    match v {
        Some(s) => Some(s@),
        None => None,
    }
}

/// A value, unless it is empty.
pub open spec fn non_empty(v: Option<Seq<char>>) -> Option<Seq<char>> {
    match v {
        Some(s) => if s.len() > 0 { Some(s) } else { None },
        None => None,
    }
}

/// The configured value: the runtime one if non-empty, else the built-in
/// one if non-empty.
pub open spec fn configured(runtime: Option<Seq<char>>, built: Option<Seq<char>>) -> Option<Seq<char>> {
    match non_empty(runtime) {
        Some(s) => Some(s),
        None => non_empty(built),
    }
}

fn keep_non_empty(v: Option<String>) -> (kept: Option<String>)
    ensures
        text_view(kept) == non_empty(text_view(v)),
{
    match v {
        Some(s) => if s.as_str().is_empty() { None } else { Some(s) },
        None => None,
    }
}

/// Chooses between the value of a variable in the process environment
/// (`runtime`) and its value at build time (`built`): the first that is set
/// and non-empty.
pub fn optional_env(runtime: Option<String>, built: Option<String>) -> (value: Option<String>)
    ensures
        text_view(value) == configured(text_view(runtime), text_view(built)),
{
    match keep_non_empty(runtime) {
        Some(s) => Some(s),
        None => keep_non_empty(built),
    }
}

/// The configured value, or `fallback` when there is none.
pub fn setting_or(runtime: Option<String>, built: Option<String>, fallback: &str) -> (value: String)
    ensures
        value@ == match configured(text_view(runtime), text_view(built)) {
            Some(s) => s,
            None => fallback@,
        },
{
    match optional_env(runtime, built) {
        Some(s) => s,
        None => String::from_str(fallback),
    }
}

/// A setting set non-empty at run time wins; when it is unset or empty, a
/// setting set non-empty at build time is used; when neither is, there is
/// none.
pub proof fn configured_prefers_runtime_then_build_time(runtime: Option<Seq<char>>, built: Option<Seq<char>>)
    ensures
        (runtime is Some && runtime->0.len() > 0) ==> configured(runtime, built) == runtime,
        ((runtime is None || runtime->0.len() == 0) && built is Some && built->0.len() > 0)
            ==> configured(runtime, built) == built,
        ((runtime is None || runtime->0.len() == 0) && (built is None || built->0.len() == 0))
            ==> configured(runtime, built) is None,
        configured(runtime, built) matches Some(v) ==> v.len() > 0,
{
}

} // verus!
