//! The CLI's file locations.
//!
//! The platform directories themselves come from the environment and
//! the platform conventions, outside this crate; the paths below them
//! are decided here, from the directories handed in as plain text.

use vstd::prelude::*;

verus! {

/// The qualifier of the project directories.
pub open spec fn spec_qualifier() -> Seq<char> {
    "org"@
}

/// The organization of the project directories.
pub open spec fn spec_organization() -> Seq<char> {
    "ICANN"@
}

/// The application of the project directories.
pub open spec fn spec_application() -> Seq<char> {
    "rdap"@
}

/// The name of the configuration file.
pub open spec fn spec_env_file_name() -> Seq<char> {
    "rdap.env"@
}

/// The name of the cache directory for RDAP responses.
pub open spec fn spec_rdap_cache_name() -> Seq<char> {
    "rdap_cache"@
}

/// The name of the cache directory for bootstrap files.
pub open spec fn spec_bootstrap_cache_name() -> Seq<char> {
    "bootstrap_cache"@
}

/// The qualifier of the project directories.
pub fn qualifier() -> (r: &'static str)
    ensures
        r@ == spec_qualifier(),
{
    "org"
}

/// The organization of the project directories.
pub fn organization() -> (r: &'static str)
    ensures
        r@ == spec_organization(),
{
    "ICANN"
}

/// The application of the project directories.
pub fn application() -> (r: &'static str)
    ensures
        r@ == spec_application(),
{
    "rdap"
}

/// Joins a directory and a name with one separator.
fn join_under(dir: &str, name: &str) -> (r: String)
    ensures
        r@ == dir@ + "/"@ + name@,
{
    let mut s: String = dir.to_owned();
    s.append("/");
    s.append(name);
    s
}

/// Returns the path of the cache directory for RDAP responses, under
/// the platform cache directory.
pub fn rdap_cache_path(cache_dir: &str) -> (r: String)
    ensures
        r@ == cache_dir@ + "/"@ + spec_rdap_cache_name(),
{
    join_under(cache_dir, "rdap_cache")
}

/// Returns the path of the configuration file: under `XDG_CONFIG_HOME`
/// when that is set, else under the platform configuration directory.
pub fn config_path(xdg_config: Option<&str>, config_dir: &str) -> (r: String)
    ensures
        match xdg_config {
            Some(x) => r@ == x@ + "/"@ + spec_env_file_name(),
            None => r@ == config_dir@ + "/"@ + spec_env_file_name(),
        },
{
    match xdg_config {
        Some(x) => join_under(x, "rdap.env"),
        None => join_under(config_dir, "rdap.env"),
    }
}

/// Returns the path of the cache directory for bootstrap files: under
/// `XDG_CACHE_HOME` when that is set, else under the platform cache
/// directory.
pub fn bootstrap_cache_path(xdg_cache: Option<&str>, cache_dir: &str) -> (r: String)
    ensures
        match xdg_cache {
            Some(x) => r@ == x@ + "/"@ + spec_bootstrap_cache_name(),
            None => r@ == cache_dir@ + "/"@ + spec_bootstrap_cache_name(),
        },
{
    match xdg_cache {
        Some(x) => join_under(x, "bootstrap_cache"),
        None => join_under(cache_dir, "bootstrap_cache"),
    }
}

} // verus!
