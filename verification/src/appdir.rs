//! On-disk layout: the application's namespaced data directory and the
//! runtime subdirectory inside it.
//!
//! The unverified driver creates the resolved directory if it is missing and
//! supplies the per-platform cache directory itself; only the path
//! computation and the fallback decision live here.

use vstd::prelude::*;
use vstd::string::StringExecFns;

verus! {

/// Joins a directory path and one relative component with a separator.
pub fn join_path(dir: &str, name: &str) -> (r: String)
    ensures
        r@ == dir@ + "/"@ + name@,
{
    let mut s = dir.to_owned();
    s.append("/");
    s.append(name);
    s
}

/// The application identifier used when none is supplied, namespacing the
/// application-data directory.
pub fn default_app_id() -> (r: String)
    ensures
        r@ == "com.ghuba.singularity.application"@,
{
    String::from_str("com.ghuba.singularity.application")
}

/// Relies on dirs::data_dir: the per-user data directory, when the platform
/// defines one. The result depends on the host environment alone, so nothing
/// further is assumed of it.
#[verifier::external_body]
fn platform_data_dir() -> (r: Option<String>) {
    dirs::data_dir().map(|p| p.to_string_lossy().into_owned())
}

/// Resolves the application's namespaced directory: the given root — or,
/// absent one, the platform's per-user data directory — extended with the
/// application identifier. Returns none only when no root was given and the
/// platform defines no data directory.
pub fn resolve_app_dir(root: Option<String>, app_id: &str) -> (r: Option<String>)
    ensures
        root matches Some(b) ==> (r matches Some(p) && p@ == b@ + "/"@ + app_id@),
        r is None ==> root is None,
        r matches Some(p) ==> (exists|b: Seq<char>| p@ == b + "/"@ + app_id@),
{
    let base = match root {
        Some(b) => b,
        None => {
            match platform_data_dir() {
                Some(b) => b,
                None => {
                    return None;
                },
            }
        },
    };
    let joined = join_path(base.as_str(), app_id);
    proof {
        assert(joined@ == base@ + "/"@ + app_id@);
    }
    Some(joined)
}

/// The runtime's own subdirectory under the application directory.
pub fn runtime_dir(app_dir: &str) -> (r: String)
    ensures
        r@ == app_dir@ + "/"@ + "ollama"@,
{
    join_path(app_dir, "ollama")
}

} // verus!
