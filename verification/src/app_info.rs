//! How the application announces itself.

use vstd::prelude::*;

verus! {

/// The build label shown in the version string: the build hash if one was
/// stamped in, else the continuous-integration hash, else `dev`.
pub fn build_label(build_sha: Option<String>, github_sha: Option<String>) -> (r: String)
    ensures
        build_sha matches Some(s) ==> r@ == s@,
        build_sha is None ==> (github_sha matches Some(s) ==> r@ == s@),
        build_sha is None && github_sha is None ==> r@ == "dev"@,
{
    match build_sha {
        Some(s) => s,
        None => match github_sha {
            Some(s) => s,
            None => "dev".to_owned(),
        },
    }
}

/// The version string: the package version with the build label in
/// parentheses.
pub fn version_string(version: &str, build: &str) -> (r: String)
    ensures
        r@ == version@ + " ("@ + build@ + ")"@,
{
    let mut r: String = version.to_owned();
    r.append(" (");
    r.append(build);
    r.append(")");
    r
}

} // verus!
