//! Resolution of the external pipeline executable's path: a bundled-resource
//! location is checked first, with the bare name — resolved through the
//! environment's search path — as fallback.

use vstd::prelude::*;
use vstd::string::StringExecFns;

verus! {

/// The executable's bare file name on the given platform.
pub open spec fn cli_name_of(windows: bool) -> Seq<char> {
    if windows {
        "gvcore-cli.exe"@
    } else {
        "gvcore-cli"@
    }
}

/// The bundled-resource location checked first.
pub open spec fn bundled_path_of(resource_dir: Seq<char>, windows: bool) -> Seq<char> {
    resource_dir + "/resources/"@ + cli_name_of(windows)
}

/// The bare executable name for the platform.
pub fn cli_name(windows: bool) -> (r: &'static str)
    ensures
        r@ == cli_name_of(windows),
{
    if windows {
        "gvcore-cli.exe"
    } else {
        "gvcore-cli"
    }
}

/// The bundled executable path inside the given resource directory.
pub fn bundled_cli_path(resource_dir: &str, windows: bool) -> (r: String)
    ensures
        r@ == bundled_path_of(resource_dir@, windows),
{
    let mut s = String::from_str(resource_dir);
    s.append("/resources/");
    s.append(cli_name(windows));
    s
}

/// Pick the bundled executable when it exists, the bare name otherwise. The
/// caller reports whether the bundled file exists; a missing executable is
/// not fatal here — it surfaces as a spawn failure later.
pub fn resolve_cli_path(resource_dir: &str, bundled_exists: bool, windows: bool) -> (r: String)
    ensures
        bundled_exists ==> r@ == bundled_path_of(resource_dir@, windows),
        !bundled_exists ==> r@ == cli_name_of(windows),
{
    if bundled_exists {
        bundled_cli_path(resource_dir, windows)
    } else {
        String::from_str(cli_name(windows))
    }
}

} // verus!
