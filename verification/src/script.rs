//! Where the helper script lives.

use vstd::prelude::*;
use vstd::string::StringExecFns;

verus! {

/// The script's location below the application's root directory.
pub open spec fn script_suffix() -> Seq<char> {
    "/../python/upscale.py"@
}

/// The path handed to the interpreter: the directory the application was
/// built in, one level up, then `python/upscale.py`.
pub open spec fn script_path_of(manifest_dir: Seq<char>) -> Seq<char> {
    manifest_dir + script_suffix()
}

/// Resolves the helper script relative to `manifest_dir`.
pub fn script_path(manifest_dir: &str) -> (path: String)
    ensures
        path@ == script_path_of(manifest_dir@),
{
    String::from_str(manifest_dir).concat("/../python/upscale.py")
}

} // verus!
