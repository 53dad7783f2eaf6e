//! Filesystem paths the launcher derives from the directory that holds the
//! running executable and from a Java home directory.
//!
//! All paths are Windows style: components are joined with a backslash.

use vstd::prelude::*;
use vstd::string::StringExecFns;

verus! {

/// Directory expected to hold a bundled Java runtime, next to the executable.
pub open spec fn bundled_jre_dir(exe_dir: Seq<char>) -> Seq<char> {
    exe_dir + "\\jre"@
}

/// Interpreter executable inside a Java home directory.
pub open spec fn runtime_in_home(home: Seq<char>) -> Seq<char> {
    home + "\\bin\\javaw.exe"@
}

/// Interpreter executable of the bundled runtime next to the executable.
pub open spec fn bundled_runtime(exe_dir: Seq<char>) -> Seq<char> {
    runtime_in_home(bundled_jre_dir(exe_dir))
}

/// The application archive, always directly next to the executable.
pub open spec fn archive(exe_dir: Seq<char>) -> Seq<char> {
    exe_dir + "\\kse.jar"@
}

/// Path of the directory checked for a bundled runtime.
pub fn bundled_jre_path(exe_dir: &str) -> (r: String)
    ensures
        r@ == bundled_jre_dir(exe_dir@),
{
    exe_dir.to_owned().concat("\\jre")
}

/// Interpreter path used when the bundled runtime directory exists.
pub fn bundled_runtime_path(exe_dir: &str) -> (r: String)
    ensures
        r@ == bundled_runtime(exe_dir@),
{
    let dir = bundled_jre_path(exe_dir);
    runtime_path_from_home(dir.as_str())
}

/// Interpreter path inside a resolved Java home directory.
pub fn runtime_path_from_home(home: &str) -> (r: String)
    ensures
        r@ == runtime_in_home(home@),
{
    home.to_owned().concat("\\bin\\javaw.exe")
}

/// Path of the application archive next to the executable.
pub fn archive_path(exe_dir: &str) -> (r: String)
    ensures
        r@ == archive(exe_dir@),
{
    exe_dir.to_owned().concat("\\kse.jar")
}

} // verus!
