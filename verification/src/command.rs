//! The argument list handed to the Java interpreter.
//!
//! The richest launcher build passes two fixed flags — a marker property that
//! tells the application it was started by this launcher, and a splash-screen
//! flag — then `-jar` with the archive path, then every command-line token
//! the launcher itself received, unchanged and in order.

use vstd::prelude::*;
use vstd::string::StringExecFns;

verus! {

/// The character sequences of a list of argument strings.
pub open spec fn arg_views(args: Seq<String>) -> Seq<Seq<char>> {
    args.map_values(|s: String| s@)
}

/// The fixed flags that precede `-jar`, present only in builds that carry
/// the launcher marker and the splash screen.
pub open spec fn fixed_flag_prefix(with_flags: bool) -> Seq<Seq<char>> {
    if with_flags {
        seq!["-Dkse.exe=true"@, "-splash:splash.png"@]
    } else {
        Seq::<Seq<char>>::empty()
    }
}

/// The complete interpreter argument list: fixed flags, then `-jar` and the
/// archive path, then the passthrough tokens.
pub open spec fn jvm_args(with_flags: bool, archive: Seq<char>, passthrough: Seq<Seq<char>>) -> Seq<
    Seq<char>,
> {
    fixed_flag_prefix(with_flags) + seq!["-jar"@, archive] + passthrough
}

/// Builds the interpreter argument list for the given archive path and
/// passthrough tokens.
pub fn build_jvm_args(with_flags: bool, archive_path: &str, passthrough: &Vec<String>) -> (r: Vec<
    String,
>)
    ensures
        arg_views(r@) == jvm_args(with_flags, archive_path@, arg_views(passthrough@)),
{
    let mut out: Vec<String> = Vec::new();
    if with_flags {
        out.push("-Dkse.exe=true".to_owned());
        out.push("-splash:splash.png".to_owned());
    }
    out.push("-jar".to_owned());
    out.push(archive_path.to_owned());
    proof {
        assert(arg_views(out@) =~~= fixed_flag_prefix(with_flags) + seq!["-jar"@, archive_path@]);
        assert(arg_views(passthrough@.take(0)) =~~= Seq::<Seq<char>>::empty());
        assert(arg_views(out@) =~~= jvm_args(
            with_flags,
            archive_path@,
            arg_views(passthrough@.take(0)),
        ));
    }
    let mut i: usize = 0;
    while i < passthrough.len()
        invariant
            i <= passthrough@.len(),
            arg_views(out@) == jvm_args(
                with_flags,
                archive_path@,
                arg_views(passthrough@.take(i as int)),
            ),
        decreases passthrough@.len() - i,
    {
        let ghost prev = out@;
        out.push(passthrough[i].clone());
        proof {
            assert(arg_views(out@) =~~= arg_views(prev).push(passthrough@[i as int]@));
            assert(arg_views(passthrough@.take(i as int + 1)) =~~= arg_views(
                passthrough@.take(i as int),
            ).push(passthrough@[i as int]@));
            assert(jvm_args(
                with_flags,
                archive_path@,
                arg_views(passthrough@.take(i as int)).push(passthrough@[i as int]@),
            ) =~~= jvm_args(with_flags, archive_path@, arg_views(passthrough@.take(i as int))).push(
                passthrough@[i as int]@,
            ));
        }
        i = i + 1;
    }
    proof {
        assert(passthrough@.take(passthrough@.len() as int) =~= passthrough@);
    }
    out
}

/// Law: every passthrough token appears in the spawned argument list, in its
/// original order, immediately after the `-jar <archive>` pair.
pub proof fn lemma_passthrough_after_jar(
    with_flags: bool,
    archive: Seq<char>,
    passthrough: Seq<Seq<char>>,
)
    ensures
        ({
            let r = jvm_args(with_flags, archive, passthrough);
            let j = fixed_flag_prefix(with_flags).len() as int;
            &&& r.len() == j + 2 + passthrough.len()
            &&& r[j] == "-jar"@
            &&& r[j + 1] == archive
            &&& forall|k: int| 0 <= k < passthrough.len() ==> r[j + 2 + k] == passthrough[k]
        }),
{
}

} // verus!
