use crate::error::FerryError;
use crate::modules::tauri::{strings_view, Invocation};
use crate::modules::{create_temp_ferry, scratch_path_spec};
use crate::path::{join_spec, opt_view, push_spec, FsPath, PathView};
use vstd::prelude::*;

verus! {

/// The flags that select `profile`: none for `debug`, the cargo default;
/// `--release` for `release`; `--profile <name>` for any other.
pub open spec fn profile_flags(profile: Seq<char>) -> Seq<Seq<char>> {
    if profile == "debug"@ {
        seq![]
    } else if profile == "release"@ {
        seq!["--release"@]
    } else {
        seq!["--profile"@, profile]
    }
}

/// `inv` is the build invocation for these inputs: `cargo build <profile
/// flags> <args..>`, run in the project directory made absolute against
/// `cwd`, with `CARGO_TARGET_DIR` set to `<scratch path>/target`, and a
/// mirror pass into `final_target` planned.
pub open spec fn build_invocation_spec(
    inv: &Invocation,
    project_dir: PathView,
    temp_target: PathView,
    final_target: PathView,
    profile: Seq<char>,
    args: Seq<Seq<char>>,
    cwd: PathView,
) -> bool {
    &&& scratch_path_spec(temp_target, project_dir, cwd) is Some
    &&& inv.program@ == "cargo"@
    &&& strings_view(inv.args@) == seq!["build"@] + profile_flags(profile) + args
    &&& inv.current_dir@ == join_spec(cwd, project_dir)
    &&& inv.env_key@ == "CARGO_TARGET_DIR"@
    &&& inv.target_dir@ == push_spec(scratch_path_spec(temp_target, project_dir, cwd).unwrap(), "target"@)
    &&& opt_view(inv.mirror_to) == Some(final_target)
}

/// Plans one run of the package build: `build`, the profile's flags, then
/// `cargo_args` verbatim; the working directory; the scratch output
/// directory; and the mirror pass into `final_target` that follows success.
pub fn start(
    project_dir: FsPath,
    temp_target: FsPath,
    final_target: FsPath,
    profile: String,
    cargo_args: Vec<String>,
    cwd: &FsPath,
) -> (r: Result<Invocation, FerryError>)
    ensures
        match r {
            Ok(inv) => build_invocation_spec(
                &inv,
                project_dir@,
                temp_target@,
                final_target@,
                profile@,
                strings_view(cargo_args@),
                cwd@,
            ),
            Err(e) => e is InvalidProjectPath && scratch_path_spec(
                temp_target@,
                project_dir@,
                cwd@,
            ) is None,
        },
{
    let scratch = match create_temp_ferry(&temp_target, &project_dir, cwd) {
        Ok(p) => p,
        Err(e) => return Err(e),
    };
    let current_dir = cwd.join(&project_dir);
    let target_dir = scratch.join_name("target");
    let mut args: Vec<String> = Vec::new();
    args.push("build".to_owned());
    if profile.eq(&"debug".to_owned()) {
    } else if profile.eq(&"release".to_owned()) {
        args.push("--release".to_owned());
    } else {
        args.push("--profile".to_owned());
        args.push(profile);
    }
    let ghost head = seq!["build"@] + profile_flags(profile@);
    assert(strings_view(args@) =~= head);
    let n = cargo_args.len();
    for i in 0..n
        invariant
            n == cargo_args.len(),
            strings_view(args@) == head + strings_view(cargo_args@).subrange(0, i as int),
    {
        let ghost before = args@;
        let a = cargo_args[i].clone();
        args.push(a);
        assert(strings_view(args@) =~= strings_view(before).push(a@));
        assert(strings_view(cargo_args@).subrange(0, i + 1) =~= strings_view(cargo_args@).subrange(
            0,
            i as int,
        ).push(cargo_args@[i as int]@));
        assert(strings_view(args@) =~= head + strings_view(cargo_args@).subrange(0, i + 1));
    }
    assert(strings_view(cargo_args@).subrange(0, n as int) =~= strings_view(cargo_args@));
    Ok(
        Invocation {
            program: "cargo".to_owned(),
            args,
            current_dir,
            env_key: "CARGO_TARGET_DIR".to_owned(),
            target_dir,
            mirror_to: Some(final_target),
        },
    )
}

} // verus!
