use crate::error::FerryError;
use crate::path::{file_name_spec, join_spec, push_spec, FsPath, PathView};
use vstd::prelude::*;

pub mod cargo_build;
pub mod tauri;

verus! {

/// The directory under a temp root that holds every project's scratch tree.
pub open spec fn namespace() -> Seq<char> {
    "build-ferry"@
}

/// The scratch path for `project_dir` under `temp_target`, with a relative
/// project directory resolved against `cwd`; none where the resolved project
/// directory has no final segment.
pub open spec fn scratch_path_spec(temp_target: PathView, project_dir: PathView, cwd: PathView) -> Option<PathView> {
    match file_name_spec(join_spec(cwd, project_dir)) {
        Some(name) => Some(push_spec(push_spec(temp_target, namespace()), name)),
        None => None,
    }
}

/// Derives `<temp_target>/build-ferry/<project name>`, where the project name
/// is the final segment of `project_dir` made absolute against `cwd`.
pub fn create_temp_ferry(temp_target: &FsPath, project_dir: &FsPath, cwd: &FsPath) -> (r: Result<FsPath, FerryError>)
    ensures
        match r {
            Ok(p) => scratch_path_spec(temp_target@, project_dir@, cwd@) == Some(p@),
            Err(e) => e is InvalidProjectPath && scratch_path_spec(temp_target@, project_dir@, cwd@) is None,
        },
{
    let resolved = cwd.join(project_dir);
    match resolved.file_name() {
        Some(name) => Ok(temp_target.join_name("build-ferry").join_name(name.as_str())),
        None => Err(FerryError::InvalidProjectPath),
    }
}

/// Deriving a scratch path depends on the temp root, the project directory
/// and the working directory alone: equal inputs give equal paths.
pub proof fn lemma_scratch_path_deterministic(t1: PathView, p1: PathView, t2: PathView, p2: PathView, cwd: PathView)
    requires
        t1 == t2,
        p1 == p2,
    ensures
        scratch_path_spec(t1, p1, cwd) == scratch_path_spec(t2, p2, cwd),
{
}

/// Where the resolved project directory ends in a name, the derived scratch
/// path ends in that same name.
pub proof fn lemma_scratch_path_ends_in_project_name(temp_target: PathView, project_dir: PathView, cwd: PathView)
    requires
        file_name_spec(join_spec(cwd, project_dir)) is Some,
    ensures
        scratch_path_spec(temp_target, project_dir, cwd) is Some,
        file_name_spec(scratch_path_spec(temp_target, project_dir, cwd).unwrap())
            == file_name_spec(join_spec(cwd, project_dir)),
{
}

/// Where the resolved project directory has no final segment (the root, or a
/// path ending in `..`), no scratch path is derived.
pub proof fn lemma_scratch_path_needs_project_name(temp_target: PathView, project_dir: PathView, cwd: PathView)
    requires
        file_name_spec(join_spec(cwd, project_dir)) is None,
    ensures
        scratch_path_spec(temp_target, project_dir, cwd) is None,
{
}

} // verus!
