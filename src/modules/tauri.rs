use crate::cli::TauriCommand;
use crate::error::FerryError;
use crate::modules::{create_temp_ferry, scratch_path_spec};
use crate::path::{
    join_spec, opt_view, parent_spec, push_spec, starts_with_spec, strip_prefix_spec, FsPath,
    PathView,
};
use vstd::prelude::*;

verus! {

/// How the wrapped packaging tool is to be run: program, arguments, working
/// directory, and the one environment variable that is overridden.
#[derive(Debug, PartialEq, Eq)]
pub struct Invocation {
    pub program: String,
    pub args: Vec<String>,
    pub current_dir: FsPath,
    /// The variable that tells the wrapped tool where to put its output.
    pub env_key: String,
    /// The scratch output directory: created before the tool runs, handed to
    /// it through `env_key`, and the source of a mirror pass.
    pub target_dir: FsPath,
    /// Where the artifacts are mirrored after a successful run; none in the
    /// dev mode.
    pub mirror_to: Option<FsPath>,
}

/// The character views of a sequence of strings.
pub open spec fn strings_view(v: Seq<String>) -> Seq<Seq<char>> {
    v.map_values(|s: String| s@)
}

/// The sub-command word for `command`.
pub open spec fn command_word(command: TauriCommand) -> Seq<char> {
    match command {
        TauriCommand::Dev => "dev"@,
        TauriCommand::Build => "build"@,
    }
}

/// The mirror destination for `command`: the final target in the build mode,
/// none in the dev mode.
pub open spec fn mirror_target(command: TauriCommand, final_target: PathView) -> Option<PathView> {
    match command {
        TauriCommand::Dev => None,
        TauriCommand::Build => Some(final_target),
    }
}

/// `inv` is the invocation for these inputs: `cargo tauri <word> <args..>`,
/// run in `<project>/src-tauri` made absolute against `cwd`, with
/// `CARGO_TARGET_DIR` set to `<scratch path>/src-tauri/target`.
pub open spec fn invocation_spec(
    inv: &Invocation,
    project_dir: PathView,
    temp_target: PathView,
    final_target: PathView,
    command: TauriCommand,
    args: Seq<Seq<char>>,
    cwd: PathView,
) -> bool {
    &&& scratch_path_spec(temp_target, project_dir, cwd) is Some
    &&& inv.program@ == "cargo"@
    &&& strings_view(inv.args@) == seq!["tauri"@, command_word(command)] + args
    &&& inv.current_dir@ == push_spec(join_spec(cwd, project_dir), "src-tauri"@)
    &&& inv.env_key@ == "CARGO_TARGET_DIR"@
    &&& inv.target_dir@ == push_spec(
        push_spec(scratch_path_spec(temp_target, project_dir, cwd).unwrap(), "src-tauri"@),
        "target"@,
    )
    &&& opt_view(inv.mirror_to) == mirror_target(command, final_target)
}

/// Plans one run of the packaging tool: the sub-command tokens followed by
/// `tauri_args` verbatim, the working directory, the scratch output
/// directory, and whether a mirror pass into `final_target` follows.
pub fn start(
    project_dir: FsPath,
    temp_target: FsPath,
    final_target: FsPath,
    command: TauriCommand,
    tauri_args: Vec<String>,
    cwd: &FsPath,
) -> (r: Result<Invocation, FerryError>)
    ensures
        match r {
            Ok(inv) => invocation_spec(
                &inv,
                project_dir@,
                temp_target@,
                final_target@,
                command,
                strings_view(tauri_args@),
                cwd@,
            ),
            Err(e) => e is InvalidProjectPath && scratch_path_spec(
                temp_target@,
                project_dir@,
                cwd@,
            ) is None,
        },
{
    let scratch = match create_temp_ferry(&temp_target, &project_dir, cwd) {
        Ok(p) => p,
        Err(e) => return Err(e),
    };
    let current_dir = cwd.join(&project_dir).join_name("src-tauri");
    let target_dir = scratch.join_name("src-tauri").join_name("target");
    let mut args: Vec<String> = Vec::new();
    args.push("tauri".to_owned());
    let word = match command {
        TauriCommand::Dev => "dev".to_owned(),
        TauriCommand::Build => "build".to_owned(),
    };
    args.push(word);
    let ghost head = seq!["tauri"@, command_word(command)];
    assert(strings_view(args@) =~= head);
    let n = tauri_args.len();
    for i in 0..n
        invariant
            n == tauri_args.len(),
            strings_view(args@) == head + strings_view(tauri_args@).subrange(0, i as int),
    {
        let ghost before = args@;
        let a = tauri_args[i].clone();
        args.push(a);
        assert(strings_view(args@) =~= strings_view(before).push(a@));
        assert(strings_view(tauri_args@).subrange(0, i + 1) =~= strings_view(tauri_args@).subrange(
            0,
            i as int,
        ).push(tauri_args@[i as int]@));
        assert(strings_view(args@) =~= head + strings_view(tauri_args@).subrange(0, i + 1));
    }
    assert(strings_view(tauri_args@).subrange(0, n as int) =~= strings_view(tauri_args@));
    let mirror_to = match command {
        TauriCommand::Dev => None,
        TauriCommand::Build => Some(final_target),
    };
    Ok(
        Invocation {
            program: "cargo".to_owned(),
            args,
            current_dir,
            env_key: "CARGO_TARGET_DIR".to_owned(),
            target_dir,
            mirror_to,
        },
    )
}

/// A mirror pass still to be made: copy the tree under `from` into `to`.
#[derive(Debug, PartialEq, Eq)]
pub struct MirrorJob {
    pub from: FsPath,
    pub to: FsPath,
}

/// Whether a mirror pass follows a run that ended with `code`, given the
/// planned destination: only after a zero exit, and only where one is planned.
pub open spec fn mirror_runs(mirror_to: Option<PathView>, code: Option<i32>) -> bool {
    code == Some(0i32) && mirror_to is Some
}

/// Decides what follows the wrapped tool's exit with `code` (`None` where a
/// signal ended it): a failure for anything but a zero exit, else the mirror
/// pass that `inv` plans, if any.
pub fn finish(inv: &Invocation, code: Option<i32>) -> (r: Result<Option<MirrorJob>, FerryError>)
    ensures
        r is Err <==> code != Some(0i32),
        r matches Err(e) ==> (e matches FerryError::WrappedToolFailed { code: c } && c == code),
        (r matches Ok(Some(_))) <==> mirror_runs(opt_view(inv.mirror_to), code),
        r matches Ok(Some(job)) ==> job.from@ == inv.target_dir@ && Some(job.to@) == opt_view(
            inv.mirror_to,
        ),
{
    match code {
        Some(0i32) => {},
        _ => return Err(FerryError::WrappedToolFailed { code }),
    }
    match &inv.mirror_to {
        Some(to) => Ok(Some(MirrorJob { from: inv.target_dir.duplicate(), to: to.duplicate() })),
        None => Ok(None),
    }
}

/// In the dev mode no mirror pass ever follows, whatever the exit; in the
/// build mode one follows a zero exit.
pub proof fn lemma_mode_gating(final_target: PathView, code: Option<i32>)
    ensures
        !mirror_runs(mirror_target(TauriCommand::Dev, final_target), code),
        mirror_runs(mirror_target(TauriCommand::Build, final_target), Some(0i32)),
{
}

/// A run that does not exit with status zero is followed by no mirror pass,
/// whatever the invocation planned.
pub proof fn lemma_failure_blocks_mirror(mirror_to: Option<PathView>, code: Option<i32>)
    requires
        code != Some(0i32),
    ensures
        !mirror_runs(mirror_to, code),
{
}

/// The kind of an entry met while walking a tree.
#[derive(Debug, Clone, Copy, PartialEq, Eq, Structural)]
pub enum EntryKind {
    Dir,
    File,
    /// A symbolic link, device, socket or the like.
    Other,
}

/// The filesystem operation that mirrors one walked entry.
#[derive(Debug, PartialEq, Eq)]
pub enum MirrorStep {
    /// Create this directory and its missing ancestors.
    CreateDir(FsPath),
    /// Create `parent` (where there is one) and its missing ancestors, then
    /// copy the file at `from` over `to`.
    CopyFile { from: FsPath, to: FsPath, parent: Option<FsPath> },
    /// Leave the entry alone.
    Skip,
}

/// The value of a mirror step.
pub enum StepView {
    CreateDir(PathView),
    CopyFile(PathView, PathView),
    Skip,
}

impl View for MirrorStep {
    type V = StepView;

    open spec fn view(&self) -> StepView {
        match self {
            MirrorStep::CreateDir(p) => StepView::CreateDir(p@),
            MirrorStep::CopyFile { from, to, .. } => StepView::CopyFile(from@, to@),
            MirrorStep::Skip => StepView::Skip,
        }
    }
}

/// Where `entry`, found under `from`, lands under `to`.
pub open spec fn mirror_dest(from: PathView, to: PathView, entry: PathView) -> PathView {
    join_spec(to, strip_prefix_spec(entry, from))
}

/// The step for an entry of kind `kind` at `entry` under `from`.
pub open spec fn mirror_step_spec(from: PathView, to: PathView, entry: PathView, kind: EntryKind) -> StepView {
    match kind {
        EntryKind::Dir => StepView::CreateDir(mirror_dest(from, to, entry)),
        EntryKind::File => StepView::CopyFile(entry, mirror_dest(from, to, entry)),
        EntryKind::Other => StepView::Skip,
    }
}

/// The operation that mirrors `entry`, an entry of the tree under `from`,
/// into the tree under `to`: a directory is created, a regular file is copied
/// over whatever is there, and anything else is skipped.
pub fn mirror_entry(from: &FsPath, to: &FsPath, entry: &FsPath, kind: EntryKind) -> (r: MirrorStep)
    requires
        starts_with_spec(entry@, from@),
    ensures
        r@ == mirror_step_spec(from@, to@, entry@, kind),
        r matches MirrorStep::CopyFile { parent, .. } ==> opt_view(parent) == parent_spec(
            mirror_dest(from@, to@, entry@),
        ),
{
    match kind {
        EntryKind::Dir => MirrorStep::CreateDir(to.join(&entry.strip_prefix(from))),
        EntryKind::File => {
            let dest = to.join(&entry.strip_prefix(from));
            let parent = dest.parent();
            MirrorStep::CopyFile { from: entry.duplicate(), to: dest, parent }
        },
        EntryKind::Other => MirrorStep::Skip,
    }
}

/// What a destination tree holds, as far as mirroring is concerned: the
/// directories that exist and the bytes of each file.
pub struct TreeView {
    pub dirs: Set<PathView>,
    pub files: Map<PathView, Seq<u8>>,
}

/// The destination after one step, with `source` giving the bytes of each
/// file of the source tree.
pub open spec fn apply_step(t: TreeView, step: StepView, source: Map<PathView, Seq<u8>>) -> TreeView {
    match step {
        StepView::CreateDir(d) => TreeView { dirs: t.dirs.insert(d), files: t.files },
        StepView::CopyFile(f, d) => TreeView { dirs: t.dirs, files: t.files.insert(d, source[f]) },
        StepView::Skip => t,
    }
}

/// The destination after the steps, in order.
pub open spec fn apply_steps(t: TreeView, steps: Seq<StepView>, source: Map<PathView, Seq<u8>>) -> TreeView
    decreases steps.len(),
{
    if steps.len() == 0 {
        t
    } else {
        apply_step(apply_steps(t, steps.drop_last(), source), steps.last(), source)
    }
}

/// The directories that the steps create.
pub open spec fn created_dirs(steps: Seq<StepView>) -> Set<PathView>
    decreases steps.len(),
{
    if steps.len() == 0 {
        Set::empty()
    } else {
        match steps.last() {
            StepView::CreateDir(d) => created_dirs(steps.drop_last()).insert(d),
            _ => created_dirs(steps.drop_last()),
        }
    }
}

/// The files that the steps write, each with the bytes its last write leaves.
pub open spec fn written_files(steps: Seq<StepView>, source: Map<PathView, Seq<u8>>) -> Map<PathView, Seq<u8>>
    decreases steps.len(),
{
    if steps.len() == 0 {
        Map::empty()
    } else {
        match steps.last() {
            StepView::CopyFile(f, d) => written_files(steps.drop_last(), source).insert(d, source[f]),
            _ => written_files(steps.drop_last(), source),
        }
    }
}

/// Applying steps lays what they create and write over the tree as it was.
pub proof fn lemma_apply_steps_overlays(t: TreeView, steps: Seq<StepView>, source: Map<PathView, Seq<u8>>)
    ensures
        apply_steps(t, steps, source).dirs == t.dirs + created_dirs(steps),
        apply_steps(t, steps, source).files == t.files.union_prefer_right(written_files(steps, source)),
    decreases steps.len(),
{
    if steps.len() > 0 {
        lemma_apply_steps_overlays(t, steps.drop_last(), source);
        let prev = steps.drop_last();
        match steps.last() {
            StepView::CreateDir(d) => {
                assert((t.dirs + created_dirs(prev)).insert(d) =~= t.dirs + created_dirs(steps));
            },
            StepView::CopyFile(f, d) => {
                assert(t.files.union_prefer_right(written_files(prev, source)).insert(d, source[f])
                    =~= t.files.union_prefer_right(written_files(steps, source)));
            },
            StepView::Skip => {},
        }
    }
}

/// Mirroring an unchanged source a second time leaves the destination as the
/// first pass left it.
pub proof fn lemma_mirror_idempotent(t: TreeView, steps: Seq<StepView>, source: Map<PathView, Seq<u8>>)
    ensures
        apply_steps(apply_steps(t, steps, source), steps, source) == apply_steps(t, steps, source),
{
    let once = apply_steps(t, steps, source);
    lemma_apply_steps_overlays(t, steps, source);
    lemma_apply_steps_overlays(once, steps, source);
    let twice = apply_steps(once, steps, source);
    assert(twice.dirs =~= once.dirs);
    assert(twice.files =~= once.files);
}

/// The steps for the entries of a walk of the tree under `from`, in order.
pub open spec fn walk_steps(from: PathView, to: PathView, walk: Seq<(PathView, EntryKind)>) -> Seq<StepView> {
    walk.map_values(|w: (PathView, EntryKind)| mirror_step_spec(from, to, w.0, w.1))
}

/// Distinct entries under `from` land on distinct places under `to`.
pub proof fn lemma_mirror_dest_injective(from: PathView, to: PathView, e1: PathView, e2: PathView)
    requires
        starts_with_spec(e1, from),
        starts_with_spec(e2, from),
        mirror_dest(from, to, e1) == mirror_dest(from, to, e2),
    ensures
        e1 == e2,
{
    let n = from.parts.len() as int;
    let r1 = strip_prefix_spec(e1, from).parts;
    let r2 = strip_prefix_spec(e2, from).parts;
    let m = to.parts.len() as int;
    assert(mirror_dest(from, to, e1).parts == to.parts + r1);
    assert(mirror_dest(from, to, e2).parts == to.parts + r2);
    assert(r1.len() == r2.len());
    assert(r1 =~= (to.parts + r1).subrange(m, m + r1.len()));
    assert(r2 =~= (to.parts + r2).subrange(m, m + r2.len()));
    assert(r1 =~= r2);
    assert(e1.parts =~= from.parts + r1);
    assert(e2.parts =~= from.parts + r2);
    assert(e1.parts =~= e2.parts);
}

/// Every regular file of a walk is written to its place, with its bytes.
proof fn lemma_walk_writes_files(
    from: PathView,
    to: PathView,
    walk: Seq<(PathView, EntryKind)>,
    source: Map<PathView, Seq<u8>>,
)
    requires
        forall|j: int| 0 <= j < walk.len() ==> starts_with_spec(#[trigger] walk[j].0, from),
    ensures
        forall|i: int|
            0 <= i < walk.len() && walk[i].1 == EntryKind::File ==> {
                let w = written_files(walk_steps(from, to, walk), source);
                &&& w.contains_key(#[trigger] mirror_dest(from, to, walk[i].0))
                &&& w[mirror_dest(from, to, walk[i].0)] == source[walk[i].0]
            },
    decreases walk.len(),
{
    if walk.len() > 0 {
        let prev = walk.drop_last();
        assert forall|j: int| 0 <= j < prev.len() implies starts_with_spec(#[trigger] prev[j].0, from) by {
            assert(prev[j] == walk[j]);
        }
        lemma_walk_writes_files(from, to, prev, source);
        let steps = walk_steps(from, to, walk);
        assert(steps.drop_last() =~= walk_steps(from, to, prev));
        let last = walk.last();
        assert(steps.last() == mirror_step_spec(from, to, last.0, last.1));
        assert forall|i: int|
            0 <= i < walk.len() && walk[i].1 == EntryKind::File implies {
                let w = written_files(steps, source);
                &&& w.contains_key(#[trigger] mirror_dest(from, to, walk[i].0))
                &&& w[mirror_dest(from, to, walk[i].0)] == source[walk[i].0]
            } by {
            if i < walk.len() - 1 {
                assert(prev[i] == walk[i]);
                if last.1 == EntryKind::File && mirror_dest(from, to, last.0) == mirror_dest(
                    from,
                    to,
                    walk[i].0,
                ) {
                    assert(starts_with_spec(walk[walk.len() - 1].0, from));
                    lemma_mirror_dest_injective(from, to, last.0, walk[i].0);
                }
            }
        }
    }
}

/// Every directory of a walk is created at its place.
proof fn lemma_walk_creates_dirs(from: PathView, to: PathView, walk: Seq<(PathView, EntryKind)>)
    ensures
        forall|i: int|
            0 <= i < walk.len() && walk[i].1 == EntryKind::Dir ==> created_dirs(
                walk_steps(from, to, walk),
            ).contains(#[trigger] mirror_dest(from, to, walk[i].0)),
    decreases walk.len(),
{
    if walk.len() > 0 {
        let prev = walk.drop_last();
        lemma_walk_creates_dirs(from, to, prev);
        let steps = walk_steps(from, to, walk);
        assert(steps.drop_last() =~= walk_steps(from, to, prev));
        assert forall|i: int|
            0 <= i < walk.len() && walk[i].1 == EntryKind::Dir implies created_dirs(steps).contains(
                #[trigger] mirror_dest(from, to, walk[i].0),
            ) by {
            if i < walk.len() - 1 {
                assert(prev[i] == walk[i]);
            }
        }
    }
}

/// After a mirror pass over a walk of the source tree, each directory of the
/// walk exists at its place in the destination.
pub proof fn lemma_mirror_places_dirs(
    t: TreeView,
    from: PathView,
    to: PathView,
    walk: Seq<(PathView, EntryKind)>,
    source: Map<PathView, Seq<u8>>,
    i: int,
)
    requires
        0 <= i < walk.len(),
        walk[i].1 == EntryKind::Dir,
    ensures
        apply_steps(t, walk_steps(from, to, walk), source).dirs.contains(
            mirror_dest(from, to, walk[i].0),
        ),
{
    lemma_apply_steps_overlays(t, walk_steps(from, to, walk), source);
    lemma_walk_creates_dirs(from, to, walk);
}

/// After a mirror pass over a walk of the source tree, each regular file of
/// the walk has its place in the destination, holding the source file's
/// bytes, whatever the destination held there before.
pub proof fn lemma_mirror_places_files(
    t: TreeView,
    from: PathView,
    to: PathView,
    walk: Seq<(PathView, EntryKind)>,
    source: Map<PathView, Seq<u8>>,
    i: int,
)
    requires
        forall|j: int| 0 <= j < walk.len() ==> starts_with_spec(#[trigger] walk[j].0, from),
        0 <= i < walk.len(),
        walk[i].1 == EntryKind::File,
    ensures
        apply_steps(t, walk_steps(from, to, walk), source).files.contains_key(
            mirror_dest(from, to, walk[i].0),
        ),
        apply_steps(t, walk_steps(from, to, walk), source).files[mirror_dest(from, to, walk[i].0)]
            == source[walk[i].0],
{
    lemma_apply_steps_overlays(t, walk_steps(from, to, walk), source);
    lemma_walk_writes_files(from, to, walk, source);
}

} // verus!
