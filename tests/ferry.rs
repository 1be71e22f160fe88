use build_ferry::cli::{resolve_config, start, Cli, Config, TauriCommand};
use build_ferry::error::FerryError;
use build_ferry::modules::create_temp_ferry;
use build_ferry::modules::tauri::{self, finish, mirror_entry, EntryKind, MirrorJob, MirrorStep};
use build_ferry::path::{Component, FsPath};

fn path(absolute: bool, names: &[&str]) -> FsPath {
    FsPath {
        absolute,
        parts: names
            .iter()
            .map(|n| {
                if *n == ".." {
                    Component::ParentDir
                } else {
                    Component::Normal(n.to_string())
                }
            })
            .collect(),
    }
}

fn abs(names: &[&str]) -> FsPath {
    path(true, names)
}

fn rel(names: &[&str]) -> FsPath {
    path(false, names)
}

fn tauri_cli(
    temp: Option<FsPath>,
    fin: Option<FsPath>,
    command: TauriCommand,
    args: Vec<String>,
) -> Cli {
    Cli::Tauri {
        project_dir: abs(&["home", "u", "app"]),
        temp_target: temp,
        final_target: fin,
        command,
        tauri_args: args,
    }
}

fn no_config() -> Config {
    Config { temp_target: None, final_target: None }
}

#[test]
fn scratch_path_is_deterministic() {
    let t = abs(&["nvme"]);
    let p = abs(&["home", "u", "proj"]);
    let cwd = abs(&["work"]);
    let a = create_temp_ferry(&t, &p, &cwd).unwrap();
    let b = create_temp_ferry(&t, &p, &cwd).unwrap();
    assert_eq!(a, b);
}

#[test]
fn scratch_path_ends_in_project_name() {
    let r = create_temp_ferry(&abs(&["nvme"]), &abs(&["home", "u", "proj"]), &abs(&["work"]));
    assert_eq!(r, Ok(abs(&["nvme", "build-ferry", "proj"])));
    assert_eq!(r.unwrap().file_name(), Some("proj".to_string()));
}

#[test]
fn relative_project_resolves_against_cwd() {
    let r = create_temp_ferry(&abs(&["nvme"]), &rel(&["sub", "proj"]), &abs(&["work"]));
    assert_eq!(r, Ok(abs(&["nvme", "build-ferry", "proj"])));
}

#[test]
fn current_directory_project_takes_cwd_name() {
    let r = create_temp_ferry(&rel(&["tmp"]), &rel(&[]), &abs(&["home", "u", "repo"]));
    assert_eq!(r, Ok(rel(&["tmp", "build-ferry", "repo"])));
}

#[test]
fn root_project_has_no_name() {
    let r = create_temp_ferry(&abs(&["nvme"]), &abs(&[]), &abs(&["work"]));
    assert_eq!(r, Err(FerryError::InvalidProjectPath));
}

#[test]
fn parent_dir_project_has_no_name() {
    let r = create_temp_ferry(&abs(&["nvme"]), &abs(&["a", ".."]), &abs(&["work"]));
    assert_eq!(r, Err(FerryError::InvalidProjectPath));
}

#[test]
fn join_replaces_with_absolute() {
    assert_eq!(abs(&["a"]).join(&abs(&["b"])), abs(&["b"]));
    assert_eq!(abs(&["a"]).join(&rel(&["b", "c"])), abs(&["a", "b", "c"]));
}

#[test]
fn parent_and_prefix() {
    assert_eq!(abs(&["a", "b"]).parent(), Some(abs(&["a"])));
    assert_eq!(abs(&[]).parent(), None);
    assert!(abs(&["a", "b"]).starts_with(&abs(&["a"])));
    assert!(!abs(&["a", "b"]).starts_with(&abs(&["b"])));
    assert!(!abs(&["a", "b"]).starts_with(&rel(&["a"])));
    assert!(!abs(&["a"]).starts_with(&abs(&["a", "b"])));
    assert_eq!(abs(&["a", "b", "c"]).strip_prefix(&abs(&["a"])), rel(&["b", "c"]));
}

#[test]
fn tauri_build_invocation() {
    let args = vec!["--verbose".to_string(), "--".to_string(), "x".to_string()];
    let inv = tauri::start(
        abs(&["home", "u", "app"]),
        abs(&["nvme"]),
        abs(&["hdd"]),
        TauriCommand::Build,
        args,
        &abs(&["work"]),
    )
    .unwrap();
    assert_eq!(inv.program, "cargo");
    assert_eq!(inv.args, vec!["tauri", "build", "--verbose", "--", "x"]);
    assert_eq!(inv.current_dir, abs(&["home", "u", "app", "src-tauri"]));
    assert_eq!(inv.env_key, "CARGO_TARGET_DIR");
    assert_eq!(inv.target_dir, abs(&["nvme", "build-ferry", "app", "src-tauri", "target"]));
    assert_eq!(inv.mirror_to, Some(abs(&["hdd"])));
}

#[test]
fn tauri_dev_invocation_from_relative_project() {
    let inv = tauri::start(
        rel(&["app"]),
        abs(&["nvme"]),
        abs(&["hdd"]),
        TauriCommand::Dev,
        vec![],
        &abs(&["work"]),
    )
    .unwrap();
    assert_eq!(inv.args, vec!["tauri", "dev"]);
    assert_eq!(inv.current_dir, abs(&["work", "app", "src-tauri"]));
    assert_eq!(inv.target_dir, abs(&["nvme", "build-ferry", "app", "src-tauri", "target"]));
    assert_eq!(inv.mirror_to, None);
}

#[test]
fn dev_mode_never_mirrors() {
    let inv = tauri::start(
        abs(&["p"]),
        abs(&["t"]),
        abs(&["f"]),
        TauriCommand::Dev,
        vec![],
        &abs(&["w"]),
    )
    .unwrap();
    assert_eq!(finish(&inv, Some(0)), Ok(None));
}

#[test]
fn build_mode_mirrors_once_after_success() {
    let inv = tauri::start(
        abs(&["p"]),
        abs(&["t"]),
        abs(&["f"]),
        TauriCommand::Build,
        vec![],
        &abs(&["w"]),
    )
    .unwrap();
    assert_eq!(
        finish(&inv, Some(0)),
        Ok(Some(MirrorJob {
            from: abs(&["t", "build-ferry", "p", "src-tauri", "target"]),
            to: abs(&["f"]),
        }))
    );
}

#[test]
fn failed_build_does_not_mirror() {
    let inv = tauri::start(
        abs(&["p"]),
        abs(&["t"]),
        abs(&["f"]),
        TauriCommand::Build,
        vec![],
        &abs(&["w"]),
    )
    .unwrap();
    assert_eq!(finish(&inv, Some(101)), Err(FerryError::WrappedToolFailed { code: Some(101) }));
    assert_eq!(finish(&inv, None), Err(FerryError::WrappedToolFailed { code: None }));
}

#[test]
fn mirror_tree_round_trip() {
    let from = abs(&["nvme", "t"]);
    let to = abs(&["hdd"]);
    let walk = [
        (abs(&["nvme", "t"]), EntryKind::Dir),
        (abs(&["nvme", "t", "a"]), EntryKind::Dir),
        (abs(&["nvme", "t", "a", "b.txt"]), EntryKind::File),
        (abs(&["nvme", "t", "a", "c"]), EntryKind::Dir),
        (abs(&["nvme", "t", "a", "c", "d.txt"]), EntryKind::File),
        (abs(&["nvme", "t", "e"]), EntryKind::Dir),
    ];
    let steps: Vec<MirrorStep> =
        walk.iter().map(|(e, k)| mirror_entry(&from, &to, e, *k)).collect();
    assert_eq!(
        steps,
        vec![
            MirrorStep::CreateDir(abs(&["hdd"])),
            MirrorStep::CreateDir(abs(&["hdd", "a"])),
            MirrorStep::CopyFile {
                from: abs(&["nvme", "t", "a", "b.txt"]),
                to: abs(&["hdd", "a", "b.txt"]),
                parent: Some(abs(&["hdd", "a"])),
            },
            MirrorStep::CreateDir(abs(&["hdd", "a", "c"])),
            MirrorStep::CopyFile {
                from: abs(&["nvme", "t", "a", "c", "d.txt"]),
                to: abs(&["hdd", "a", "c", "d.txt"]),
                parent: Some(abs(&["hdd", "a", "c"])),
            },
            MirrorStep::CreateDir(abs(&["hdd", "e"])),
        ]
    );
}

#[test]
fn mirror_plan_is_the_same_each_pass() {
    let from = abs(&["s"]);
    let to = abs(&["d"]);
    let entry = abs(&["s", "a", "b.txt"]);
    let first = mirror_entry(&from, &to, &entry, EntryKind::File);
    let second = mirror_entry(&from, &to, &entry, EntryKind::File);
    assert_eq!(first, second);
}

#[test]
fn mirror_copies_over_existing_destination() {
    let step = mirror_entry(&abs(&["s"]), &abs(&["d"]), &abs(&["s", "a", "b.txt"]), EntryKind::File);
    match step {
        MirrorStep::CopyFile { from, to, .. } => {
            assert_eq!(from, abs(&["s", "a", "b.txt"]));
            assert_eq!(to, abs(&["d", "a", "b.txt"]));
        }
        other => panic!("expected a copy, got {:?}", other),
    }
}

#[test]
fn mirror_skips_other_entries() {
    let step = mirror_entry(&abs(&["s"]), &abs(&["d"]), &abs(&["s", "link"]), EntryKind::Other);
    assert_eq!(step, MirrorStep::Skip);
}

#[test]
fn project_config_wins_over_global() {
    let project = Config { temp_target: Some(abs(&["p-temp"])), final_target: None };
    let global = Config { temp_target: Some(abs(&["g-temp"])), final_target: Some(abs(&["g-final"])) };
    let merged = resolve_config(project, global);
    assert_eq!(merged.temp_target, Some(abs(&["p-temp"])));
    assert_eq!(merged.final_target, Some(abs(&["g-final"])));
}

#[test]
fn cli_targets_win_over_config() {
    let config = Config { temp_target: Some(abs(&["c-temp"])), final_target: Some(abs(&["c-final"])) };
    let cli = tauri_cli(Some(abs(&["cli-temp"])), None, TauriCommand::Build, vec![]);
    let inv = start(cli, config, &abs(&["w"])).unwrap();
    assert_eq!(inv.target_dir, abs(&["cli-temp", "build-ferry", "app", "src-tauri", "target"]));
    assert_eq!(inv.mirror_to, Some(abs(&["c-final"])));
}

#[test]
fn missing_targets_fail_before_any_run() {
    let cli = tauri_cli(None, None, TauriCommand::Build, vec![]);
    assert!(!cli.has_targets(&no_config()));
    assert_eq!(start(cli, no_config(), &abs(&["w"])), Err(FerryError::ConfigurationMissing));
    let half = tauri_cli(Some(abs(&["t"])), None, TauriCommand::Dev, vec![]);
    assert_eq!(start(half, no_config(), &abs(&["w"])), Err(FerryError::ConfigurationMissing));
}

#[test]
fn targets_may_come_from_both_sources() {
    let cli = tauri_cli(Some(abs(&["t"])), None, TauriCommand::Dev, vec![]);
    let config = Config { temp_target: None, final_target: Some(abs(&["f"])) };
    assert!(cli.has_targets(&config));
}

fn build_cli(profile: &str, args: Vec<String>) -> Cli {
    Cli::Build {
        project_dir: rel(&[]),
        temp_target: Some(abs(&["t"])),
        final_target: Some(abs(&["f"])),
        profile: profile.to_string(),
        cargo_args: args,
    }
}

#[test]
fn build_mode_plans_cargo_build() {
    let inv = start(build_cli("debug", vec!["-p".to_string(), "x".to_string()]), no_config(), &abs(&["home", "proj"]))
        .unwrap();
    assert_eq!(inv.program, "cargo");
    assert_eq!(inv.args, vec!["build", "-p", "x"]);
    assert_eq!(inv.current_dir, abs(&["home", "proj"]));
    assert_eq!(inv.env_key, "CARGO_TARGET_DIR");
    assert_eq!(inv.target_dir, abs(&["t", "build-ferry", "proj", "target"]));
    assert_eq!(inv.mirror_to, Some(abs(&["f"])));
}

#[test]
fn build_mode_profile_flags() {
    let release = start(build_cli("release", vec![]), no_config(), &abs(&["p"])).unwrap();
    assert_eq!(release.args, vec!["build", "--release"]);
    let bench = start(build_cli("bench", vec!["--".to_string()]), no_config(), &abs(&["p"])).unwrap();
    assert_eq!(bench.args, vec!["build", "--profile", "bench", "--"]);
}

#[test]
fn build_mode_mirrors_after_success_only() {
    let inv = start(build_cli("debug", vec![]), no_config(), &abs(&["home", "proj"])).unwrap();
    assert_eq!(
        finish(&inv, Some(0)),
        Ok(Some(MirrorJob { from: abs(&["t", "build-ferry", "proj", "target"]), to: abs(&["f"]) }))
    );
    assert_eq!(finish(&inv, Some(1)), Err(FerryError::WrappedToolFailed { code: Some(1) }));
}

#[test]
fn build_mode_root_project_fails() {
    let r = start(build_cli("debug", vec![]), no_config(), &abs(&[]));
    assert_eq!(r, Err(FerryError::InvalidProjectPath));
}

#[test]
fn root_project_fails_in_start() {
    let cli = Cli::Tauri {
        project_dir: abs(&[]),
        temp_target: Some(abs(&["t"])),
        final_target: Some(abs(&["f"])),
        command: TauriCommand::Dev,
        tauri_args: vec![],
    };
    assert_eq!(start(cli, no_config(), &abs(&["w"])), Err(FerryError::InvalidProjectPath));
}
