use crate::error::FerryError;
use crate::modules::cargo_build;
use crate::modules::tauri::{self, Invocation};
use crate::modules::scratch_path_spec;
use crate::path::{opt_view, FsPath, PathView};
use vstd::prelude::*;

verus! {

/// Which sub-command of the packaging tool to run.
#[derive(Debug, Clone, Copy, PartialEq, Eq, Structural)]
pub enum TauriCommand {
    Dev,
    Build,
}

/// The invocation as the command line gave it.
#[derive(Debug, PartialEq, Eq)]
pub enum Cli {
    /// Build using a fast temp target directory and mirror artifacts back.
    Build {
        project_dir: FsPath,
        temp_target: Option<FsPath>,
        final_target: Option<FsPath>,
        profile: String,
        cargo_args: Vec<String>,
    },
    /// Run the packaging tool (dev or build) using a fast temp target directory.
    Tauri {
        project_dir: FsPath,
        temp_target: Option<FsPath>,
        final_target: Option<FsPath>,
        command: TauriCommand,
        tauri_args: Vec<String>,
    },
}

/// What a configuration file holds; a missing file holds neither target.
#[derive(Debug, PartialEq, Eq)]
pub struct Config {
    /// Default temp target directory.
    pub temp_target: Option<FsPath>,
    /// Default final target directory.
    pub final_target: Option<FsPath>,
}

/// `first` where it is given, else `second`.
pub open spec fn first_given(first: Option<PathView>, second: Option<PathView>) -> Option<PathView> {
    if first is Some {
        first
    } else {
        second
    }
}

impl Cli {
    /// The temp target given on the command line.
    pub open spec fn cli_temp(&self) -> Option<PathView> {
        match self {
            Cli::Build { temp_target, .. } => opt_view(*temp_target),
            Cli::Tauri { temp_target, .. } => opt_view(*temp_target),
        }
    }

    /// The final target given on the command line.
    pub open spec fn cli_final(&self) -> Option<PathView> {
        match self {
            Cli::Build { final_target, .. } => opt_view(*final_target),
            Cli::Tauri { final_target, .. } => opt_view(*final_target),
        }
    }

    /// The temp target in force: the command line's, else the configuration's.
    pub open spec fn temp_in_force(&self, config: &Config) -> Option<PathView> {
        first_given(self.cli_temp(), opt_view(config.temp_target))
    }

    /// The final target in force: the command line's, else the configuration's.
    pub open spec fn final_in_force(&self, config: &Config) -> Option<PathView> {
        first_given(self.cli_final(), opt_view(config.final_target))
    }

    /// Both a temp and a final target are in force.
    pub open spec fn has_targets_spec(&self, config: &Config) -> bool {
        self.temp_in_force(config) is Some && self.final_in_force(config) is Some
    }

    /// Whether both a temp and a final target are in force, each taken from
    /// the command line where given there, else from the configuration.
    pub fn has_targets(&self, config: &Config) -> (r: bool)
        ensures
            r == self.has_targets_spec(config),
    {
        match self {
            Cli::Build { temp_target, final_target, .. }
            | Cli::Tauri { temp_target, final_target, .. } => {
                (temp_target.is_some() || config.temp_target.is_some()) && (final_target.is_some()
                    || config.final_target.is_some())
            },
        }
    }
}

/// Merges the project file's configuration over the global one, target by
/// target: a target the project file gives wins.
pub fn resolve_config(project_config: Config, global_config: Config) -> (r: Config)
    ensures
        opt_view(r.temp_target) == first_given(
            opt_view(project_config.temp_target),
            opt_view(global_config.temp_target),
        ),
        opt_view(r.final_target) == first_given(
            opt_view(project_config.final_target),
            opt_view(global_config.final_target),
        ),
{
    Config {
        temp_target: pick_target(project_config.temp_target, global_config.temp_target),
        final_target: pick_target(project_config.final_target, global_config.final_target),
    }
}

/// The target in force: `given` where it is there, else `fallback`.
fn pick_target(given: Option<FsPath>, fallback: Option<FsPath>) -> (r: Option<FsPath>)
    ensures
        opt_view(r) == first_given(opt_view(given), opt_view(fallback)),
{
    match given {
        Some(g) => Some(g),
        None => fallback,
    }
}

/// Decides what an invocation does, once the configuration files are read
/// and merged (`config`) and the working directory is known (`cwd`).
///
/// Fails with `ConfigurationMissing` exactly where no temp or no final target
/// is in force. Otherwise each mode yields the wrapped tool's invocation (the
/// package build, or the packaging tool), or `InvalidProjectPath` where the
/// project directory has no name.
pub fn start(cli: Cli, config: Config, cwd: &FsPath) -> (r: Result<Invocation, FerryError>)
    ensures
        (r matches Err(FerryError::ConfigurationMissing)) <==> !cli.has_targets_spec(&config),
        match cli {
            Cli::Build { project_dir, profile, cargo_args, .. } => cli.has_targets_spec(&config)
                ==> match r {
                Ok(inv) => cargo_build::build_invocation_spec(
                    &inv,
                    project_dir@,
                    cli.temp_in_force(&config).unwrap(),
                    cli.final_in_force(&config).unwrap(),
                    profile@,
                    tauri::strings_view(cargo_args@),
                    cwd@,
                ),
                Err(e) => e is InvalidProjectPath && scratch_path_spec(
                    cli.temp_in_force(&config).unwrap(),
                    project_dir@,
                    cwd@,
                ) is None,
            },
            Cli::Tauri { project_dir, command, tauri_args, .. } => cli.has_targets_spec(&config)
                ==> match r {
                Ok(inv) => tauri::invocation_spec(
                    &inv,
                    project_dir@,
                    cli.temp_in_force(&config).unwrap(),
                    cli.final_in_force(&config).unwrap(),
                    command,
                    tauri::strings_view(tauri_args@),
                    cwd@,
                ),
                Err(e) => e is InvalidProjectPath && scratch_path_spec(
                    cli.temp_in_force(&config).unwrap(),
                    project_dir@,
                    cwd@,
                ) is None,
            },
        },
{
    if !cli.has_targets(&config) {
        return Err(FerryError::ConfigurationMissing);
    }
    match cli {
        Cli::Build { project_dir, temp_target, final_target, profile, cargo_args } => {
            let temp = pick_target(temp_target, config.temp_target);
            let fin = pick_target(final_target, config.final_target);
            match (temp, fin) {
                (Some(t), Some(f)) => match cargo_build::start(project_dir, t, f, profile, cargo_args, cwd) {
                    Ok(inv) => Ok(inv),
                    Err(e) => Err(e),
                },
                _ => Err(FerryError::ConfigurationMissing),
            }
        },
        Cli::Tauri { project_dir, temp_target, final_target, command, tauri_args } => {
            let temp = pick_target(temp_target, config.temp_target);
            let fin = pick_target(final_target, config.final_target);
            match (temp, fin) {
                (Some(t), Some(f)) => match tauri::start(project_dir, t, f, command, tauri_args, cwd) {
                    Ok(inv) => Ok(inv),
                    Err(e) => Err(e),
                },
                _ => Err(FerryError::ConfigurationMissing),
            }
        },
    }
}

/// The first of the three that is given, in order of precedence.
pub open spec fn by_precedence(
    on_cli: Option<PathView>,
    in_project: Option<PathView>,
    in_global: Option<PathView>,
) -> Option<PathView> {
    if on_cli is Some {
        on_cli
    } else if in_project is Some {
        in_project
    } else {
        in_global
    }
}

/// With `merged` the project configuration laid over the global one, each
/// target in force is the command line's where given, else the project
/// file's, else the global file's; and where none of the three gives one of
/// the targets, `start` fails with `ConfigurationMissing` and plans nothing.
pub proof fn lemma_config_precedence(cli: &Cli, project: &Config, global: &Config, merged: &Config)
    requires
        opt_view(merged.temp_target) == first_given(
            opt_view(project.temp_target),
            opt_view(global.temp_target),
        ),
        opt_view(merged.final_target) == first_given(
            opt_view(project.final_target),
            opt_view(global.final_target),
        ),
    ensures
        cli.temp_in_force(merged) == by_precedence(
            cli.cli_temp(),
            opt_view(project.temp_target),
            opt_view(global.temp_target),
        ),
        cli.final_in_force(merged) == by_precedence(
            cli.cli_final(),
            opt_view(project.final_target),
            opt_view(global.final_target),
        ),
        (cli.cli_temp() is None && project.temp_target is None && global.temp_target is None) || (
        cli.cli_final() is None && project.final_target is None && global.final_target is None)
            ==> !cli.has_targets_spec(merged),
{
}

} // verus!
