use crate::path::FsPath;
use vstd::prelude::*;

verus! {

/// Every way an invocation can fail, by stage.
#[derive(Debug, PartialEq, Eq)]
pub enum FerryError {
    /// Neither the command line nor a configuration file gave both targets.
    ConfigurationMissing,
    /// The resolved project directory has no final segment to name it by.
    InvalidProjectPath,
    /// The scratch directory could not be created.
    ScratchDirCreateFailed { cause: String },
    /// The destination root of a mirror pass could not be created.
    FinalDirCreateFailed { cause: String },
    /// The wrapped tool could not be launched.
    SpawnFailed { cause: String },
    /// The wrapped tool ran and did not exit with status zero; `code` is
    /// `None` where it was ended by a signal.
    WrappedToolFailed { code: Option<i32> },
    /// An I/O failure while walking or copying the artifact tree.
    MirrorFailed { path: FsPath, cause: String },
}

} // verus!
