//! The error taxonomy of the supervision workflow.

use vstd::prelude::*;

verus! {

/// What went wrong, and at which stage of the workflow.
#[derive(Debug)]
pub enum Error {
    /// A module in the config carries no package name.
    MissingPackage { module: String },
    /// The config could not be read or resolved.
    Config,
    /// The scaffold could not be written.
    Generation,
    /// A path could not be watched or unwatched mid-session.
    Watch,
    /// The config path has no parent directory to watch.
    NoParentDir,
    /// The child process exited with a non-zero status in a one-shot run.
    ChildFailure,
    /// The init target path exists and is not a directory.
    NotADirectory,
    /// No project name can be derived from the init target path.
    BadPath,
    /// The requested command is not supported yet.
    Unsupported,
}

impl Error {
    /// A short description of the error, for reporting outside the library.
    pub fn describe(&self) -> (r: String)
        ensures
            r@.len() > 0,
    {
        let s: &'static str = match self {
            Error::MissingPackage { .. } => {
                "module doesn't have package associated, please review"
            },
            Error::Config => "config not available or not valid",
            Error::Generation => "something went wrong when generating the server structure",
            Error::Watch => "failed to watch or unwatch a dependency path",
            Error::NoParentDir => "config path has no parent directory",
            Error::ChildFailure => "cargo run exited with a non-zero status",
            Error::NotADirectory => "path is not a directory",
            Error::BadPath => "path is strange",
            Error::Unsupported => "not implemented yet",
        };
        proof {
            reveal_strlit("module doesn't have package associated, please review");
            reveal_strlit("config not available or not valid");
            reveal_strlit("something went wrong when generating the server structure");
            reveal_strlit("failed to watch or unwatch a dependency path");
            reveal_strlit("config path has no parent directory");
            reveal_strlit("cargo run exited with a non-zero status");
            reveal_strlit("path is not a directory");
            reveal_strlit("path is strange");
            reveal_strlit("not implemented yet");
        }
        s.to_owned()
    }
}

} // verus!
