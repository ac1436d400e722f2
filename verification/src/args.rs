//! The plain data behind the command-line surface of the run command.

use vstd::prelude::*;

verus! {

/// Arguments shared by every command: where the config file lives.
pub struct CommonArgs {
    pub config: String,
}

impl Default for CommonArgs {
    /// The config file looked for when none is named.
    fn default() -> (r: Self)
        ensures
            r.config@ == "./cyberfabric.yaml"@,
    {
        CommonArgs { config: "./cyberfabric.yaml".to_owned() }
    }
}

/// Arguments of the run command: the module root, the unsupported release
/// flag, and the shared arguments.
pub struct RunArgs {
    pub path: String,
    pub release: bool,
    pub common_args: CommonArgs,
}

impl Default for RunArgs {
    /// The current directory, a debug build, the default config path.
    fn default() -> (r: Self)
        ensures
            r.path@ == "."@,
            !r.release,
            r.common_args.config@ == "./cyberfabric.yaml"@,
    {
        RunArgs { path: ".".to_owned(), release: false, common_args: CommonArgs::default() }
    }
}

/// The handle a run session is built from: the module root and the config
/// path it will resolve and watch.
pub struct RunLoop {
    pub path: String,
    pub config_path: String,
}

impl RunLoop {
    /// Remembers the module root and the config path of one session.
    pub fn new(path: String, config_path: String) -> (r: Self)
        ensures
            r.path == path,
            r.config_path == config_path,
    {
        RunLoop { path, config_path }
    }
}

} // verus!
