//! The setup commands: the decisions of project initialization, and the
//! not-yet-supported tools command.
//!
//! Initialization itself — creating directories and expanding a project
//! template — is outside work; what stands here is the part that decides:
//! validating the target path, deriving the project name, and selecting the
//! template source.

use vstd::prelude::*;
use crate::config::clone_opt_string;
use crate::error::Error;

verus! {

/// Arguments of the tools command; none of it is supported yet.
pub struct ToolsArgs {
    pub all: bool,
    pub upgrade: bool,
    pub install: Option<Vec<String>>,
    pub yolo: bool,
    pub verbose: bool,
}

impl ToolsArgs {
    /// The tools command is not implemented: every run reports that.
    pub fn run(&self) -> (r: Result<(), Error>)
        ensures
            r matches Err(e) && e is Unsupported,
    {
        Err(Error::Unsupported)
    }
}

/// Arguments of the init command: the target path, verbosity, and the
/// template source — either a local path or a git repository with subfolder
/// and branch.
pub struct InitArgs {
    pub path: String,
    pub verbose: bool,
    pub local_path: Option<String>,
    pub git: Option<String>,
    pub subfolder: Option<String>,
    pub branch: Option<String>,
}

/// What project initialization must do: create the directory or not, the
/// project name, and the template source to expand.
pub struct InitPlan {
    pub name: String,
    pub create_dir: bool,
    pub local_path: Option<String>,
    pub git: Option<String>,
    pub subfolder: Option<String>,
    pub branch: Option<String>,
}

/// Whether `i` is the last separator of `path`.
pub open spec fn last_slash_at(path: Seq<char>, i: int) -> bool {
    &&& 0 <= i < path.len()
    &&& path[i] == '/'
    &&& forall|j: int| i < j < path.len() ==> path[j] != '/'
}

/// Whether `name` is the final component of `path`: what follows the last
/// separator, or the whole path when it has none.
pub open spec fn derived_name(path: Seq<char>, name: Seq<char>) -> bool {
    ||| exists|i: int| #[trigger] last_slash_at(path, i) && name == path.subrange(
        i + 1,
        path.len() as int,
    )
    ||| (forall|i: int| 0 <= i < path.len() ==> path[i] != '/') && name == path
}

/// Whether the final component of `path` is empty: the path is empty or ends
/// with a separator, so no project name can be derived from it.
pub open spec fn empty_name(path: Seq<char>) -> bool {
    path.len() == 0 || path[path.len() - 1] == '/'
}

/// The final component of a path.
fn file_name_of(path: &String) -> (r: String)
    ensures
        derived_name(path@, r@),
{
    let n = path.as_str().unicode_len();
    let mut i = n;
    while i > 0
        invariant
            n == path@.len(),
            i <= n,
            forall|j: int| i <= j < n ==> path@[j] != '/',
        decreases i,
    {
        i = i - 1;
        if path.as_str().get_char(i) == '/' {
            let name = path.as_str().substring_char(i + 1, n).to_owned();
            proof {
                assert(last_slash_at(path@, i as int));
            }
            return name;
        }
    }
    path.clone()
}

/// Whether initialization can proceed: the target is not an existing
/// non-directory, and the path yields a project name.
pub open spec fn plan_ok(a: InitArgs, path_exists: bool, path_is_dir: bool) -> bool {
    (!path_exists || path_is_dir) && !empty_name(a.path@)
}

/// Whether a plan carries exactly what the arguments ask for.
pub open spec fn plan_matches(a: InitArgs, path_exists: bool, p: InitPlan) -> bool {
    &&& derived_name(a.path@, p.name@)
    &&& p.name@.len() > 0
    &&& p.create_dir == !path_exists
    &&& p.local_path.deep_view() == a.local_path.deep_view()
    &&& if a.local_path is Some {
        p.git is None && p.subfolder is None && p.branch is None
    } else {
        p.git.deep_view() == a.git.deep_view() && p.subfolder.deep_view()
            == a.subfolder.deep_view() && p.branch.deep_view() == a.branch.deep_view()
    }
}

impl InitArgs {
    /// The decision part of project initialization. Takes what only the
    /// filesystem knows — whether the target path exists and whether it is a
    /// directory — and yields the plan: refuse an existing non-directory,
    /// refuse a path without a final component, derive the project name, and
    /// take the local template path over the git source when both are given.
    pub fn plan(&self, path_exists: bool, path_is_dir: bool) -> (r: Result<InitPlan, Error>)
        ensures
            r is Ok <==> plan_ok(*self, path_exists, path_is_dir),
            r matches Ok(p) ==> plan_matches(*self, path_exists, p),
            r matches Err(e) ==> (if path_exists && !path_is_dir {
                e is NotADirectory
            } else {
                e is BadPath
            }),
    {
        if path_exists && !path_is_dir {
            return Err(Error::NotADirectory);
        }
        let name = file_name_of(&self.path);
        if name.as_str().is_empty() {
            proof {
                lemma_empty_name(self.path@, name@);
            }
            return Err(Error::BadPath);
        }
        proof {
            lemma_empty_name(self.path@, name@);
        }
        let (git, subfolder, branch) = if self.local_path.is_some() {
            (None, None, None)
        } else {
            (
                clone_opt_string(&self.git),
                clone_opt_string(&self.subfolder),
                clone_opt_string(&self.branch),
            )
        };
        Ok(
            InitPlan {
                name,
                create_dir: !path_exists,
                local_path: clone_opt_string(&self.local_path),
                git,
                subfolder,
                branch,
            },
        )
    }
}

/// A derived name is empty exactly when the path has no final component.
proof fn lemma_empty_name(path: Seq<char>, name: Seq<char>)
    requires
        derived_name(path, name),
    ensures
        name.len() == 0 <==> empty_name(path),
{
    if exists|i: int| #[trigger] last_slash_at(path, i) && name == path.subrange(
        i + 1,
        path.len() as int,
    ) {
        let i = choose|i: int| #[trigger] last_slash_at(path, i) && name == path.subrange(
            i + 1,
            path.len() as int,
        );
        assert(name.len() == path.len() - i - 1);
        if i == path.len() - 1 {
            assert(empty_name(path));
        } else {
            assert(path[path.len() - 1] != '/');
        }
    }
}

/// The setup subcommands that are modeled here.
pub enum SetupCommand {
    Tools(ToolsArgs),
    Init(InitArgs),
}

impl SetupCommand {
    /// Decides one setup command from what the filesystem knows about the
    /// init target path (ignored by the tools command): the tools command is
    /// unsupported, the init command yields its plan.
    pub fn run(&self, path_exists: bool, path_is_dir: bool) -> (r: Result<Option<InitPlan>, Error>)
        ensures
            self matches SetupCommand::Tools(_) ==> r matches Err(e) && e is Unsupported,
            self matches SetupCommand::Init(a) ==> {
                &&& r is Ok <==> plan_ok(*a, path_exists, path_is_dir)
                &&& r matches Ok(p) ==> p matches Some(p) && plan_matches(*a, path_exists, p)
                &&& r matches Err(e) ==> (if path_exists && !path_is_dir {
                    e is NotADirectory
                } else {
                    e is BadPath
                })
            },
    {
        match self {
            SetupCommand::Tools(args) => match args.run() {
                Ok(_) => Ok(None),
                Err(e) => Err(e),
            },
            SetupCommand::Init(args) => match args.plan(path_exists, path_is_dir) {
                Ok(p) => Ok(Some(p)),
                Err(e) => Err(e),
            },
        }
    }
}

/// Arguments of the setup command: which subcommand to run.
pub struct SetupArgs {
    pub command: SetupCommand,
}

impl SetupArgs {
    /// Forwards to the chosen subcommand.
    pub fn run(&self, path_exists: bool, path_is_dir: bool) -> (r: Result<Option<InitPlan>, Error>)
        ensures
            self.command matches SetupCommand::Tools(_) ==> r matches Err(e) && e is Unsupported,
            self.command matches SetupCommand::Init(a) ==> {
                &&& r is Ok <==> plan_ok(a, path_exists, path_is_dir)
                &&& r matches Ok(p) ==> p matches Some(p) && plan_matches(a, path_exists, p)
                &&& r matches Err(e) ==> (if path_exists && !path_is_dir {
                    e is NotADirectory
                } else {
                    e is BadPath
                })
            },
    {
        self.command.run(path_exists, path_is_dir)
    }
}

} // verus!
