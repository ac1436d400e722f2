use cfcli::args::{CommonArgs, RunArgs, RunLoop};
use cfcli::error::Error;
use cfcli::setup::{InitArgs, SetupArgs, SetupCommand, ToolsArgs};

fn init_args(path: &str, local_path: Option<&str>) -> InitArgs {
    InitArgs {
        path: path.to_string(),
        verbose: false,
        local_path: local_path.map(|s| s.to_string()),
        git: Some("https://github.com/cyberfabric/cf-template-rust".to_string()),
        subfolder: Some("Init".to_string()),
        branch: Some("main".to_string()),
    }
}

#[test]
fn tools_run_is_unsupported() {
    let args = ToolsArgs { all: false, upgrade: false, install: None, yolo: false, verbose: false };
    assert!(matches!(args.run(), Err(Error::Unsupported)));
}

#[test]
fn init_plan_derives_the_project_name() {
    let plan = init_args("work/demo", None).plan(false, false).unwrap();
    assert_eq!(plan.name, "demo");
    assert!(plan.create_dir);
    assert_eq!(plan.git.as_deref(), Some("https://github.com/cyberfabric/cf-template-rust"));
    assert_eq!(plan.subfolder.as_deref(), Some("Init"));
    assert_eq!(plan.branch.as_deref(), Some("main"));
    assert!(plan.local_path.is_none());
}

#[test]
fn init_plan_local_path_disables_the_git_source() {
    let plan = init_args("demo", Some("./template")).plan(true, true).unwrap();
    assert_eq!(plan.name, "demo");
    assert!(!plan.create_dir);
    assert!(plan.git.is_none());
    assert!(plan.subfolder.is_none());
    assert!(plan.branch.is_none());
    assert_eq!(plan.local_path.as_deref(), Some("./template"));
}

#[test]
fn init_plan_refuses_an_existing_non_directory() {
    assert!(matches!(init_args("demo", None).plan(true, false), Err(Error::NotADirectory)));
}

#[test]
fn init_plan_refuses_a_path_without_a_name() {
    assert!(matches!(init_args("work/", None).plan(false, false), Err(Error::BadPath)));
    assert!(matches!(init_args("", None).plan(false, false), Err(Error::BadPath)));
}

#[test]
fn setup_dispatches_to_the_subcommand() {
    let tools = SetupArgs {
        command: SetupCommand::Tools(ToolsArgs {
            all: true,
            upgrade: false,
            install: None,
            yolo: true,
            verbose: false,
        }),
    };
    assert!(matches!(tools.run(false, false), Err(Error::Unsupported)));

    let init = SetupArgs { command: SetupCommand::Init(init_args("demo", None)) };
    let plan = init.run(false, false).unwrap().unwrap();
    assert_eq!(plan.name, "demo");
}

#[test]
fn run_defaults_point_at_the_working_directory() {
    let args = RunArgs::default();
    assert_eq!(args.path, ".");
    assert!(!args.release);
    assert_eq!(args.common_args.config, "./cyberfabric.yaml");
    let common = CommonArgs::default();
    assert_eq!(common.config, "./cyberfabric.yaml");
}

#[test]
fn run_loop_remembers_its_paths() {
    let rl = RunLoop::new(".".to_string(), "./cyberfabric.yaml".to_string());
    assert_eq!(rl.path, ".");
    assert_eq!(rl.config_path, "./cyberfabric.yaml");
}
