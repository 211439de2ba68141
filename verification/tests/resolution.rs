use cargo_leptos::command::{CommandKind, Operation};
use cargo_leptos::config::{CliInvocation, LoadRequest, Options, ProcessFacts, Project, ResolvedConfig};
use cargo_leptos::dispatch::HandlerCall;
use cargo_leptos::environment::{Augmentation, EnvironmentProbe};
use cargo_leptos::error::{ConfigError, EnvironmentWarning, ResolutionError};
use cargo_leptos::{execute_command, resolve_config, Execution};

fn options() -> Options {
    Options { verbosity: 2, log_filter: vec!["server".to_string()], working_dir: None }
}

fn invocation(command: CommandKind, manifest_path: Option<&str>) -> CliInvocation {
    CliInvocation {
        command,
        options: options(),
        manifest_path: manifest_path.map(|path| path.to_string()),
        bin_args: vec!["--release".to_string()],
    }
}

fn process(home: Option<&str>, working_dir: &str) -> ProcessFacts {
    ProcessFacts { home: home.map(|dir| dir.to_string()), working_dir: working_dir.to_string() }
}

#[test]
fn default_manifest_is_cargo_toml() {
    let request = resolve_config(invocation(CommandKind::Build, None), &process(None, "/proj"));
    assert_eq!(
        request,
        Ok(LoadRequest {
            options: options(),
            working_dir: "/proj".to_string(),
            manifest_path: "Cargo.toml".to_string(),
            watch: false,
            bin_args: vec!["--release".to_string()],
        })
    );
}

#[test]
fn manifest_path_is_normalised_with_home() {
    let request = resolve_config(
        invocation(CommandKind::Serve, Some("~/site/Cargo.toml")),
        &process(Some("/home/u"), "/proj"),
    )
    .unwrap();
    assert_eq!(request.manifest_path, "/home/u/site/Cargo.toml");
    assert_eq!(request.working_dir, "/proj");
    assert!(!request.watch);
}

#[test]
fn working_dir_is_put_in_the_common_convention() {
    let request = resolve_config(
        invocation(CommandKind::Test, Some("site\\Cargo.toml")),
        &process(None, "\\\\?\\C:\\proj"),
    )
    .unwrap();
    assert_eq!(request.working_dir, "C:/proj");
    assert_eq!(request.manifest_path, "site/Cargo.toml");
}

#[test]
fn working_dir_with_a_tilde_is_not_expanded() {
    let request =
        resolve_config(invocation(CommandKind::Build, None), &process(None, "~/proj")).unwrap();
    assert_eq!(request.working_dir, "~/proj");
}

#[test]
fn watch_flag_is_set_for_watch_only() {
    for command in [CommandKind::Build, CommandKind::Serve, CommandKind::Test, CommandKind::EndToEnd] {
        let request = resolve_config(invocation(command, None), &process(None, "/proj")).unwrap();
        assert!(!request.watch);
    }
    let request =
        resolve_config(invocation(CommandKind::Watch, None), &process(None, "/proj")).unwrap();
    assert!(request.watch);
}

#[test]
fn options_and_arguments_are_handed_on() {
    let mut args = invocation(CommandKind::Build, None);
    args.options.working_dir = Some("elsewhere".to_string());
    args.bin_args = vec!["a".to_string(), "b".to_string()];
    let request = resolve_config(args.clone(), &process(None, "/proj")).unwrap();
    assert_eq!(request.options, args.options);
    assert_eq!(request.bin_args, args.bin_args);
}

#[test]
fn unknown_home_fails_with_the_raw_path() {
    let request = resolve_config(
        invocation(CommandKind::Build, Some("~\\site\\Cargo.toml")),
        &process(None, "/proj"),
    );
    assert_eq!(
        request,
        Err(ConfigError::ManifestPath {
            raw: "~\\site\\Cargo.toml".to_string(),
            cause: ResolutionError::HomeUnavailable,
        })
    );
}

fn config(current: Option<usize>) -> ResolvedConfig {
    ResolvedConfig {
        working_dir: "/proj".to_string(),
        manifest_path: "/proj/Cargo.toml".to_string(),
        watch: false,
        bin_args: Vec::new(),
        projects: vec![Project { name: "site".to_string() }],
        current,
    }
}

#[test]
fn execution_plans_search_path_and_call() {
    let probe = EnvironmentProbe {
        manifest_exists: true,
        dependencies_exist: true,
        search_path: Some(vec!["/bin".to_string()]),
    };
    assert_eq!(
        execute_command(Operation::Serve, config(Some(0)), probe),
        Execution {
            search_path: Augmentation::Replaced(vec![
                "/proj/node_modules/.bin".to_string(),
                "/bin".to_string()
            ]),
            call: Ok(HandlerCall::Serve(Project { name: "site".to_string() })),
        }
    );
}

#[test]
fn search_path_is_planned_even_where_routing_fails() {
    let probe = EnvironmentProbe { manifest_exists: true, dependencies_exist: false, search_path: None };
    assert_eq!(
        execute_command(Operation::Watch, config(None), probe),
        Execution {
            search_path: Augmentation::Skipped(EnvironmentWarning::DependenciesMissing),
            call: Err(ConfigError::NoCurrentProject),
        }
    );
}

#[test]
fn execution_without_manifest_leaves_the_search_path() {
    let probe = EnvironmentProbe {
        manifest_exists: false,
        dependencies_exist: false,
        search_path: Some(vec!["/bin".to_string()]),
    };
    let plan = execute_command(Operation::Build, config(None), probe);
    assert_eq!(plan.search_path, Augmentation::Unchanged);
    assert_eq!(plan.call, Ok(HandlerCall::BuildAll(config(None))));
}
