use cargo_leptos::command::{CommandKind, Operation};
use cargo_leptos::config::{Project, ResolvedConfig};
use cargo_leptos::dispatch::{dispatch, HandlerCall};
use cargo_leptos::error::ConfigError;

fn project(name: &str) -> Project {
    Project { name: name.to_string() }
}

fn config(projects: &[&str], current: Option<usize>) -> ResolvedConfig {
    ResolvedConfig {
        working_dir: "/proj".to_string(),
        manifest_path: "/proj/Cargo.toml".to_string(),
        watch: false,
        bin_args: vec!["--release".to_string(), "--quiet".to_string()],
        projects: projects.iter().map(|name| project(name)).collect(),
        current,
    }
}

#[test]
fn every_command_but_new_has_its_operation() {
    assert_eq!(CommandKind::New.operation(), None);
    assert_eq!(CommandKind::Build.operation(), Some(Operation::Build));
    assert_eq!(CommandKind::Serve.operation(), Some(Operation::Serve));
    assert_eq!(CommandKind::Test.operation(), Some(Operation::Test));
    assert_eq!(CommandKind::EndToEnd.operation(), Some(Operation::EndToEnd));
    assert_eq!(CommandKind::Watch.operation(), Some(Operation::Watch));
}

#[test]
fn operations_on_all_projects_get_the_whole_config() {
    let whole = config(&["site", "admin"], None);
    assert_eq!(dispatch(Operation::Build, whole.clone()), Ok(HandlerCall::BuildAll(whole.clone())));
    assert_eq!(dispatch(Operation::Test, whole.clone()), Ok(HandlerCall::TestAll(whole.clone())));
    assert_eq!(
        dispatch(Operation::EndToEnd, whole.clone()),
        Ok(HandlerCall::EndToEndAll(whole))
    );
}

#[test]
fn serve_and_watch_get_the_current_project() {
    let selected = config(&["site", "admin", "docs"], Some(1));
    assert_eq!(dispatch(Operation::Serve, selected.clone()), Ok(HandlerCall::Serve(project("admin"))));
    assert_eq!(dispatch(Operation::Watch, selected), Ok(HandlerCall::Watch(project("admin"))));
    let last = config(&["site", "admin", "docs"], Some(2));
    assert_eq!(dispatch(Operation::Serve, last), Ok(HandlerCall::Serve(project("docs"))));
}

#[test]
fn serve_and_watch_fail_without_current_project() {
    let none = config(&["site", "admin"], None);
    assert_eq!(dispatch(Operation::Serve, none.clone()), Err(ConfigError::NoCurrentProject));
    assert_eq!(dispatch(Operation::Watch, none), Err(ConfigError::NoCurrentProject));
    let empty = config(&[], None);
    assert_eq!(dispatch(Operation::Watch, empty), Err(ConfigError::NoCurrentProject));
}

#[test]
fn a_position_outside_the_projects_selects_nothing() {
    let outside = config(&["site"], Some(1));
    assert_eq!(outside.current_project(), None);
    assert_eq!(dispatch(Operation::Serve, outside.clone()), Err(ConfigError::NoCurrentProject));
    assert_eq!(dispatch(Operation::Build, outside.clone()), Ok(HandlerCall::BuildAll(outside)));
}

#[test]
fn current_project_is_the_selected_one() {
    let selected = config(&["site", "admin"], Some(0));
    assert_eq!(selected.current_project(), Some(&project("site")));
    assert_eq!(selected.into_current_project(), Some(project("site")));
    assert_eq!(config(&["site", "admin"], None).into_current_project(), None);
}
