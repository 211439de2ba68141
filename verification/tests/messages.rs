use cargo_leptos::error::{exit_code, ConfigError, EnvironmentWarning, Error, ResolutionError};

#[test]
fn missing_current_project_is_named() {
    assert_eq!(ConfigError::NoCurrentProject.message(), "no current project");
    assert_eq!(Error::Config(ConfigError::NoCurrentProject).message(), "no current project");
}

#[test]
fn manifest_path_failure_names_the_raw_path() {
    let error = ConfigError::ManifestPath {
        raw: "~/site/Cargo.toml".to_string(),
        cause: ResolutionError::HomeUnavailable,
    };
    assert_eq!(
        error.message(),
        "manifest_path: ~/site/Cargo.toml: home directory could not be determined"
    );
    assert_eq!(ResolutionError::HomeUnavailable.message(), "home directory could not be determined");
}

#[test]
fn outside_messages_are_passed_on_unchanged() {
    assert_eq!(ConfigError::Load("no such manifest".to_string()).message(), "no such manifest");
    assert_eq!(Error::Config(ConfigError::Load("bad".to_string())).message(), "bad");
    assert_eq!(Error::Io("permission denied".to_string()).message(), "permission denied");
    assert_eq!(Error::Handler("build failed".to_string()).message(), "build failed");
}

#[test]
fn warnings_say_why_the_search_path_stays() {
    assert_eq!(
        EnvironmentWarning::DependenciesMissing.message(),
        "dependency directory not found, continuing without it"
    );
    assert_eq!(
        EnvironmentWarning::SearchPathUnset.message(),
        "search path variable not found, ignoring"
    );
}

#[test]
fn exit_code_is_zero_for_success_only() {
    assert_eq!(exit_code(&Ok(())), 0);
    assert_eq!(exit_code(&Err(Error::Config(ConfigError::NoCurrentProject))), 1);
    assert_eq!(exit_code(&Err(Error::Io("denied".to_string()))), 1);
    assert_eq!(exit_code(&Err(Error::Handler("failed".to_string()))), 1);
}
