use cargo_leptos::environment::{
    augment_search_path, prepend_search_dir, probe_targets, Augmentation, EnvironmentProbe,
};
use cargo_leptos::error::EnvironmentWarning;

fn entries(list: &[&str]) -> Vec<String> {
    list.iter().map(|entry| entry.to_string()).collect()
}

#[test]
fn probe_targets_lie_in_the_working_dir() {
    let targets = probe_targets("/proj");
    assert_eq!(targets.manifest, "/proj/package.json");
    assert_eq!(targets.dependencies, "/proj/node_modules");
}

#[test]
fn probe_targets_of_a_dir_with_trailing_separator() {
    let targets = probe_targets("/proj/");
    assert_eq!(targets.manifest, "/proj/package.json");
    assert_eq!(targets.dependencies, "/proj/node_modules");
}

#[test]
fn without_manifest_nothing_is_done() {
    let probe = EnvironmentProbe {
        manifest_exists: false,
        dependencies_exist: true,
        search_path: Some(entries(&["/usr/bin", "/bin"])),
    };
    assert_eq!(augment_search_path("/proj", probe), Augmentation::Unchanged);
    let probe = EnvironmentProbe { manifest_exists: false, dependencies_exist: false, search_path: None };
    assert_eq!(augment_search_path("/proj", probe), Augmentation::Unchanged);
}

#[test]
fn without_dependencies_a_warning_is_given() {
    let probe = EnvironmentProbe {
        manifest_exists: true,
        dependencies_exist: false,
        search_path: Some(entries(&["/usr/bin", "/bin"])),
    };
    assert_eq!(
        augment_search_path("/proj", probe),
        Augmentation::Skipped(EnvironmentWarning::DependenciesMissing)
    );
}

#[test]
fn without_search_path_a_warning_is_given() {
    let probe = EnvironmentProbe { manifest_exists: true, dependencies_exist: true, search_path: None };
    assert_eq!(
        augment_search_path("/proj", probe),
        Augmentation::Skipped(EnvironmentWarning::SearchPathUnset)
    );
}

#[test]
fn binaries_come_first_and_the_rest_keeps_its_order() {
    let probe = EnvironmentProbe {
        manifest_exists: true,
        dependencies_exist: true,
        search_path: Some(entries(&["/usr/local/bin", "/usr/bin", "/bin"])),
    };
    assert_eq!(
        augment_search_path("/proj", probe),
        Augmentation::Replaced(entries(&[
            "/proj/node_modules/.bin",
            "/usr/local/bin",
            "/usr/bin",
            "/bin"
        ]))
    );
}

#[test]
fn an_empty_search_path_gets_the_binaries_alone() {
    let probe = EnvironmentProbe {
        manifest_exists: true,
        dependencies_exist: true,
        search_path: Some(Vec::new()),
    };
    assert_eq!(
        augment_search_path("/proj", probe),
        Augmentation::Replaced(entries(&["/proj/node_modules/.bin"]))
    );
}

#[test]
fn augmenting_twice_prepends_twice() {
    let probe = EnvironmentProbe {
        manifest_exists: true,
        dependencies_exist: true,
        search_path: Some(entries(&["/bin"])),
    };
    let once = match augment_search_path("/proj", probe) {
        Augmentation::Replaced(list) => list,
        other => panic!("unexpected {:?}", other),
    };
    let probe = EnvironmentProbe { manifest_exists: true, dependencies_exist: true, search_path: Some(once) };
    assert_eq!(
        augment_search_path("/proj", probe),
        Augmentation::Replaced(entries(&["/proj/node_modules/.bin", "/proj/node_modules/.bin", "/bin"]))
    );
}

#[test]
fn prepending_keeps_duplicates_and_order() {
    assert_eq!(
        prepend_search_dir("/x".to_string(), entries(&["/b", "/a", "/b"])),
        entries(&["/x", "/b", "/a", "/b"])
    );
    assert_eq!(prepend_search_dir("/x".to_string(), Vec::new()), entries(&["/x"]));
}
