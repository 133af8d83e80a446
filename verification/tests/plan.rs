use clang_tools_installer::directory::{
    check_directory, link_action, removal_action, DirectoryError, DirectoryFacts, LinkAction,
    ManagedDirectory, PathKind, RemovalAction,
};
use clang_tools_installer::plan::{
    plan_install, plan_uninstall, InstallCommand, InstallPlan, UninstallCommand, UninstallPlan,
};
use clang_tools_installer::resolve::ResolutionVerdict;
use clang_tools_installer::version::{SpecifiedVersion, Version};

fn facts(exists: bool, canonical: Option<&str>, search_path: Option<&str>) -> DirectoryFacts {
    DirectoryFacts {
        requested: "./bin".to_string(),
        exists,
        canonical: canonical.map(|s| s.to_string()),
        search_path: search_path.map(|s| {
            s.split(':').filter(|e| !e.is_empty()).map(|e| e.to_string()).collect()
        }),
    }
}

fn found(path: &str) -> ResolutionVerdict {
    ResolutionVerdict::Found(path.to_string(), Version::new(18, 1, 3))
}

fn v18() -> SpecifiedVersion {
    SpecifiedVersion::parse("18")
}

fn opaque() -> SpecifiedVersion {
    SpecifiedVersion::parse("/opt/custom/tool")
}

#[test]
fn directory_on_search_path() {
    let checked = check_directory(facts(true, Some("/home/u/bin"), Some("/usr/bin:/home/u/bin")));
    assert_eq!(
        checked,
        Ok(ManagedDirectory { path: "/home/u/bin".to_string(), on_search_path: true })
    );
}

#[test]
fn directory_off_search_path_is_no_error() {
    let checked = check_directory(facts(true, Some("/home/u/bin"), Some("/usr/bin:/bin")));
    assert_eq!(
        checked,
        Ok(ManagedDirectory { path: "/home/u/bin".to_string(), on_search_path: false })
    );
}

#[test]
fn parent_of_an_entry_is_off_search_path() {
    let checked = check_directory(facts(true, Some("/usr"), Some("/usr/bin")));
    assert_eq!(checked, Ok(ManagedDirectory { path: "/usr".to_string(), on_search_path: false }));
    let checked = check_directory(facts(true, Some("/usr/bin"), Some("/usr:/usr/bin/extra")));
    assert_eq!(
        checked,
        Ok(ManagedDirectory { path: "/usr/bin".to_string(), on_search_path: false })
    );
}

#[test]
fn directory_is_found_among_many_entries() {
    let path = Some("/bin:/usr/bin:/home/u/bin:/opt/bin");
    for dir in ["/bin", "/usr/bin", "/home/u/bin", "/opt/bin"] {
        let checked = check_directory(facts(true, Some(dir), path));
        assert_eq!(checked, Ok(ManagedDirectory { path: dir.to_string(), on_search_path: true }));
    }
}

#[test]
fn directory_with_empty_search_path() {
    let checked = check_directory(facts(true, Some("/home/u/bin"), Some("")));
    assert_eq!(
        checked,
        Ok(ManagedDirectory { path: "/home/u/bin".to_string(), on_search_path: false })
    );
}

#[test]
fn missing_directory_is_an_error() {
    let checked = check_directory(facts(false, None, Some("/usr/bin")));
    assert_eq!(checked, Err(DirectoryError::DoesNotExist("./bin".to_string())));
    let checked = check_directory(facts(false, Some("/x"), None));
    assert_eq!(checked, Err(DirectoryError::DoesNotExist("./bin".to_string())));
}

#[test]
fn directory_without_canonical_form_is_an_error() {
    let checked = check_directory(facts(true, None, Some("/usr/bin")));
    assert_eq!(checked, Err(DirectoryError::NotCanonical("./bin".to_string())));
}

#[test]
fn unreadable_search_path_is_an_error() {
    let checked = check_directory(facts(true, Some("/home/u/bin"), None));
    assert_eq!(checked, Err(DirectoryError::SearchPathUnreadable));
}

#[test]
fn link_is_created_where_nothing_is() {
    assert_eq!(link_action(PathKind::Absent), LinkAction::Create);
}

#[test]
fn old_link_is_replaced() {
    assert_eq!(link_action(PathKind::Symlink), LinkAction::Replace);
}

#[test]
fn regular_file_is_never_touched() {
    assert_eq!(link_action(PathKind::Other), LinkAction::Refuse);
    assert_eq!(removal_action(PathKind::Other), RemovalAction::Nothing);
}

#[test]
fn found_tool_is_overwritten_only_when_forced() {
    let unforced = plan_install(&v18(), found("/usr/bin/clang-format"), false);
    assert_eq!(unforced.link_name("clang-format"), None);
    let forced = plan_install(&v18(), found("/usr/bin/clang-format"), true);
    assert_eq!(forced.link_name("clang-format"), Some("clang-format-18".to_string()));
}

#[test]
fn removal_takes_links_only() {
    assert_eq!(removal_action(PathKind::Symlink), RemovalAction::Remove);
    assert_eq!(removal_action(PathKind::Absent), RemovalAction::Nothing);
}

#[test]
fn install_of_found_tool_is_satisfied() {
    assert_eq!(
        plan_install(&v18(), found("/usr/bin/clang-format-18"), false),
        InstallPlan::AlreadySatisfied("/usr/bin/clang-format-18".to_string())
    );
}

#[test]
fn forced_install_of_found_tool() {
    let plan = plan_install(&v18(), found("/usr/bin/clang-format"), true);
    assert_eq!(
        plan,
        InstallPlan::NeedsInstall {
            major: 18,
            existing: Some("/usr/bin/clang-format".to_string()),
        }
    );
    assert_eq!(plan.link_name("clang-format"), Some("clang-format-18".to_string()));
}

#[test]
fn install_of_missing_tool() {
    for force in [false, true] {
        let plan = plan_install(&v18(), ResolutionVerdict::NotFound, force);
        assert_eq!(plan, InstallPlan::NeedsInstall { major: 18, existing: None });
        assert_eq!(plan.link_name("clang-tidy"), Some("clang-tidy-18".to_string()));
    }
}

#[test]
fn opaque_version_skips_everything() {
    for force in [false, true] {
        assert_eq!(
            plan_install(&opaque(), ResolutionVerdict::NotFound, force),
            InstallPlan::Skipped
        );
        assert_eq!(
            plan_install(&opaque(), found("/usr/bin/clang-tidy"), force),
            InstallPlan::Skipped
        );
    }
    assert_eq!(plan_uninstall(&opaque(), found("/usr/bin/clang-tidy")), UninstallPlan::Skipped);
    assert_eq!(plan_uninstall(&opaque(), ResolutionVerdict::NotFound), UninstallPlan::Skipped);
}

#[test]
fn uninstall_of_found_tool() {
    let plan = plan_uninstall(&v18(), found("/usr/bin/clang-tidy-18"));
    assert_eq!(
        plan,
        UninstallPlan::NeedsRemoval { major: 18, found: "/usr/bin/clang-tidy-18".to_string() }
    );
    assert_eq!(plan.link_name("clang-tidy"), Some("clang-tidy-18".to_string()));
}

#[test]
fn uninstall_of_absent_tool_is_no_error() {
    let plan = plan_uninstall(&v18(), ResolutionVerdict::NotFound);
    assert_eq!(plan, UninstallPlan::AlreadySatisfied);
    assert_eq!(plan.link_name("clang-tidy"), None);
    assert_eq!(removal_action(PathKind::Absent), RemovalAction::Nothing);
}

#[test]
fn satisfied_and_skipped_plans_name_no_link() {
    assert_eq!(InstallPlan::Skipped.link_name("clang-tidy"), None);
    assert_eq!(InstallPlan::AlreadySatisfied("/x".to_string()).link_name("clang-tidy"), None);
    assert_eq!(UninstallPlan::Skipped.link_name("clang-tidy"), None);
}

#[test]
fn plans_copy_to_equal_plans() {
    let plans = [
        InstallPlan::Skipped,
        InstallPlan::AlreadySatisfied("/x".to_string()),
        InstallPlan::NeedsInstall { major: 3, existing: Some("/y".to_string()) },
        InstallPlan::NeedsInstall { major: 4, existing: None },
    ];
    for plan in plans {
        assert_eq!(plan.copy(), plan);
    }
    let plans = [
        UninstallPlan::Skipped,
        UninstallPlan::AlreadySatisfied,
        UninstallPlan::NeedsRemoval { major: 3, found: "/y".to_string() },
    ];
    for plan in plans {
        assert_eq!(plan.copy(), plan);
    }
}

#[test]
fn second_install_changes_nothing() {
    let first = plan_install(&v18(), ResolutionVerdict::NotFound, false);
    assert!(matches!(first, InstallPlan::NeedsInstall { .. }));
    let after = found("/home/u/bin/clang-format-18");
    let second = plan_install(&v18(), after.clone(), false);
    assert_eq!(second, InstallPlan::AlreadySatisfied("/home/u/bin/clang-format-18".to_string()));
    let third = plan_install(&v18(), after, false);
    assert_eq!(third, second);
}

#[test]
fn command_plans_by_its_flags() {
    let install = InstallCommand {
        tool: vec!["clang-format".to_string()],
        version: v18(),
        force: true,
    };
    assert_eq!(
        install.plan(found("/usr/bin/clang-format")),
        InstallPlan::NeedsInstall {
            major: 18,
            existing: Some("/usr/bin/clang-format".to_string()),
        }
    );
    let uninstall = UninstallCommand { tool: vec!["clang-format".to_string()], version: v18() };
    assert_eq!(uninstall.plan(ResolutionVerdict::NotFound), UninstallPlan::AlreadySatisfied);
    assert_eq!(
        uninstall.plan(found("/usr/bin/clang-format")),
        UninstallPlan::NeedsRemoval { major: 18, found: "/usr/bin/clang-format".to_string() }
    );
}
