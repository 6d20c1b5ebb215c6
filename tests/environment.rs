use ctftools::env::{
    check_tool_install, installation_report, plan_missing, resolve_tool_path, Environment, MockEnvironment,
};
use ctftools::host::{supports_privilege_escalation, which_opt, HostError, Platform};
use ctftools::install::{InstallPlanResult, InstallProgress, InstallTask, InstallTaskError};
use ctftools::pkg::{select_first_match, AurHelper, PackageManager};
use ctftools::prompt::parse_yes_no;
use ctftools::registry::{PackageMap, ToolMetadata, Toolkit};

fn simple_tool(name: &str) -> ToolMetadata {
    ToolMetadata::builder()
        .name(name.to_string())
        .command(name.to_string())
        .build()
}

#[test]
fn test_check_toolkit_installation() {
    let toolkit = Toolkit::new(vec![simple_tool("foo")]);

    let env = MockEnvironment::builder()
        .installed_tools(vec![("foo".to_string(), "bar".to_string())])
        .build();
    let results = env.check_toolkit_installation(&toolkit).unwrap();
    let (_, installed) = results.iter().find(|(tool, ..)| tool.name == "foo").unwrap();
    assert!(installed);

    let env = MockEnvironment::builder().build();
    let results = env.check_toolkit_installation(&toolkit).unwrap();
    let (_, installed) = results.iter().find(|(tool, ..)| tool.name == "foo").unwrap();
    assert!(!installed);
}

#[test]
fn test_find_tool_executable() {
    let env = MockEnvironment::builder()
        .installed_tools(vec![("ping".to_string(), "/usr/bin/ping".to_string())])
        .build();

    let tool = simple_tool("ping");
    assert_eq!(env.find_tool_executable(&tool).unwrap(), Some("/usr/bin/ping".to_string()));

    let non_existing_tool = simple_tool("pong");
    assert_eq!(env.find_tool_executable(&non_existing_tool).unwrap(), None);
}

#[test]
fn test_empty_toolkit() {
    let env = MockEnvironment::builder().build();
    let toolkit = Toolkit::new(Vec::new());
    let results = env.check_toolkit_installation(&toolkit).unwrap();
    assert!(results.is_empty());
}

#[test]
fn test_installed_all_tools_from_toolkit() {
    let toolkit = Toolkit::new(vec![simple_tool("foo")]);
    let env = MockEnvironment::builder()
        .installed_tools(vec![("foo".to_string(), String::new())])
        .build();
    let results = env.check_toolkit_installation(&toolkit).unwrap();
    assert_eq!(results.len(), 1);
    assert!(results.iter().all(|(_, installed)| *installed));
}

#[test]
fn test_missing_tools_from_toolkit() {
    let toolkit = Toolkit::new(vec![simple_tool("intangible"), simple_tool("tangible")]);
    let env = MockEnvironment::builder()
        .installed_tools(vec![("tangible".to_string(), String::new())])
        .build();
    let results = env.check_toolkit_installation(&toolkit).unwrap();
    let summary: Vec<(&str, bool)> = results.iter().map(|(t, i)| (t.name.as_str(), *i)).collect();
    assert_eq!(summary, vec![("intangible", false), ("tangible", true)]);

    let plans = env.plan_install_missing_tools(&toolkit).unwrap();
    assert_eq!(plans.len(), 1);
}

#[test]
fn mock_install_makes_tool_found() {
    let tool = simple_tool("nmap");
    let mut env = MockEnvironment::builder().build();
    assert_eq!(env.find_tool_executable(&tool).unwrap(), None);

    let task = InstallTask::PackageManager {
        exec_path: String::new(),
        arguments: vec!["install".to_string(), "nmap".to_string()],
        sudo: false,
        tool_name: "nmap".to_string(),
    };
    let progress = env.run_install_task(&task);
    assert!(matches!(progress, InstallProgress::Success { ref tool_name, .. } if tool_name == "nmap"));
    assert_eq!(env.find_tool_executable(&tool).unwrap(), Some(String::new()));

    let wrapped = Environment::Mock(env);
    assert!(!wrapped.is_live());
    assert!(check_tool_install(&wrapped, &tool).unwrap());
}

#[test]
fn mock_defaults_and_settings() {
    let env = MockEnvironment::builder().build();
    assert!(env.running_in_elevation());
    assert!(env.supports_privilege_escalation());
    assert_eq!(env.pkg_manager(), None);
    assert!(!env.is_live());

    let env = MockEnvironment::builder()
        .running_in_elevation(false)
        .supports_privilege_escalation(false)
        .build();
    assert!(!env.running_in_elevation());
    assert!(!env.supports_privilege_escalation());
}

#[test]
fn later_installed_entry_wins() {
    let env = MockEnvironment::builder()
        .installed_tools(vec![
            ("foo".to_string(), "/a".to_string()),
            ("foo".to_string(), "/b".to_string()),
        ])
        .build();
    assert_eq!(env.find_tool_executable(&simple_tool("foo")).unwrap(), Some("/b".to_string()));
}

#[test]
fn missing_binary_is_not_an_error() {
    assert_eq!(which_opt("definitely-not-an-installed-binary-7f3a").unwrap(), None);
}

#[test]
fn privilege_escalation_only_on_linux() {
    assert!(supports_privilege_escalation(Platform::Linux));
    assert!(!supports_privilege_escalation(Platform::Windows));
    assert!(!supports_privilege_escalation(Platform::MacOs));
}

#[test]
fn live_environment_without_manager() {
    let env = ctftools::env::LiveEnvironment::without_pkg_manager(Platform::Linux);
    assert!(env.is_live());
    assert_eq!(env.pkg_manager(), None);
    assert_eq!(env.aur_helper(), None);
    let tool = simple_tool("definitely-not-an-installed-binary-7f3a");
    assert_eq!(env.find_tool_executable(&tool).unwrap(), None);
}

#[test]
fn yes_no_replies() {
    assert_eq!(parse_yes_no("Yes"), Some(true));
    assert_eq!(parse_yes_no("y"), Some(true));
    assert_eq!(parse_yes_no("No thanks"), Some(false));
    assert_eq!(parse_yes_no("N"), Some(false));
    assert_eq!(parse_yes_no(""), None);
    assert_eq!(parse_yes_no("maybe"), None);
}

#[test]
fn simulated_install_uses_the_command() {
    let tool = ToolMetadata::builder()
        .name("Foo".to_string())
        .command("foo".to_string())
        .packages({
            let mut p = PackageMap::new();
            p.insert("pacman".to_string(), "foo-pkg".to_string());
            p
        })
        .build();
    let mut env = MockEnvironment::builder().pkg_manager(PackageManager::Pacman).build();
    let task = match env.plan_install_tool(&tool) {
        InstallPlanResult::Task(task) => task,
        other => panic!("unexpected plan {other:?}"),
    };
    assert_eq!(task.tool_name(), "foo");
    assert_eq!(env.find_tool_executable(&tool).unwrap(), None);
    env.run_install_task(&task);
    assert_eq!(env.find_tool_executable(&tool).unwrap(), Some(String::new()));
}

#[test]
fn resolving_the_tool_path() {
    let paths = vec!["C:\\a.exe".to_string(), "C:\\b.exe".to_string(), "C:\\c.exe".to_string()];
    let hit = Some("/usr/bin/x".to_string());
    assert_eq!(resolve_tool_path(hit.clone(), Platform::Windows, &paths, &vec![true]), hit);
    assert_eq!(resolve_tool_path(None, Platform::Linux, &paths, &vec![true, true]), None);
    assert_eq!(
        resolve_tool_path(None, Platform::Windows, &paths, &vec![false, true, true]),
        Some("C:\\b.exe".to_string())
    );
    assert_eq!(resolve_tool_path(None, Platform::Windows, &paths, &vec![false, false]), None);
}

#[test]
fn installation_report_from_lookups() {
    let a = simple_tool("a");
    let b = simple_tool("b");
    let report = installation_report(vec![(&a, Ok(Some("/bin/a".to_string()))), (&b, Ok(None))]).unwrap();
    assert_eq!(report, vec![(&a, true), (&b, false)]);

    let failed = installation_report(vec![
        (&a, Ok(None)),
        (&b, Err(HostError::Probe { path: "first".to_string(), message: "x".to_string() })),
        (&a, Err(HostError::Probe { path: "second".to_string(), message: "y".to_string() })),
    ]);
    assert!(matches!(failed, Err(HostError::Probe { ref path, .. }) if path == "first"));
    assert_eq!(installation_report(Vec::new()).unwrap(), Vec::new());
}

#[test]
fn planning_the_missing_tools() {
    let a = simple_tool("a");
    let b = simple_tool("b");
    let c = simple_tool("c");
    let checked = vec![(&a, false), (&b, true), (&c, false)];
    let plans = plan_missing(&checked, &None, &None, Platform::Linux);
    assert_eq!(
        plans,
        vec![
            InstallPlanResult::CannotInstall(&a, InstallTaskError::CannotInstallTool { tool_name: "a".to_string() }),
            InstallPlanResult::CannotInstall(&c, InstallTaskError::CannotInstallTool { tool_name: "c".to_string() }),
        ]
    );
}

#[test]
fn selecting_the_first_match() {
    let candidates = [("paru", AurHelper::Paru), ("yay", AurHelper::Yay)];
    assert_eq!(
        select_first_match(&candidates, vec![Ok(None), Ok(Some("/usr/bin/yay".to_string()))]).unwrap(),
        Some((AurHelper::Yay, "/usr/bin/yay".to_string()))
    );
    assert_eq!(
        select_first_match(&candidates, vec![Ok(Some("/usr/bin/paru".to_string())), Ok(Some("/y".to_string()))]).unwrap(),
        Some((AurHelper::Paru, "/usr/bin/paru".to_string()))
    );
    assert_eq!(select_first_match(&candidates, vec![Ok(None), Ok(None)]).unwrap(), None);
    assert!(select_first_match(
        &candidates,
        vec![Err(HostError::Probe { path: "p".to_string(), message: "m".to_string() })]
    )
    .is_err());
    assert!(matches!(PackageManager::detect(Platform::Other), Ok(None)));
}
