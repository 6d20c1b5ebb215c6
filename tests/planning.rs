use ctftools::env::MockEnvironment;
use ctftools::host::Platform;
use ctftools::install::{partition_plans, InstallPlanResult, InstallPlanner, InstallTask, InstallTaskError};
use ctftools::pkg::{AurHelper, PackageManager};
use ctftools::registry::{
    DownloadFileFormat, PackageMap, ToolDownloadInstructions, ToolMetadata, ToolPlatformDownloads,
};

fn packages(pairs: &[(&str, &str)]) -> PackageMap {
    let mut map = PackageMap::new();
    for (key, value) in pairs {
        map.insert(key.to_string(), value.to_string());
    }
    map
}

fn strings(items: &[&str]) -> Vec<String> {
    items.iter().map(|s| s.to_string()).collect()
}

fn tool_with(name: &str, pairs: &[(&str, &str)]) -> ToolMetadata {
    ToolMetadata::builder()
        .name(name.to_string())
        .command(name.to_string())
        .packages(packages(pairs))
        .build()
}

#[test]
fn test_plan_install_tool_with_provided_default_package() {
    let tool = tool_with("tool", &[("default", "tool")]);
    let env = MockEnvironment::builder().pkg_manager(PackageManager::Pacman).build();

    assert_eq!(
        env.plan_install_tool(&tool),
        InstallPlanResult::Task(InstallTask::PackageManager {
            exec_path: String::new(),
            arguments: strings(&["-S", "--noconfirm", "tool"]),
            sudo: true,
            tool_name: "tool".to_string(),
        })
    );
}

#[test]
fn test_plan_install_tool_with_specific_package_names() {
    let tool = tool_with(
        "tool",
        &[("default", "tool"), ("apt", "tool-debian"), ("pacman", "tool-pacman")],
    );

    let env = MockEnvironment::builder().pkg_manager(PackageManager::Pacman).build();
    assert_eq!(
        env.plan_install_tool(&tool),
        InstallPlanResult::Task(InstallTask::PackageManager {
            exec_path: String::new(),
            arguments: strings(&["-S", "--noconfirm", "tool-pacman"]),
            sudo: true,
            tool_name: "tool".to_string(),
        })
    );

    let env = MockEnvironment::builder().pkg_manager(PackageManager::APT).build();
    assert_eq!(
        env.plan_install_tool(&tool),
        InstallPlanResult::Task(InstallTask::PackageManager {
            exec_path: String::new(),
            arguments: strings(&["install", "-y", "tool-debian"]),
            sudo: true,
            tool_name: "tool".to_string(),
        })
    );

    let env = MockEnvironment::builder().pkg_manager(PackageManager::Chocolatey).build();
    assert_eq!(
        env.plan_install_tool(&tool),
        InstallPlanResult::Task(InstallTask::PackageManager {
            exec_path: String::new(),
            arguments: strings(&["install", "tool", "-y"]),
            sudo: false,
            tool_name: "tool".to_string(),
        })
    );
}

#[test]
fn test_plan_install_tool_with_aur_support() {
    let tool = tool_with("tool", &[("aur", "tool-bin")]);
    let env = MockEnvironment::builder()
        .pkg_manager(PackageManager::Pacman)
        .aur_helper(AurHelper::Paru)
        .build();
    assert_eq!(
        env.plan_install_tool(&tool),
        InstallPlanResult::Task(InstallTask::PackageManager {
            exec_path: String::new(),
            arguments: strings(&["-S", "tool-bin"]),
            sudo: false,
            tool_name: "tool".to_string(),
        })
    );

    let tool = tool_with("tool", &[("pacman", "tool-oss"), ("aur", "tool-bin")]);
    let env = MockEnvironment::builder()
        .pkg_manager(PackageManager::Pacman)
        .aur_helper(AurHelper::Paru)
        .build();
    assert_eq!(
        env.plan_install_tool(&tool),
        InstallPlanResult::Task(InstallTask::PackageManager {
            exec_path: String::new(),
            arguments: strings(&["-S", "--noconfirm", "tool-oss"]),
            sudo: true,
            tool_name: "tool".to_string(),
        })
    );
}

#[test]
fn test_from_download_with_no_download_links() {
    let tool = ToolMetadata::builder()
        .name("foo".to_string())
        .command("foo".to_string())
        .build();

    let result = InstallTask::from_downloads(&tool, Platform::Linux);
    assert_eq!(
        result,
        Err(InstallTaskError::CannotInstallTool { tool_name: "foo".to_string() })
    );
}

fn downloads_for_all() -> ToolPlatformDownloads {
    let link = |url: &str| ToolDownloadInstructions {
        format: DownloadFileFormat::Executable,
        url: url.to_string(),
    };
    ToolPlatformDownloads {
        windows: Some(link("https://foo.local/downloads/windows.exe")),
        macos: Some(link("https://foo.local/downloads/macos.dmg")),
        linux: Some(link("https://foo.local/downloads/linux")),
    }
}

#[test]
fn from_downloads_picks_the_platform_link() {
    let tool = ToolMetadata::builder()
        .name("foo".to_string())
        .command("foo".to_string())
        .downloads(downloads_for_all())
        .build();

    let cases = [
        (Platform::Windows, "https://foo.local/downloads/windows.exe"),
        (Platform::MacOs, "https://foo.local/downloads/macos.dmg"),
        (Platform::Linux, "https://foo.local/downloads/linux"),
    ];
    for (platform, url) in cases {
        assert_eq!(
            InstallTask::from_downloads(&tool, platform),
            Ok(InstallTask::Download {
                instructions: ToolDownloadInstructions {
                    format: DownloadFileFormat::Executable,
                    url: url.to_string(),
                },
                tool_name: "foo".to_string(),
            })
        );
    }
    assert_eq!(
        InstallTask::from_downloads(&tool, Platform::Other),
        Err(InstallTaskError::CannotInstallTool { tool_name: "foo".to_string() })
    );
}

#[test]
fn test_other_package_managers_with_default_field() {
    let tool = tool_with(
        "foo",
        &[
            ("default", "foo-default"),
            ("apt", "foo-debian"),
            ("homebrew", "foo-macos"),
            ("chocolatey", "foo-win"),
        ],
    );

    let cases = [
        (PackageManager::APT, "foo-debian"),
        (PackageManager::DNF, "foo-default"),
        (PackageManager::Homebrew, "foo-macos"),
        (PackageManager::Chocolatey, "foo-win"),
        (PackageManager::WinGet, "foo-default"),
    ];

    for (package_manager, expected_package) in cases {
        let result = InstallTask::from_package_manager(
            package_manager,
            "this argument is not strictly evaluated".to_string(),
            &tool,
        );
        println!(
            "Testing with {:?} package manager (expected package: {:?})",
            package_manager, expected_package
        );
        assert!(result.is_ok());
    }
}

#[test]
fn test_other_package_managers_with_no_default_field() {
    let tool = tool_with(
        "foo",
        &[
            ("apt", "foo-debian"),
            ("dnf", "foo-dnf"),
            ("homebrew", "foo-macos"),
            ("chocolatey", "foo-win"),
            ("winget", "foo-win"),
        ],
    );

    let cases = [
        (PackageManager::APT, "foo-debian"),
        (PackageManager::DNF, "foo-dnf"),
        (PackageManager::Homebrew, "foo-macos"),
        (PackageManager::Chocolatey, "foo-win"),
        (PackageManager::WinGet, "foo-win"),
    ];

    for (package_manager, expected_package) in cases {
        let result = InstallTask::from_package_manager(
            package_manager,
            "this argument is not strictly evaluated".to_string(),
            &tool,
        );
        println!(
            "Testing with {:?} package manager (expected package: {:?})",
            package_manager, expected_package
        );
        assert!(result.is_ok());
    }
}

#[test]
fn package_manager_argument_templates() {
    let tool = tool_with("foo", &[("default", "pkg")]);
    let cases = [
        (PackageManager::APT, vec!["install", "-y", "pkg"], true),
        (PackageManager::DNF, vec!["install", "-y", "pkg"], true),
        (PackageManager::Homebrew, vec!["install", "pkg"], false),
        (PackageManager::Chocolatey, vec!["install", "pkg", "-y"], false),
        (PackageManager::WinGet, vec!["install", "pkg", "--accept-package-agreements"], false),
        (PackageManager::Pacman, vec!["-S", "--noconfirm", "pkg"], true),
    ];
    for (pm, args, sudo) in cases {
        assert_eq!(
            InstallTask::from_package_manager(pm, "/bin/pm".to_string(), &tool),
            Ok(InstallTask::PackageManager {
                exec_path: "/bin/pm".to_string(),
                arguments: strings(&args),
                sudo,
                tool_name: "foo".to_string(),
            })
        );
    }
}

#[test]
fn package_not_found_without_matching_key() {
    let tool = tool_with("foo", &[("homebrew", "foo-macos")]);
    assert_eq!(
        InstallTask::from_package_manager(PackageManager::APT, "/usr/bin/apt".to_string(), &tool),
        Err(InstallTaskError::PackageNotFound {
            pkg_manager: PackageManager::APT,
            tool_name: "foo".to_string(),
        })
    );
}

#[test]
fn test_pacman() {
    let tool = tool_with("foo", &[("default", "foo")]);
    let result = InstallTask::from_package_manager(
        PackageManager::Pacman,
        "/usr/bin/pacman".to_string(),
        &tool,
    );
    assert_eq!(
        result,
        Ok(InstallTask::PackageManager {
            exec_path: "/usr/bin/pacman".to_string(),
            arguments: strings(&["-S", "--noconfirm", "foo"]),
            sudo: true,
            tool_name: "foo".to_string(),
        })
    );
}

#[test]
fn test_pacman_with_specific_pacman_package() {
    let tool = tool_with("foo", &[("default", "foo"), ("pacman", "foo-pacman")]);
    let result = InstallTask::from_package_manager(
        PackageManager::Pacman,
        "/usr/bin/pacman".to_string(),
        &tool,
    );
    assert_eq!(
        result,
        Ok(InstallTask::PackageManager {
            exec_path: "/usr/bin/pacman".to_string(),
            arguments: strings(&["-S", "--noconfirm", "foo-pacman"]),
            sudo: true,
            tool_name: "foo".to_string(),
        })
    );
}

#[test]
fn test_pacman_needs_aur_installation() {
    let tool = tool_with("foo", &[("aur", "foo-bin")]);
    let result = InstallTask::from_package_manager(
        PackageManager::Pacman,
        "/usr/bin/pacman".to_string(),
        &tool,
    );
    assert_eq!(
        result,
        Ok(InstallTask::AUR {
            package_name: "foo-bin".to_string(),
            tool_name: "foo".to_string(),
        })
    );
}

#[test]
fn test_pacman_with_no_default_pkg() {
    let tool = ToolMetadata::builder()
        .name("foo".to_string())
        .command("foo".to_string())
        .build();
    let result = InstallTask::from_package_manager(
        PackageManager::Pacman,
        "/usr/bin/pacman".to_string(),
        &tool,
    );
    assert_eq!(
        result,
        Err(InstallTaskError::PackageNotFound {
            pkg_manager: PackageManager::Pacman,
            tool_name: "foo".to_string(),
        })
    );
}

#[test]
fn pacman_package_wins_over_aur_and_default() {
    let tool = tool_with("foo", &[("default", "foo-d"), ("aur", "foo-aur"), ("pacman", "foo-p")]);
    let env = MockEnvironment::builder().pkg_manager(PackageManager::Pacman).build();
    assert_eq!(
        env.plan_install_tool(&tool),
        InstallPlanResult::Task(InstallTask::PackageManager {
            exec_path: String::new(),
            arguments: strings(&["-S", "--noconfirm", "foo-p"]),
            sudo: true,
            tool_name: "foo".to_string(),
        })
    );
}

#[test]
fn scenario_apt_plans_nmap() {
    let tool = tool_with("nmap", &[("apt", "nmap")]);
    let env = ctftools::env::LiveEnvironment::with_pkg_manager(
        PackageManager::APT,
        "/usr/bin/apt".to_string(),
        Platform::Linux,
    );
    assert_eq!(
        env.plan_install_tool(&tool),
        InstallPlanResult::Task(InstallTask::PackageManager {
            exec_path: "/usr/bin/apt".to_string(),
            arguments: strings(&["install", "-y", "nmap"]),
            sudo: true,
            tool_name: "nmap".to_string(),
        })
    );
}

#[test]
fn scenario_tool_without_packages_or_downloads() {
    let tool = tool_with("foo", &[]);
    let expected = InstallPlanResult::CannotInstall(
        &tool,
        InstallTaskError::CannotInstallTool { tool_name: "foo".to_string() },
    );
    for pm in [None, Some(PackageManager::APT), Some(PackageManager::Pacman), Some(PackageManager::WinGet)] {
        for platform in [Platform::Linux, Platform::Windows, Platform::MacOs, Platform::Other] {
            let mut builder = MockEnvironment::builder().platform(platform);
            if let Some(pm) = pm {
                builder = builder.pkg_manager(pm);
            }
            let env = builder.aur_helper(AurHelper::Yay).build();
            assert_eq!(env.plan_install_tool(&tool), expected);
        }
    }
}

#[test]
fn scenario_aur_only_without_helper_then_next_tool() {
    let bar = tool_with("bar", &[("aur", "bar-bin")]);
    let baz = tool_with("baz", &[("pacman", "baz")]);
    let planner_env = MockEnvironment::builder().pkg_manager(PackageManager::Pacman).build();
    let tools = vec![bar.clone(), baz.clone()];
    let results = planner_env.plan_install_tools(&tools);
    assert_eq!(results.len(), 2);
    assert_eq!(
        results[0],
        InstallPlanResult::CannotInstall(
            &bar,
            InstallTaskError::AurPackageNotFound {
                pkg_manager: PackageManager::Pacman,
                tool_name: "bar".to_string(),
            },
        )
    );
    assert_eq!(
        results[1],
        InstallPlanResult::Task(InstallTask::PackageManager {
            exec_path: String::new(),
            arguments: strings(&["-S", "--noconfirm", "baz"]),
            sudo: true,
            tool_name: "baz".to_string(),
        })
    );
}

#[test]
fn missing_package_falls_back_to_download() {
    let tool = ToolMetadata::builder()
        .name("dl".to_string())
        .command("dl".to_string())
        .downloads(downloads_for_all())
        .build();
    let env = MockEnvironment::builder()
        .pkg_manager(PackageManager::APT)
        .platform(Platform::MacOs)
        .build();
    assert_eq!(
        env.plan_install_tool(&tool),
        InstallPlanResult::Task(InstallTask::Download {
            instructions: ToolDownloadInstructions {
                format: DownloadFileFormat::Executable,
                url: "https://foo.local/downloads/macos.dmg".to_string(),
            },
            tool_name: "dl".to_string(),
        })
    );
}

#[test]
fn test_install_with_mock_installer() {
    let tool1 = ToolMetadata::builder()
        .name("Download Tool".to_string())
        .command("dl-tool".to_string())
        .downloads(ToolPlatformDownloads {
            windows: Some(ToolDownloadInstructions {
                format: DownloadFileFormat::Executable,
                url: "http://example.com/win".to_string(),
            }),
            macos: Some(ToolDownloadInstructions {
                format: DownloadFileFormat::Executable,
                url: "http://example.com/mac".to_string(),
            }),
            linux: Some(ToolDownloadInstructions {
                format: DownloadFileFormat::Executable,
                url: "http://example.com/linux".to_string(),
            }),
        })
        .build();

    let planner = InstallPlanner::without_package_managers(Platform::Linux);
    assert!(!planner.has_package_manager());
    let tasks: Vec<InstallTask> = planner
        .plan_installs(&[&tool1])
        .into_iter()
        .filter_map(|outcome| match outcome {
            InstallPlanResult::Task(task) => Some(task),
            InstallPlanResult::CannotInstall(..) => None,
        })
        .collect();

    assert_eq!(tasks.len(), 1);
    assert!(matches!(tasks[0], InstallTask::Download { .. }));
}

#[test]
fn from_aur_builds_helper_task() {
    let task = InstallTask::from_aur(
        AurHelper::Yay,
        "/usr/bin/yay".to_string(),
        "pkg-bin".to_string(),
        "pkg".to_string(),
    );
    assert_eq!(
        task,
        InstallTask::PackageManager {
            exec_path: "/usr/bin/yay".to_string(),
            arguments: strings(&["-S", "pkg-bin"]),
            sudo: false,
            tool_name: "pkg".to_string(),
        }
    );
    assert_eq!(task.tool_name(), "pkg");
}

#[test]
fn package_manager_names_and_keys() {
    assert_eq!(PackageManager::WinGet.as_display_name(), "WinGet");
    assert_eq!(PackageManager::Homebrew.as_registry_key(), "homebrew");
    assert!(PackageManager::DNF.needs_privilege());
    assert!(!PackageManager::Chocolatey.requires_elevation());
    assert!(!AurHelper::Paru.needs_privilege());
    assert!(!AurHelper::Yay.requires_elevation());
}

#[test]
fn partition_keeps_order_and_failures() {
    let a = tool_with("a", &[("apt", "a")]);
    let b = tool_with("b", &[]);
    let c = tool_with("c", &[("default", "c")]);
    let env = MockEnvironment::builder().pkg_manager(PackageManager::APT).build();
    let tools = vec![a, b, c];
    let (tasks, failures) = partition_plans(env.plan_install_tools(&tools));
    let names: Vec<&str> = tasks.iter().map(|t| t.tool_name().as_str()).collect();
    assert_eq!(names, vec!["a", "c"]);
    assert_eq!(failures.len(), 1);
    assert_eq!(failures[0].0.name, "b");
    assert_eq!(failures[0].1, InstallTaskError::CannotInstallTool { tool_name: "b".to_string() });
}
