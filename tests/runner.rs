use ctftools::host::Platform;
use ctftools::install::{InstallProgress, InstallTask};
use ctftools::process::{
    check_privilege, downloaded_file_name, InstallBatch, finish_package_manager_run, open_executable_command,
    prepare_package_manager_run, run_result, shell_escape, ChildExit, LockedNotification, ProcessBuilder,
    RunError, RunOutcome, SignalLock, Status, INTERRUPT_WINDOW_MS,
};
use ctftools::registry::DownloadFileFormat;
use std::time::Duration;

#[test]
fn test_display_fmt() {
    let builder = ProcessBuilder::new("/usr/bin/sudo".to_string());
    assert_eq!(builder.display_string(Platform::Linux), "/usr/bin/sudo");

    let mut builder = ProcessBuilder::new("/usr/bin/sudo".to_string());
    builder.arg("-a");
    assert_eq!(builder.display_string(Platform::Linux), "/usr/bin/sudo -a");

    let mut builder = ProcessBuilder::new("/usr/bin/sudo".to_string());
    builder.arg("-a");
    builder.arg("-b");
    assert_eq!(builder.display_string(Platform::Linux), "/usr/bin/sudo -a -b");

    let mut builder = ProcessBuilder::new("/usr/bin/pacman".to_string());
    builder.wrap(Some("/usr/bin/sudo"));
    builder.arg("--hello");
    assert_eq!(
        builder.display_string(Platform::Linux),
        "/usr/bin/sudo /usr/bin/pacman --hello"
    );
}

#[test]
fn command_line_and_escaping() {
    let mut builder = ProcessBuilder::new("prog".to_string());
    builder.args(&["a b".to_string(), "it's".to_string()]);
    builder.wrap(Some(""));
    builder.wrap(None);
    builder.wrap(Some("sudo"));
    assert_eq!(builder.get_program(), "sudo");
    assert_eq!(builder.get_args(), vec!["prog", "a b", "it's"]);
    assert_eq!(builder.command_line(), vec!["sudo", "prog", "a b", "it's"]);
    assert_eq!(builder.display_string(Platform::Linux), "sudo prog 'a b' 'it'\\''s'");
    assert_eq!(shell_escape(Platform::Windows, "a b"), "\"a b\"");
    assert_eq!(shell_escape(Platform::Linux, ""), "''");
    assert_eq!(shell_escape(Platform::Linux, "a!b"), "'a'\\!'b'");
    assert_eq!(shell_escape(Platform::Linux, "--x=1,2"), "--x=1,2");
}

#[test]
fn double_interrupt_within_window_stops_child() {
    let mut lock = SignalLock::new();
    assert_eq!(lock.on_signal(1_000), LockedNotification::FirstWarning);
    assert_eq!(lock.on_signal(1_000 + INTERRUPT_WINDOW_MS - 1), LockedNotification::Interrupted);
    assert_eq!(run_result(ChildExit::Interrupted), Ok(RunOutcome::Interrupted));
}

#[test]
fn interrupt_after_window_warns_again() {
    let mut lock = SignalLock::new();
    assert_eq!(lock.on_signal(0), LockedNotification::FirstWarning);
    assert_eq!(lock.on_signal(INTERRUPT_WINDOW_MS), LockedNotification::FirstWarning);
    assert_eq!(lock.on_signal(INTERRUPT_WINDOW_MS + 10), LockedNotification::Interrupted);
}

#[test]
fn exit_status_classification() {
    assert_eq!(run_result(ChildExit::Exited { code: Some(0) }), Ok(RunOutcome::Succeeded));
    assert_eq!(
        run_result(ChildExit::Exited { code: Some(3) }),
        Err(RunError::ProcessFailed { code: Some(3) })
    );
    assert_eq!(
        run_result(ChildExit::Exited { code: None }),
        Err(RunError::ProcessFailed { code: None })
    );
    assert_eq!(Status(0).success(), Ok(0));
    assert_eq!(Status(2).success(), Err(Status(2)));
    assert_eq!(Status(2).code(), 2);
}

#[test]
fn privilege_is_checked_before_spawning() {
    assert_eq!(check_privilege(false, false, false, Platform::Linux), Ok(()));
    assert_eq!(check_privilege(true, true, false, Platform::Linux), Ok(()));
    assert_eq!(check_privilege(true, false, true, Platform::Linux), Ok(()));
    assert_eq!(
        check_privilege(true, false, false, Platform::MacOs),
        Err(RunError::PrivilegeRequired { platform: Platform::MacOs })
    );

    let task = InstallTask::PackageManager {
        exec_path: "/usr/bin/apt".to_string(),
        arguments: vec!["install".to_string(), "-y".to_string(), "nmap".to_string()],
        sudo: true,
        tool_name: "nmap".to_string(),
    };
    assert!(matches!(
        prepare_package_manager_run(&task, false, false, Platform::Linux),
        Err(RunError::PrivilegeRequired { platform: Platform::Linux })
    ));

    let run = prepare_package_manager_run(&task, false, true, Platform::Linux).unwrap();
    assert_eq!(run.builder.command_line(), vec!["sudo", "/usr/bin/apt", "install", "-y", "nmap"]);
    assert!(matches!(
        run.command,
        InstallProgress::Command { ref text, ref tool_name }
            if text == "sudo /usr/bin/apt install -y nmap" && tool_name == "nmap"
    ));

    let run = prepare_package_manager_run(&task, true, false, Platform::Windows).unwrap();
    assert_eq!(run.builder.get_program(), "/usr/bin/apt");
}

#[test]
fn finishing_a_run() {
    let done = finish_package_manager_run("nmap".to_string(), ChildExit::Exited { code: Some(0) }, Duration::from_secs(1));
    assert!(matches!(done, Ok(Some(InstallProgress::Success { ref tool_name, .. })) if tool_name == "nmap"));
    let stopped = finish_package_manager_run("nmap".to_string(), ChildExit::Interrupted, Duration::from_secs(1));
    assert!(matches!(stopped, Ok(None)));
    let failed = finish_package_manager_run("nmap".to_string(), ChildExit::Exited { code: Some(100) }, Duration::from_secs(1));
    assert_eq!(failed.unwrap_err(), RunError::ProcessFailed { code: Some(100) });
}

#[test]
fn download_helpers() {
    assert_eq!(downloaded_file_name(DownloadFileFormat::Executable, Platform::Windows), "downloaded.exe");
    assert_eq!(downloaded_file_name(DownloadFileFormat::Executable, Platform::Linux), "downloaded.zip");
    assert_eq!(downloaded_file_name(DownloadFileFormat::ZIP, Platform::Windows), "downloaded.zip");
    let cmd = open_executable_command("/tmp/x.exe".to_string(), Platform::Windows);
    assert_eq!(cmd.command_line(), vec!["start", "/tmp/x.exe"]);
    let cmd = open_executable_command("/tmp/x".to_string(), Platform::Linux);
    assert_eq!(cmd.command_line(), vec!["/tmp/x"]);
}

#[test]
fn batch_stops_after_first_failure() {
    let task = |name: &str| InstallTask::AUR { package_name: name.to_string(), tool_name: name.to_string() };
    let mut batch = InstallBatch::new(vec![task("a"), task("b"), task("c")]);
    assert_eq!(batch.next_task().map(|t| t.tool_name().clone()), Some("a".to_string()));
    batch.record(false);
    assert_eq!(batch.next_task().map(|t| t.tool_name().clone()), Some("b".to_string()));
    batch.record(true);
    assert!(batch.next_task().is_none());
    assert!(!batch.succeeded());
    assert_eq!(batch.skipped(), vec!["c".to_string()]);
}
