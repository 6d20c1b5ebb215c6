//! Install planning: how each tool of a catalog is installed, decided
//! without touching the machine.

use vstd::prelude::*;

use crate::host::Platform;
use crate::pkg::{spec_needs_privilege, spec_registry_key, spec_supported_on, AurHelper, PackageManager};
use crate::registry::{ToolDownloadInstructions, ToolMetadata, ToolPlatformDownloads};

verus! {

/// An action that installs a tool. Its `tool_name` is the tool's command,
/// which identifies the tool within a catalog.
#[derive(Debug, Clone, PartialEq, Eq)]
pub enum InstallTask {
    /// Run a package manager (or AUR helper) executable.
    PackageManager {
        /// Path to the executable (e.g. `/usr/bin/apt`).
        exec_path: String,
        /// Arguments passed to it.
        arguments: Vec<String>,
        /// Whether the invocation needs elevated privileges.
        sudo: bool,
        /// The command of the tool being installed.
        tool_name: String,
    },
    /// Download an installer and open it.
    Download { instructions: ToolDownloadInstructions, tool_name: String },
    /// Install a package of the Arch User Repository. This is an
    /// intermediate result of [`InstallTask::from_package_manager`]: it is
    /// rewritten with [`InstallTask::from_aur`] once an AUR helper is known,
    /// and never executed as it stands.
    AUR { package_name: String, tool_name: String },
}

/// Why no install task could be made for a tool (named by its command).
#[derive(Debug, Clone, PartialEq, Eq)]
pub enum InstallTaskError {
    /// Neither a package nor a download for this platform is known.
    CannotInstallTool { tool_name: String },
    /// The package is only in the AUR and no AUR helper is installed: it
    /// must be installed by hand.
    AurPackageNotFound { pkg_manager: PackageManager, tool_name: String },
    /// The catalog names no package for the package manager.
    PackageNotFound { pkg_manager: PackageManager, tool_name: String },
}

/// The result of planning the installation of one tool.
#[derive(Debug, PartialEq, Eq)]
pub enum InstallPlanResult<'a> {
    /// The task that installs the tool.
    Task(InstallTask),
    /// The tool cannot be installed automatically, and why.
    CannotInstall(&'a ToolMetadata, InstallTaskError),
}

/// The outcome of planning one tool, as the planner names it.
pub type PlanningOutcome<'a> = InstallPlanResult<'a>;

/// The arguments that install `package` with `pm`.
pub open spec fn spec_install_args(pm: PackageManager, package: Seq<char>) -> Seq<Seq<char>> {
    match pm {
        PackageManager::APT | PackageManager::DNF => seq!["install"@, "-y"@, package],
        PackageManager::Homebrew => seq!["install"@, package],
        PackageManager::Chocolatey => seq!["install"@, package, "-y"@],
        PackageManager::WinGet => seq!["install"@, package, "--accept-package-agreements"@],
        PackageManager::Pacman => seq!["-S"@, "--noconfirm"@, package],
    }
}

/// The arguments that install `package` with an AUR helper.
pub open spec fn spec_aur_args(package: Seq<char>) -> Seq<Seq<char>> {
    seq!["-S"@, package]
}

/// The package chosen for `pm` among `packages`, and whether it comes from
/// the AUR. Pacman prefers its own key, then `"aur"`, then `"default"`;
/// the others prefer their own key, then `"default"`.
pub open spec fn spec_package_choice(
    pm: PackageManager,
    packages: Map<Seq<char>, Seq<char>>,
) -> Option<(Seq<char>, bool)> {
    if pm == PackageManager::Pacman {
        if packages.contains_key("pacman"@) {
            Some((packages["pacman"@], false))
        } else if packages.contains_key("aur"@) {
            Some((packages["aur"@], true))
        } else if packages.contains_key("default"@) {
            Some((packages["default"@], false))
        } else {
            None
        }
    } else if packages.contains_key(spec_registry_key(pm)) {
        Some((packages[spec_registry_key(pm)], false))
    } else if packages.contains_key("default"@) {
        Some((packages["default"@], false))
    } else {
        None
    }
}

/// `task` runs the executable at `path` with `args`, needing privileges iff `sudo`, for the
/// tool named `tool_name`.
pub open spec fn spec_is_command_task(
    task: InstallTask,
    path: Seq<char>,
    args: Seq<Seq<char>>,
    sudo: bool,
    tool_name: Seq<char>,
) -> bool {
    match task {
        InstallTask::PackageManager { exec_path: e, arguments, sudo: s, tool_name: n } => {
            &&& e@ == path
            &&& arguments.deep_view() == args
            &&& s == sudo
            &&& n@ == tool_name
        },
        _ => false,
    }
}

/// What [`InstallTask::from_package_manager`] gives for `pm` at `path`.
pub open spec fn spec_from_package_manager(
    pm: PackageManager,
    path: Seq<char>,
    tool: ToolMetadata,
    r: Result<InstallTask, InstallTaskError>,
) -> bool {
    match spec_package_choice(pm, tool.packages@) {
        None => r == Err::<InstallTask, InstallTaskError>(
            InstallTaskError::PackageNotFound { pkg_manager: pm, tool_name: tool.command },
        ),
        Some((package, true)) => match r {
            Ok(InstallTask::AUR { package_name, tool_name }) => package_name@ == package && tool_name == tool.command,
            _ => false,
        },
        Some((package, false)) => match r {
            Ok(task) => spec_is_command_task(task, path, spec_install_args(pm, package), spec_needs_privilege(pm), tool.command@),
            _ => false,
        },
    }
}

/// The download instructions of `downloads` for `platform`.
pub open spec fn spec_platform_download(
    downloads: ToolPlatformDownloads,
    platform: Platform,
) -> Option<ToolDownloadInstructions> {
    match platform {
        Platform::Windows => downloads.windows,
        Platform::MacOs => downloads.macos,
        Platform::Linux => downloads.linux,
        Platform::Other => None,
    }
}

/// The plan for `tool` when no package manager provides it.
pub open spec fn spec_download_plan<'a>(platform: Platform, tool: &'a ToolMetadata, r: InstallPlanResult<'a>) -> bool {
    match spec_platform_download(tool.downloads, platform) {
        Some(instructions) => r == InstallPlanResult::Task(InstallTask::Download { instructions, tool_name: tool.command }),
        None => r == InstallPlanResult::CannotInstall(tool, InstallTaskError::CannotInstallTool { tool_name: tool.command }),
    }
}

/// The plan for `tool` on a host with package manager `pm` and AUR helper
/// `aur` (each with the path of its executable) running on `platform`.
pub open spec fn spec_plan<'a>(
    pm: Option<(PackageManager, Seq<char>)>,
    aur: Option<(AurHelper, Seq<char>)>,
    platform: Platform,
    tool: &'a ToolMetadata,
    r: InstallPlanResult<'a>,
) -> bool {
    match pm {
        Some((m, path)) => match spec_package_choice(m, tool.packages@) {
            Some((package, false)) => match r {
                InstallPlanResult::Task(task) => spec_is_command_task(
                    task,
                    path,
                    spec_install_args(m, package),
                    spec_needs_privilege(m),
                    tool.command@,
                ),
                _ => false,
            },
            Some((package, true)) => match aur {
                Some((_, helper_path)) => match r {
                    InstallPlanResult::Task(task) => spec_is_command_task(
                        task,
                        helper_path,
                        spec_aur_args(package),
                        false,
                        tool.command@,
                    ),
                    _ => false,
                },
                None => r == InstallPlanResult::CannotInstall(
                    tool,
                    InstallTaskError::AurPackageNotFound { pkg_manager: m, tool_name: tool.command },
                ),
            },
            None => spec_download_plan(platform, tool, r),
        },
        None => spec_download_plan(platform, tool, r),
    }
}

/// A progress notification of a running installation.
#[derive(Debug)]
pub enum InstallProgress {
    /// A command that installs `tool_name` is about to run.
    Command { text: String, tool_name: String },
    /// A first interrupt signal arrived; a second one interrupts.
    InterruptFirstWarning,
    /// The installation was interrupted on the user's request.
    Interrupted,
    /// `tool_name` was installed, which took `elapsed`.
    Success { elapsed: std::time::Duration, tool_name: String },
}

/// The spec view of a detected executable: its kind and path.
pub open spec fn spec_found<T>(found: Option<(T, String)>) -> Option<(T, Seq<char>)> {
    match found {
        Some((kind, path)) => Some((kind, path@)),
        None => None,
    }
}

impl InstallTask {
    /// The name of the tool to be installed.
    pub open spec fn spec_tool_name(&self) -> String {
        match self {
            InstallTask::PackageManager { tool_name, .. } => *tool_name,
            InstallTask::Download { tool_name, .. } => *tool_name,
            InstallTask::AUR { tool_name, .. } => *tool_name,
        }
    }

    /// The tool to be installed.
    pub fn tool_name(&self) -> (r: &String)
        ensures
            *r == self.spec_tool_name(),
    {
        match self {
            Self::AUR { tool_name, .. } => tool_name,
            Self::Download { tool_name, .. } => tool_name,
            Self::PackageManager { tool_name, .. } => tool_name,
        }
    }

    /// The task that installs the AUR package `package_name` with the AUR
    /// helper at `path_to_aur_helper`.
    pub fn from_aur(
        aur_helper: AurHelper,
        path_to_aur_helper: String,
        package_name: String,
        tool_name: String,
    ) -> (r: Self)
        ensures
            r == (InstallTask::PackageManager {
                exec_path: path_to_aur_helper,
                arguments: r->arguments,
                sudo: false,
                tool_name,
            }),
            r->arguments.deep_view() == spec_aur_args(package_name@),
    {
        let mut arguments: Vec<String> = Vec::new();
        arguments.push("-S".to_string());
        arguments.push(package_name);
        proof {
            assert(arguments.deep_view() =~= spec_aur_args(arguments@[1]@));
        }
        InstallTask::PackageManager {
            exec_path: path_to_aur_helper,
            arguments,
            sudo: aur_helper.needs_privilege(),
            tool_name,
        }
    }

    /// The task that downloads `tool` for `platform`, or `CannotInstallTool`
    /// when the catalog has no download for that platform.
    pub fn from_downloads(tool: &ToolMetadata, platform: Platform) -> (r: Result<Self, InstallTaskError>)
        ensures
            r == match spec_platform_download(tool.downloads, platform) {
                Some(instructions) => Ok::<InstallTask, InstallTaskError>(
                    InstallTask::Download { instructions, tool_name: tool.command },
                ),
                None => Err(InstallTaskError::CannotInstallTool { tool_name: tool.command }),
            },
    {
        let instructions = match platform {
            Platform::Windows => &tool.downloads.windows,
            Platform::MacOs => &tool.downloads.macos,
            Platform::Linux => &tool.downloads.linux,
            Platform::Other => &None,
        };
        match instructions {
            Some(inner) => Ok(InstallTask::Download {
                instructions: ToolDownloadInstructions { format: inner.format, url: inner.url.clone() },
                tool_name: tool.command.clone(),
            }),
            None => Err(InstallTaskError::CannotInstallTool { tool_name: tool.command.clone() }),
        }
    }

    /// The task that installs `tool` with `pkg_manager` at
    /// `path_to_pkg_manager`. Pacman prefers a pacman package, then an AUR
    /// package (giving an [`InstallTask::AUR`] task), then the default
    /// package; the others prefer their own package, then the default one.
    /// Without any, the error is `PackageNotFound`.
    pub fn from_package_manager(
        pkg_manager: PackageManager,
        path_to_pkg_manager: String,
        tool: &ToolMetadata,
    ) -> (r: Result<Self, InstallTaskError>)
        ensures
            spec_from_package_manager(pkg_manager, path_to_pkg_manager@, *tool, r),
            r matches Ok(InstallTask::PackageManager { exec_path, .. }) ==> exec_path == path_to_pkg_manager,
    {
        if pkg_manager == PackageManager::Pacman {
            let mut pkg_name = tool.packages.get("pacman");
            let mut use_aur = false;
            if pkg_name.is_none() {
                pkg_name = tool.packages.get("aur");
                use_aur = pkg_name.is_some();
            }
            if pkg_name.is_none() {
                pkg_name = tool.packages.get("default");
                use_aur = false;
            }
            let arch_package = match pkg_name {
                Some(name) => name,
                None => {
                    return Err(InstallTaskError::PackageNotFound {
                        pkg_manager,
                        tool_name: tool.command.clone(),
                    });
                },
            };
            if use_aur {
                return Ok(InstallTask::AUR {
                    package_name: arch_package.clone(),
                    tool_name: tool.command.clone(),
                });
            }
            let mut arguments: Vec<String> = Vec::new();
            arguments.push("-S".to_string());
            arguments.push("--noconfirm".to_string());
            arguments.push(arch_package.clone());
            proof {
                assert(arguments.deep_view() =~= spec_install_args(pkg_manager, arch_package@));
            }
            return Ok(InstallTask::PackageManager {
                exec_path: path_to_pkg_manager,
                arguments,
                sudo: pkg_manager.needs_privilege(),
                tool_name: tool.command.clone(),
            });
        }
        let package_name = match tool.packages.get(pkg_manager.as_registry_key()) {
            Some(name) => name,
            None => match tool.packages.get("default") {
                Some(name) => name,
                None => {
                    return Err(InstallTaskError::PackageNotFound {
                        pkg_manager,
                        tool_name: tool.command.clone(),
                    });
                },
            },
        };
        let mut arguments: Vec<String> = Vec::new();
        match pkg_manager {
            PackageManager::APT | PackageManager::DNF => {
                arguments.push("install".to_string());
                arguments.push("-y".to_string());
                arguments.push(package_name.clone());
            },
            PackageManager::Homebrew => {
                arguments.push("install".to_string());
                arguments.push(package_name.clone());
            },
            PackageManager::Chocolatey => {
                arguments.push("install".to_string());
                arguments.push(package_name.clone());
                arguments.push("-y".to_string());
            },
            PackageManager::WinGet => {
                arguments.push("install".to_string());
                arguments.push(package_name.clone());
                arguments.push("--accept-package-agreements".to_string());
            },
            PackageManager::Pacman => {
                arguments.push("-S".to_string());
                arguments.push("--noconfirm".to_string());
                arguments.push(package_name.clone());
            },
        }
        proof {
            assert(arguments.deep_view() =~= spec_install_args(pkg_manager, package_name@));
        }
        Ok(InstallTask::PackageManager {
            exec_path: path_to_pkg_manager,
            arguments,
            sudo: pkg_manager.needs_privilege(),
            tool_name: tool.command.clone(),
        })
    }
}

/// Plans the installation of `tool` on a host with package manager
/// `pkg_manager` and AUR helper `aur_helper` (each with the path of its
/// executable) running on `platform`.
///
/// A package of the package manager wins; an AUR package is installed with
/// the AUR helper, or reported as `AurPackageNotFound` (to be installed by
/// hand) when there is none; a tool without a package falls back to a
/// download for `platform`, or is reported as `CannotInstallTool`.
pub fn plan_install<'a>(
    pkg_manager: &Option<(PackageManager, String)>,
    aur_helper: &Option<(AurHelper, String)>,
    platform: Platform,
    tool: &'a ToolMetadata,
) -> (r: InstallPlanResult<'a>)
    ensures
        spec_plan(spec_found(*pkg_manager), spec_found(*aur_helper), platform, tool, r),
        r matches InstallPlanResult::Task(task) ==> !(task is AUR) && task.spec_tool_name()@ == tool.command@,
{
    if let Some((pm, path_to_pkgm)) = pkg_manager {
        match InstallTask::from_package_manager(*pm, path_to_pkgm.clone(), tool) {
            Ok(task) => {
                if let InstallTask::AUR { package_name, tool_name } = task {
                    return match aur_helper {
                        Some((helper, path_to_helper)) => InstallPlanResult::Task(
                            InstallTask::from_aur(*helper, path_to_helper.clone(), package_name, tool_name),
                        ),
                        None => InstallPlanResult::CannotInstall(
                            tool,
                            InstallTaskError::AurPackageNotFound { pkg_manager: *pm, tool_name },
                        ),
                    };
                }
                return InstallPlanResult::Task(task);
            },
            Err(InstallTaskError::PackageNotFound { .. }) => {},
            Err(e) => {
                return InstallPlanResult::CannotInstall(tool, e);
            },
        }
    }
    match InstallTask::from_downloads(tool, platform) {
        Ok(task) => InstallPlanResult::Task(task),
        Err(e) => InstallPlanResult::CannotInstall(tool, e),
    }
}

/// Plans every tool of `tools`, in order: one result per tool.
pub fn plan_install_all<'a>(
    pkg_manager: &Option<(PackageManager, String)>,
    aur_helper: &Option<(AurHelper, String)>,
    platform: Platform,
    tools: &[&'a ToolMetadata],
) -> (r: Vec<InstallPlanResult<'a>>)
    ensures
        r@.len() == tools@.len(),
        forall|i: int|
            0 <= i < r@.len() ==> spec_plan(
                spec_found(*pkg_manager),
                spec_found(*aur_helper),
                platform,
                tools@[i],
                #[trigger] r@[i],
            ),
{
    let mut outcomes: Vec<InstallPlanResult<'a>> = Vec::new();
    let mut i: usize = 0;
    while i < tools.len()
        invariant
            i <= tools@.len(),
            outcomes@.len() == i,
            forall|j: int|
                0 <= j < i ==> spec_plan(
                    spec_found(*pkg_manager),
                    spec_found(*aur_helper),
                    platform,
                    tools@[j],
                    #[trigger] outcomes@[j],
                ),
        decreases tools@.len() - i,
    {
        let outcome = plan_install(pkg_manager, aur_helper, platform, tools[i]);
        outcomes.push(outcome);
        i = i + 1;
    }
    outcomes
}

/// The tasks of `plans`, in order.
pub open spec fn spec_tasks_of<'a>(plans: Seq<InstallPlanResult<'a>>) -> Seq<InstallTask>
    decreases plans.len(),
{
    if plans.len() == 0 {
        Seq::empty()
    } else {
        let rest = spec_tasks_of(plans.drop_last());
        match plans.last() {
            InstallPlanResult::Task(task) => rest.push(task),
            InstallPlanResult::CannotInstall(..) => rest,
        }
    }
}

/// The tools that `plans` cannot install, with the reasons, in order.
pub open spec fn spec_failures_of<'a>(plans: Seq<InstallPlanResult<'a>>) -> Seq<(&'a ToolMetadata, InstallTaskError)>
    decreases plans.len(),
{
    if plans.len() == 0 {
        Seq::empty()
    } else {
        let rest = spec_failures_of(plans.drop_last());
        match plans.last() {
            InstallPlanResult::Task(_) => rest,
            InstallPlanResult::CannotInstall(tool, error) => rest.push((tool, error)),
        }
    }
}

/// Splits plans into the tasks to run and the tools that cannot be
/// installed (each with its reason), both in order: a tool that cannot be
/// installed does not stop the others.
pub fn partition_plans<'a>(plans: Vec<InstallPlanResult<'a>>) -> (r: (
    Vec<InstallTask>,
    Vec<(&'a ToolMetadata, InstallTaskError)>,
))
    ensures
        r.0@ == spec_tasks_of(plans@),
        r.1@ == spec_failures_of(plans@),
{
    let ghost all = plans@;
    let mut rest = plans;
    let mut tasks: Vec<InstallTask> = Vec::new();
    let mut failures: Vec<(&'a ToolMetadata, InstallTaskError)> = Vec::new();
    let ghost mut k: int = 0;
    while rest.len() > 0
        invariant
            0 <= k,
            k + rest@.len() == all.len(),
            rest@ == all.subrange(k, all.len() as int),
            tasks@ == spec_tasks_of(all.take(k)),
            failures@ == spec_failures_of(all.take(k)),
        decreases rest@.len(),
    {
        let plan = rest.remove(0);
        proof {
            assert(all.take(k + 1).drop_last() =~= all.take(k));
            assert(all.take(k + 1).last() == plan);
            assert(rest@ =~= all.subrange(k + 1, all.len() as int));
        }
        match plan {
            InstallPlanResult::Task(task) => tasks.push(task),
            InstallPlanResult::CannotInstall(tool, error) => failures.push((tool, error)),
        }
        proof {
            k = k + 1;
        }
    }
    proof {
        assert(all.take(k) =~= all);
    }
    (tasks, failures)
}

/// Creates install plans for a list of tools: decides how each should be
/// installed, without executing anything.
pub struct InstallPlanner {
    pkg_manager: Option<(PackageManager, String)>,
    aur_helper: Option<(AurHelper, String)>,
    platform: Platform,
}

impl InstallPlanner {
    /// The detected package manager, with the path of its executable.
    pub closed spec fn spec_pkg_manager(&self) -> Option<(PackageManager, Seq<char>)> {
        spec_found(self.pkg_manager)
    }

    /// The detected AUR helper, with the path of its executable.
    pub closed spec fn spec_aur_helper(&self) -> Option<(AurHelper, Seq<char>)> {
        spec_found(self.aur_helper)
    }

    /// The platform that plans are made for.
    pub closed spec fn spec_platform(&self) -> Platform {
        self.platform
    }

    /// A planner for `platform` that uses the package manager and AUR
    /// helper found on the process search path.
    pub fn new(platform: Platform) -> (r: Result<Self, crate::host::HostError>)
        ensures
            r matches Ok(p) ==> p.spec_platform() == platform,
            r matches Ok(p) ==> (p.spec_pkg_manager() matches Some((pm, _)) ==> spec_supported_on(pm, platform)),
            platform == Platform::Other ==> (r matches Ok(p) ==> p.spec_pkg_manager() is None),
    {
        let pkg_manager = match PackageManager::detect(platform) {
            Ok(found) => found,
            Err(e) => {
                return Err(e);
            },
        };
        let aur_helper = match AurHelper::detect() {
            Ok(found) => found,
            Err(e) => {
                return Err(e);
            },
        };
        Ok(InstallPlanner { pkg_manager, aur_helper, platform })
    }

    /// A planner for `platform` without any package manager: useful for
    /// dry runs, where nothing is detected.
    pub fn without_package_managers(platform: Platform) -> (r: Self)
        ensures
            r.spec_pkg_manager() is None,
            r.spec_aur_helper() is None,
            r.spec_platform() == platform,
    {
        InstallPlanner { pkg_manager: None, aur_helper: None, platform }
    }

    /// Whether a package manager was found.
    pub fn has_package_manager(&self) -> (r: bool)
        ensures
            r == self.spec_pkg_manager() is Some,
    {
        self.pkg_manager.is_some()
    }

    /// Plans each of `tools_to_install`, in order.
    pub fn plan_installs<'a>(&self, tools_to_install: &[&'a ToolMetadata]) -> (r: Vec<PlanningOutcome<'a>>)
        ensures
            r@.len() == tools_to_install@.len(),
            forall|i: int|
                0 <= i < r@.len() ==> spec_plan(
                    self.spec_pkg_manager(),
                    self.spec_aur_helper(),
                    self.spec_platform(),
                    tools_to_install@[i],
                    #[trigger] r@[i],
                ),
    {
        plan_install_all(&self.pkg_manager, &self.aur_helper, self.platform, tools_to_install)
    }

    /// Plans one tool.
    pub fn plan_for_tool<'a>(&self, tool: &'a ToolMetadata) -> (r: PlanningOutcome<'a>)
        ensures
            spec_plan(self.spec_pkg_manager(), self.spec_aur_helper(), self.spec_platform(), tool, r),
    {
        plan_install(&self.pkg_manager, &self.aur_helper, self.platform, tool)
    }
}

/// With Pacman detected, a tool that names a pacman package is installed
/// with Pacman from that package, whatever its AUR or default packages.
pub proof fn lemma_pacman_package_wins<'a>(
    path: Seq<char>,
    aur: Option<(AurHelper, Seq<char>)>,
    platform: Platform,
    tool: &'a ToolMetadata,
    r: InstallPlanResult<'a>,
)
    requires
        tool.packages@.contains_key("pacman"@),
        spec_plan(Some((PackageManager::Pacman, path)), aur, platform, tool, r),
    ensures
        r matches InstallPlanResult::Task(task) && spec_is_command_task(
            task,
            path,
            seq!["-S"@, "--noconfirm"@, tool.packages@["pacman"@]],
            true,
            tool.command@,
        ),
{
}

/// With Pacman detected and no AUR helper, a tool whose only package is an
/// AUR package is reported as needing a manual AUR install.
pub proof fn lemma_aur_without_helper_is_manual<'a>(
    path: Seq<char>,
    platform: Platform,
    tool: &'a ToolMetadata,
    r: InstallPlanResult<'a>,
)
    requires
        tool.packages@.contains_key("aur"@),
        !tool.packages@.contains_key("pacman"@),
        !tool.packages@.contains_key("default"@),
        spec_plan(Some((PackageManager::Pacman, path)), None, platform, tool, r),
    ensures
        r == InstallPlanResult::CannotInstall(
            tool,
            InstallTaskError::AurPackageNotFound { pkg_manager: PackageManager::Pacman, tool_name: tool.command },
        ),
{
}

/// A tool without packages and without a download for the platform cannot
/// be installed, whatever the host has detected.
pub proof fn lemma_nothing_to_install<'a>(
    pm: Option<(PackageManager, Seq<char>)>,
    aur: Option<(AurHelper, Seq<char>)>,
    platform: Platform,
    tool: &'a ToolMetadata,
    r: InstallPlanResult<'a>,
)
    requires
        tool.packages@ == Map::<Seq<char>, Seq<char>>::empty(),
        spec_platform_download(tool.downloads, platform) is None,
        spec_plan(pm, aur, platform, tool, r),
    ensures
        r == InstallPlanResult::CannotInstall(tool, InstallTaskError::CannotInstallTool { tool_name: tool.command }),
{
}

} // verus!
