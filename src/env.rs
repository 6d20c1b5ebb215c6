//! Host environments: the real machine and a simulation for tests.

use vstd::prelude::*;

use crate::host::{path_exists, running_in_elevation, supports_privilege_escalation, which_opt, HostError, Platform};
use crate::install::{plan_install, spec_found, spec_plan, InstallPlanResult, InstallProgress, InstallTask};
use crate::pkg::{spec_supported_on, AurHelper, PackageManager};
use crate::registry::{spec_pairs_map, ToolMetadata, Toolkit};
use dashmap::DashMap;
use std::time::Duration;

verus! {

#[verifier::external_type_specification]
#[verifier::external_body]
#[verifier::reject_recursive_types(K)]
#[verifier::reject_recursive_types(V)]
#[verifier::reject_recursive_types(S)]
pub struct ExDashMap<K, V, S>(DashMap<K, V, S>);

/// A concurrent table from tool commands to executable paths.
pub type InstalledTable = DashMap<String, String>;

/// What a `DashMap` from commands to executable paths holds.
pub uninterp spec fn dash_entries(m: InstalledTable) -> Map<Seq<char>, Seq<char>>;

/// Relies on `DashMap::new`: a new map is empty.
#[verifier::external_body]
fn dash_new() -> (r: InstalledTable)
    ensures
        dash_entries(r).dom() == Set::<Seq<char>>::empty(),
{
    DashMap::new()
}

/// Relies on `DashMap::insert`: afterwards `key` maps to `value` and every
/// other key is unchanged.
#[verifier::external_body]
fn dash_insert(m: &mut InstalledTable, key: String, value: String)
    ensures
        dash_entries(*final(m)) == dash_entries(*old(m)).insert(key@, value@),
{
    m.insert(key, value);
}

/// Relies on `DashMap::get`: the value stored under `key`, if any (cloned).
#[verifier::external_body]
fn dash_get(m: &InstalledTable, key: &str) -> (r: Option<String>)
    ensures
        r matches Some(v) ==> dash_entries(*m).contains_key(key@) && dash_entries(*m)[key@] == v@,
        r is None ==> !dash_entries(*m).contains_key(key@),
{
    m.get(key).map(|v| v.clone())
}

/// What `Duration::from_secs` returns for `secs`.
pub uninterp spec fn duration_of_secs(secs: u64) -> Duration;

/// Relies on `Duration::from_secs`: a duration of whole seconds, which
/// depends on `secs` alone.
#[verifier::external_body]
fn seconds(secs: u64) -> (r: Duration)
    ensures
        r == duration_of_secs(secs),
{
    Duration::from_secs(secs)
}

/// The tools of `tools` whose command is not a key of `installed`, in order.
pub open spec fn spec_missing(tools: Seq<ToolMetadata>, installed: Map<Seq<char>, Seq<char>>) -> Seq<ToolMetadata>
    decreases tools.len(),
{
    if tools.len() == 0 {
        Seq::empty()
    } else {
        let rest = spec_missing(tools.drop_last(), installed);
        if installed.contains_key(tools.last().command@) {
            rest
        } else {
            rest.push(tools.last())
        }
    }
}

/// The first of `paths` whose probe in `exists` (same order) found it.
pub open spec fn spec_first_existing(paths: Seq<String>, exists: Seq<bool>) -> Option<String>
    decreases exists.len(),
{
    if exists.len() == 0 || paths.len() == 0 {
        None
    } else if exists[0] {
        Some(paths[0])
    } else {
        spec_first_existing(paths.drop_first(), exists.drop_first())
    }
}

/// Where a tool's executable is, given the search-path result `on_path`
/// and, on Windows, the probes `exists` of its fallback `paths`.
pub open spec fn spec_resolve_path(
    on_path: Option<String>,
    platform: Platform,
    paths: Seq<String>,
    exists: Seq<bool>,
) -> Option<String> {
    match on_path {
        Some(p) => Some(p),
        None => if platform == Platform::Windows {
            spec_first_existing(paths, exists)
        } else {
            None
        },
    }
}

/// Resolves where a tool's executable is: a hit on the search path wins;
/// otherwise, on Windows only, the first fallback path (in order) whose
/// probe found it.
pub fn resolve_tool_path(
    on_path: Option<String>,
    platform: Platform,
    exec_paths: &Vec<String>,
    exists: &Vec<bool>,
) -> (r: Option<String>)
    ensures
        r == spec_resolve_path(on_path, platform, exec_paths@, exists@),
{
    if on_path.is_some() {
        return on_path;
    }
    if platform != Platform::Windows {
        return None;
    }
    let mut i: usize = 0;
    proof {
        assert(exec_paths@.skip(0) =~= exec_paths@);
        assert(exists@.skip(0) =~= exists@);
    }
    while i < exists.len() && i < exec_paths.len()
        invariant
            on_path is None,
            platform == Platform::Windows,
            i <= exists@.len(),
            i <= exec_paths@.len(),
            spec_first_existing(exec_paths@, exists@) == spec_first_existing(exec_paths@.skip(i as int), exists@.skip(i as int)),
        decreases exists@.len() - i,
    {
        proof {
            assert(exec_paths@.skip(i as int).drop_first() =~= exec_paths@.skip(i + 1));
            assert(exists@.skip(i as int).drop_first() =~= exists@.skip(i + 1));
            assert(exec_paths@.skip(i as int)[0] == exec_paths@[i as int]);
            assert(exists@.skip(i as int)[0] == exists@[i as int]);
        }
        if exists[i] {
            return Some(exec_paths[i].clone());
        }
        i = i + 1;
    }
    None
}

/// The first failed lookup among `lookups`, in order.
pub open spec fn spec_first_error<'t>(lookups: Seq<(&'t ToolMetadata, Result<Option<String>, HostError>)>) -> Option<
    HostError,
>
    decreases lookups.len(),
{
    if lookups.len() == 0 {
        None
    } else {
        let earlier = spec_first_error(lookups.drop_last());
        if earlier is Some {
            earlier
        } else {
            match lookups.last().1 {
                Err(e) => Some(e),
                Ok(_) => None,
            }
        }
    }
}

/// The installation report of a catalog from the executable lookups of its
/// tools, in order: the first failed lookup fails the whole report;
/// otherwise each tool is installed when its lookup found a path.
pub fn installation_report<'t>(lookups: Vec<(&'t ToolMetadata, Result<Option<String>, HostError>)>) -> (r: Result<
    Vec<(&'t ToolMetadata, bool)>,
    HostError,
>)
    ensures
        spec_first_error(lookups@) matches Some(e) ==> r == Err::<Vec<(&'t ToolMetadata, bool)>, HostError>(e),
        spec_first_error(lookups@) is None ==> (r matches Ok(v) && v@.len() == lookups@.len() && forall|i: int|
            0 <= i < v@.len() ==> (#[trigger] v@[i]).0 == lookups@[i].0 && v@[i].1 == (lookups@[i].1 matches Ok(
                Some(_),
            ))),
{
    let ghost all = lookups@;
    let mut rest = lookups;
    let mut report: Vec<(&'t ToolMetadata, bool)> = Vec::new();
    let mut failure: Option<HostError> = None;
    let ghost mut k: int = 0;
    while rest.len() > 0
        invariant
            0 <= k,
            k + rest@.len() == all.len(),
            rest@ == all.skip(k),
            failure == spec_first_error(all.take(k)),
            report@.len() == k,
            forall|i: int|
                0 <= i < k ==> (#[trigger] report@[i]).0 == all[i].0 && report@[i].1 == (all[i].1 matches Ok(Some(_))),
        decreases rest@.len(),
    {
        let (tool, lookup) = rest.remove(0);
        proof {
            assert(all.take(k + 1).drop_last() =~= all.take(k));
            assert(all.take(k + 1).last() == all[k]);
            assert(all.skip(k)[0] == all[k]);
            assert(rest@ =~= all.skip(k + 1));
        }
        let found = match lookup {
            Ok(path) => path.is_some(),
            Err(e) => {
                if failure.is_none() {
                    failure = Some(e);
                }
                false
            },
        };
        report.push((tool, found));
        proof {
            k = k + 1;
        }
    }
    proof {
        assert(all.take(k) =~= all);
    }
    match failure {
        Some(e) => Err(e),
        None => Ok(report),
    }
}

/// The tools of `checked` that are not installed, in order.
pub open spec fn spec_unchecked<'t>(checked: Seq<(&'t ToolMetadata, bool)>) -> Seq<ToolMetadata>
    decreases checked.len(),
{
    if checked.len() == 0 {
        Seq::empty()
    } else {
        let rest = spec_unchecked(checked.drop_last());
        if checked.last().1 {
            rest
        } else {
            rest.push(*checked.last().0)
        }
    }
}

/// Plans the tools of an installation report that are not installed, in
/// order, on a host with package manager `pkg_manager` and AUR helper
/// `aur_helper` running on `platform`.
pub fn plan_missing<'t>(
    checked: &[(&'t ToolMetadata, bool)],
    pkg_manager: &Option<(PackageManager, String)>,
    aur_helper: &Option<(AurHelper, String)>,
    platform: Platform,
) -> (r: Vec<InstallPlanResult<'t>>)
    ensures
        r@.len() == spec_unchecked(checked@).len(),
        forall|i: int|
            0 <= i < r@.len() ==> spec_plan(
                spec_found(*pkg_manager),
                spec_found(*aur_helper),
                platform,
                &spec_unchecked(checked@)[i],
                #[trigger] r@[i],
            ),
{
    let mut outcomes: Vec<InstallPlanResult<'t>> = Vec::new();
    let mut i: usize = 0;
    while i < checked.len()
        invariant
            i <= checked@.len(),
            outcomes@.len() == spec_unchecked(checked@.take(i as int)).len(),
            forall|j: int|
                0 <= j < outcomes@.len() ==> spec_plan(
                    spec_found(*pkg_manager),
                    spec_found(*aur_helper),
                    platform,
                    &spec_unchecked(checked@.take(i as int))[j],
                    #[trigger] outcomes@[j],
                ),
        decreases checked@.len() - i,
    {
        let (tool, installed) = checked[i];
        proof {
            assert(checked@.take(i + 1).drop_last() =~= checked@.take(i as int));
            assert(checked@.take(i + 1).last() == checked@[i as int]);
        }
        if !installed {
            let ghost before = outcomes@;
            outcomes.push(plan_install(pkg_manager, aur_helper, platform, tool));
            proof {
                let m = spec_unchecked(checked@.take(i + 1));
                assert(m == spec_unchecked(checked@.take(i as int)).push(*tool));
                assert forall|j: int| 0 <= j < outcomes@.len() implies spec_plan(
                    spec_found(*pkg_manager),
                    spec_found(*aur_helper),
                    platform,
                    &m[j],
                    #[trigger] outcomes@[j],
                ) by {
                    if j < before.len() {
                        assert(outcomes@[j] == before[j]);
                    }
                }
            }
        }
        i = i + 1;
    }
    proof {
        assert(checked@.take(i as int) =~= checked@);
    }
    outcomes
}

/// A simulated host for deterministic tests: package manager, AUR helper,
/// privileges and installed tools are all given in advance.
#[derive(Debug)]
pub struct MockEnvironment {
    pkg_manager: Option<PackageManager>,
    aur_helper: Option<AurHelper>,
    installed_tools: InstalledTable,
    running_in_elevation: bool,
    supports_privilege_escalation: bool,
    platform: Platform,
}

/// Builds a [`MockEnvironment`]; by default nothing is detected or
/// installed, the platform is Linux, and the process is elevated and can
/// escalate.
pub struct MockEnvironmentBuilder {
    pkg_manager: Option<PackageManager>,
    aur_helper: Option<AurHelper>,
    installed_tools: Vec<(String, String)>,
    running_in_elevation: bool,
    supports_privilege_escalation: bool,
    platform: Platform,
}

impl MockEnvironmentBuilder {
    /// The package manager to report, if any.
    pub closed spec fn spec_pkg_manager(&self) -> Option<PackageManager> {
        self.pkg_manager
    }

    /// The AUR helper to report, if any.
    pub closed spec fn spec_aur_helper(&self) -> Option<AurHelper> {
        self.aur_helper
    }

    /// The installed-tools table: command to executable path.
    pub closed spec fn spec_installed(&self) -> Map<Seq<char>, Seq<char>> {
        spec_pairs_map(self.installed_tools@)
    }

    /// Whether the process is reported as elevated.
    pub closed spec fn spec_elevated(&self) -> bool {
        self.running_in_elevation
    }

    /// Whether privilege escalation is reported as possible.
    pub closed spec fn spec_can_escalate(&self) -> bool {
        self.supports_privilege_escalation
    }

    /// The simulated platform.
    pub closed spec fn spec_platform(&self) -> Platform {
        self.platform
    }

    /// Sets the detected package manager.
    pub fn pkg_manager(self, pm: PackageManager) -> (r: Self)
        ensures
            r.spec_pkg_manager() == Some(pm),
            r.spec_aur_helper() == self.spec_aur_helper(),
            r.spec_installed() == self.spec_installed(),
            r.spec_elevated() == self.spec_elevated(),
            r.spec_can_escalate() == self.spec_can_escalate(),
            r.spec_platform() == self.spec_platform(),
    {
        MockEnvironmentBuilder { pkg_manager: Some(pm), ..self }
    }

    /// Sets the detected AUR helper.
    pub fn aur_helper(self, helper: AurHelper) -> (r: Self)
        ensures
            r.spec_pkg_manager() == self.spec_pkg_manager(),
            r.spec_aur_helper() == Some(helper),
            r.spec_installed() == self.spec_installed(),
            r.spec_elevated() == self.spec_elevated(),
            r.spec_can_escalate() == self.spec_can_escalate(),
            r.spec_platform() == self.spec_platform(),
    {
        MockEnvironmentBuilder { aur_helper: Some(helper), ..self }
    }

    /// Sets the installed tools: pairs of command and executable path (a
    /// command given twice keeps its last path).
    pub fn installed_tools(self, tools: Vec<(String, String)>) -> (r: Self)
        ensures
            r.spec_pkg_manager() == self.spec_pkg_manager(),
            r.spec_aur_helper() == self.spec_aur_helper(),
            r.spec_installed() == spec_pairs_map(tools@),
            r.spec_elevated() == self.spec_elevated(),
            r.spec_can_escalate() == self.spec_can_escalate(),
            r.spec_platform() == self.spec_platform(),
    {
        MockEnvironmentBuilder { installed_tools: tools, ..self }
    }

    /// Sets whether the process already runs elevated.
    pub fn running_in_elevation(self, elevated: bool) -> (r: Self)
        ensures
            r.spec_pkg_manager() == self.spec_pkg_manager(),
            r.spec_aur_helper() == self.spec_aur_helper(),
            r.spec_installed() == self.spec_installed(),
            r.spec_elevated() == elevated,
            r.spec_can_escalate() == self.spec_can_escalate(),
            r.spec_platform() == self.spec_platform(),
    {
        MockEnvironmentBuilder { running_in_elevation: elevated, ..self }
    }

    /// Sets whether privileges can be escalated on demand.
    pub fn supports_privilege_escalation(self, can_escalate: bool) -> (r: Self)
        ensures
            r.spec_pkg_manager() == self.spec_pkg_manager(),
            r.spec_aur_helper() == self.spec_aur_helper(),
            r.spec_installed() == self.spec_installed(),
            r.spec_elevated() == self.spec_elevated(),
            r.spec_can_escalate() == can_escalate,
            r.spec_platform() == self.spec_platform(),
    {
        MockEnvironmentBuilder { supports_privilege_escalation: can_escalate, ..self }
    }

    /// Sets the simulated platform.
    pub fn platform(self, platform: Platform) -> (r: Self)
        ensures
            r.spec_pkg_manager() == self.spec_pkg_manager(),
            r.spec_aur_helper() == self.spec_aur_helper(),
            r.spec_installed() == self.spec_installed(),
            r.spec_elevated() == self.spec_elevated(),
            r.spec_can_escalate() == self.spec_can_escalate(),
            r.spec_platform() == platform,
    {
        MockEnvironmentBuilder { platform, ..self }
    }

    /// The environment.
    pub fn build(self) -> (r: MockEnvironment)
        ensures
            r.spec_pkg_manager() == self.spec_pkg_manager(),
            r.spec_aur_helper() == self.spec_aur_helper(),
            r.spec_installed() == self.spec_installed(),
            r.spec_elevated() == self.spec_elevated(),
            r.spec_can_escalate() == self.spec_can_escalate(),
            r.spec_platform() == self.spec_platform(),
    {
        let MockEnvironmentBuilder {
            pkg_manager,
            aur_helper,
            installed_tools,
            running_in_elevation,
            supports_privilege_escalation,
            platform,
        } = self;
        let ghost pairs = installed_tools@;
        let mut map = dash_new();
        proof {
            assert(dash_entries(map) =~= spec_pairs_map(pairs.take(0)));
        }
        let mut rest = installed_tools;
        let ghost mut k: int = 0;
        while rest.len() > 0
            invariant
                0 <= k,
                k + rest@.len() == pairs.len(),
                rest@ == pairs.subrange(k, pairs.len() as int),
                dash_entries(map) == spec_pairs_map(pairs.take(k)),
            decreases rest@.len(),
        {
            let (command, path) = rest.remove(0);
            proof {
                assert(pairs.take(k + 1).drop_last() =~= pairs.take(k));
                assert(pairs.take(k + 1).last() == (command, path));
                assert(rest@ =~= pairs.subrange(k + 1, pairs.len() as int));
            }
            dash_insert(&mut map, command, path);
            proof {
                k = k + 1;
            }
        }
        proof {
            assert(pairs.take(k) =~= pairs);
        }
        MockEnvironment {
            pkg_manager,
            aur_helper,
            installed_tools: map,
            running_in_elevation,
            supports_privilege_escalation,
            platform,
        }
    }
}

/// The detection result `kind` reported with an empty path.
pub open spec fn spec_with_empty_path<T>(kind: Option<T>) -> Option<(T, Seq<char>)> {
    match kind {
        Some(k) => Some((k, Seq::<char>::empty())),
        None => None,
    }
}

/// The path that a host with installed-tools table `installed` reports for
/// `command`.
pub open spec fn spec_lookup(installed: Map<Seq<char>, Seq<char>>, command: Seq<char>) -> Option<Seq<char>> {
    if installed.contains_key(command) {
        Some(installed[command])
    } else {
        None
    }
}

/// The spec view of an optional path.
pub open spec fn spec_path(found: Option<String>) -> Option<Seq<char>> {
    match found {
        Some(p) => Some(p@),
        None => None,
    }
}

impl MockEnvironment {
    /// The package manager to report, if any.
    pub closed spec fn spec_pkg_manager(&self) -> Option<PackageManager> {
        self.pkg_manager
    }

    /// The AUR helper to report, if any.
    pub closed spec fn spec_aur_helper(&self) -> Option<AurHelper> {
        self.aur_helper
    }

    /// The installed-tools table: command to executable path.
    pub closed spec fn spec_installed(&self) -> Map<Seq<char>, Seq<char>> {
        dash_entries(self.installed_tools)
    }

    /// Whether the process is reported as elevated.
    pub closed spec fn spec_elevated(&self) -> bool {
        self.running_in_elevation
    }

    /// Whether privilege escalation is reported as possible.
    pub closed spec fn spec_can_escalate(&self) -> bool {
        self.supports_privilege_escalation
    }

    /// The simulated platform.
    pub closed spec fn spec_platform(&self) -> Platform {
        self.platform
    }

    /// A builder with the defaults of [`MockEnvironmentBuilder`].
    pub fn builder() -> (r: MockEnvironmentBuilder)
        ensures
            r.spec_pkg_manager() is None,
            r.spec_aur_helper() is None,
            r.spec_installed() == Map::<Seq<char>, Seq<char>>::empty(),
            r.spec_elevated(),
            r.spec_can_escalate(),
            r.spec_platform() == Platform::Linux,
    {
        MockEnvironmentBuilder {
            pkg_manager: None,
            aur_helper: None,
            installed_tools: Vec::new(),
            running_in_elevation: true,
            supports_privilege_escalation: true,
            platform: Platform::Linux,
        }
    }

    /// A simulated host is never live.
    pub fn is_live(&self) -> (r: bool)
        ensures
            !r,
    {
        false
    }

    /// The simulated platform.
    pub fn platform(&self) -> (r: Platform)
        ensures
            r == self.spec_platform(),
    {
        self.platform
    }

    /// The configured package manager, with an empty path.
    pub fn pkg_manager(&self) -> (r: Option<(PackageManager, String)>)
        ensures
            spec_found(r) == spec_with_empty_path(self.spec_pkg_manager()),
    {
        match self.pkg_manager {
            Some(pm) => Some((pm, String::new())),
            None => None,
        }
    }

    /// The configured AUR helper, with an empty path.
    pub fn aur_helper(&self) -> (r: Option<(AurHelper, String)>)
        ensures
            spec_found(r) == spec_with_empty_path(self.spec_aur_helper()),
    {
        match self.aur_helper {
            Some(helper) => Some((helper, String::new())),
            None => None,
        }
    }

    /// The configured elevation state.
    pub fn running_in_elevation(&self) -> (r: bool)
        ensures
            r == self.spec_elevated(),
    {
        self.running_in_elevation
    }

    /// The configured escalation capability.
    pub fn supports_privilege_escalation(&self) -> (r: bool)
        ensures
            r == self.spec_can_escalate(),
    {
        self.supports_privilege_escalation
    }

    /// Looks the tool's command up in the installed-tools table; never fails.
    pub fn find_tool_executable(&self, tool: &ToolMetadata) -> (r: Result<Option<String>, HostError>)
        ensures
            r matches Ok(found) && spec_path(found) == spec_lookup(self.spec_installed(), tool.command@),
    {
        Ok(dash_get(&self.installed_tools, tool.command.as_str()))
    }

    /// Each tool of `toolkit`, in order, with whether it is installed: the
    /// installation report of their lookups.
    pub fn check_toolkit_installation<'t>(&self, toolkit: &'t Toolkit) -> (r: Result<
        Vec<(&'t ToolMetadata, bool)>,
        HostError,
    >)
        ensures
            r matches Ok(v) && v@.len() == toolkit@.len() && forall|i: int|
                0 <= i < v@.len() ==> (#[trigger] v@[i]).0 == toolkit@[i] && v@[i].1
                    == self.spec_installed().contains_key(toolkit@[i].command@),
    {
        let tools = toolkit.tools();
        let mut lookups: Vec<(&'t ToolMetadata, Result<Option<String>, HostError>)> = Vec::new();
        let mut i: usize = 0;
        while i < tools.len()
            invariant
                tools@ == toolkit@,
                i <= tools@.len(),
                lookups@.len() == i,
                spec_first_error(lookups@) is None,
                forall|j: int|
                    0 <= j < i ==> (#[trigger] lookups@[j]).0 == toolkit@[j] && (lookups@[j].1 matches Ok(found)
                        && spec_path(found) == spec_lookup(self.spec_installed(), toolkit@[j].command@)),
            decreases tools@.len() - i,
        {
            let tool = &tools[i];
            let ghost before = lookups@;
            lookups.push((tool, self.find_tool_executable(tool)));
            proof {
                assert(lookups@.drop_last() =~= before);
            }
            i = i + 1;
        }
        let r = installation_report(lookups);
        proof {
            if r is Ok {
                let v = r->Ok_0;
                assert forall|j: int| 0 <= j < v@.len() implies (#[trigger] v@[j]).0 == toolkit@[j] && v@[j].1
                    == self.spec_installed().contains_key(toolkit@[j].command@) by {
                    assert(lookups@[j].0 == toolkit@[j]);
                }
            }
        }
        r
    }

    /// Plans the installation of `tool` with the configured package manager
    /// and AUR helper (whose paths are empty).
    pub fn plan_install_tool<'a>(&self, tool: &'a ToolMetadata) -> (r: InstallPlanResult<'a>)
        ensures
            spec_plan(
                spec_with_empty_path(self.spec_pkg_manager()),
                spec_with_empty_path(self.spec_aur_helper()),
                self.spec_platform(),
                tool,
                r,
            ),
    {
        plan_install(&self.pkg_manager(), &self.aur_helper(), self.platform, tool)
    }

    /// Plans each of `tools`, in order.
    pub fn plan_install_tools<'a>(&self, tools: &'a [ToolMetadata]) -> (r: Vec<InstallPlanResult<'a>>)
        ensures
            r@.len() == tools@.len(),
            forall|i: int|
                0 <= i < r@.len() ==> spec_plan(
                    spec_with_empty_path(self.spec_pkg_manager()),
                    spec_with_empty_path(self.spec_aur_helper()),
                    self.spec_platform(),
                    &tools@[i],
                    #[trigger] r@[i],
                ),
    {
        let mut outcomes: Vec<InstallPlanResult<'a>> = Vec::new();
        let mut i: usize = 0;
        while i < tools.len()
            invariant
                i <= tools@.len(),
                outcomes@.len() == i,
                forall|j: int|
                    0 <= j < i ==> spec_plan(
                        spec_with_empty_path(self.spec_pkg_manager()),
                        spec_with_empty_path(self.spec_aur_helper()),
                        self.spec_platform(),
                        &tools@[j],
                        #[trigger] outcomes@[j],
                    ),
            decreases tools@.len() - i,
        {
            outcomes.push(self.plan_install_tool(&tools[i]));
            i = i + 1;
        }
        outcomes
    }

    /// Plans each tool of `toolkit` that is not installed, in order.
    pub fn plan_install_missing_tools<'t>(&self, toolkit: &'t Toolkit) -> (r: Result<
        Vec<InstallPlanResult<'t>>,
        HostError,
    >)
        ensures
            r matches Ok(v) && v@.len() == spec_missing(toolkit@, self.spec_installed()).len() && forall|i: int|
                0 <= i < v@.len() ==> spec_plan(
                    spec_with_empty_path(self.spec_pkg_manager()),
                    spec_with_empty_path(self.spec_aur_helper()),
                    self.spec_platform(),
                    &spec_missing(toolkit@, self.spec_installed())[i],
                    #[trigger] v@[i],
                ),
    {
        let checked = match self.check_toolkit_installation(toolkit) {
            Ok(v) => v,
            Err(e) => {
                return Err(e);
            },
        };
        let outcomes = plan_missing(checked.as_slice(), &self.pkg_manager(), &self.aur_helper(), self.platform);
        proof {
            lemma_unchecked_is_missing(checked@, toolkit@, self.spec_installed());
        }
        Ok(outcomes)
    }

    /// Simulates running `task`: the tool is recorded as installed (under
    /// the task's tool name, which is the tool's command, with an empty path)
    /// and success is reported, with no time elapsed.
    pub fn run_install_task(&mut self, task: &InstallTask) -> (r: InstallProgress)
        ensures
            final(self).spec_installed() == old(self).spec_installed().insert(task.spec_tool_name()@, Seq::<char>::empty()),
            final(self).spec_pkg_manager() == old(self).spec_pkg_manager(),
            final(self).spec_aur_helper() == old(self).spec_aur_helper(),
            final(self).spec_elevated() == old(self).spec_elevated(),
            final(self).spec_can_escalate() == old(self).spec_can_escalate(),
            final(self).spec_platform() == old(self).spec_platform(),
            r matches InstallProgress::Success { tool_name, elapsed } && tool_name@ == task.spec_tool_name()@
                && elapsed == duration_of_secs(0),
            spec_lookup(final(self).spec_installed(), task.spec_tool_name()@) == Some(Seq::<char>::empty()),
    {
        let tool_name = task.tool_name().clone();
        dash_insert(&mut self.installed_tools, tool_name.clone(), String::new());
        InstallProgress::Success { elapsed: seconds(0), tool_name }
    }
}

/// `r` is the plan of one of `tools`.
pub open spec fn spec_plans_one_of<'a>(
    pm: Option<(PackageManager, Seq<char>)>,
    aur: Option<(AurHelper, Seq<char>)>,
    platform: Platform,
    tools: Seq<ToolMetadata>,
    r: InstallPlanResult<'a>,
) -> bool {
    exists|j: int| 0 <= j < tools.len() && spec_plan(pm, aur, platform, &#[trigger] tools[j], r)
}

/// A detected executable: what it is and where it lives.
#[derive(Debug, Clone)]
pub struct WithPath<T> {
    inner: T,
    path: String,
}

impl<T> WithPath<T> {
    /// The detected value.
    pub closed spec fn spec_inner(&self) -> T {
        self.inner
    }

    /// Where its executable lives.
    pub closed spec fn spec_path(&self) -> Seq<char> {
        self.path@
    }

    /// `inner`, found at `path`.
    pub fn new(inner: T, path: String) -> (r: Self)
        ensures
            r.spec_inner() == inner,
            r.spec_path() == path@,
    {
        WithPath { inner, path }
    }

    /// The value and its path.
    pub fn into_inner(self) -> (r: (T, String))
        ensures
            r.0 == self.spec_inner(),
            r.1@ == self.spec_path(),
    {
        (self.inner, self.path)
    }
}

/// The spec view of a detected executable held as a [`WithPath`].
pub open spec fn spec_detected<T>(found: Option<WithPath<T>>) -> Option<(T, Seq<char>)> {
    match found {
        Some(w) => Some((w.spec_inner(), w.spec_path())),
        None => None,
    }
}

/// The host the program runs on.
#[derive(Debug)]
pub struct LiveEnvironment {
    pkg_manager: Option<WithPath<PackageManager>>,
    aur_helper: Option<WithPath<AurHelper>>,
    platform: Platform,
}

impl LiveEnvironment {
    /// The detected package manager with the path of its executable.
    pub closed spec fn spec_pkg_manager(&self) -> Option<(PackageManager, Seq<char>)> {
        spec_detected(self.pkg_manager)
    }

    /// The detected AUR helper with the path of its executable.
    pub closed spec fn spec_aur_helper(&self) -> Option<(AurHelper, Seq<char>)> {
        spec_detected(self.aur_helper)
    }

    /// The platform the host runs.
    pub closed spec fn spec_platform(&self) -> Platform {
        self.platform
    }

    /// The host running on `platform`, with the package manager and AUR
    /// helper found on the process search path.
    pub fn new(platform: Platform) -> (r: Result<Self, HostError>)
        ensures
            r matches Ok(env) ==> env.spec_platform() == platform,
            r matches Ok(env) ==> (env.spec_pkg_manager() matches Some((pm, _)) ==> spec_supported_on(pm, platform)),
            platform == Platform::Other ==> (r matches Ok(env) ==> env.spec_pkg_manager() is None),
    {
        let pkg_manager = match PackageManager::detect(platform) {
            Ok(Some((pm, path))) => Some(WithPath::new(pm, path)),
            Ok(None) => None,
            Err(e) => {
                return Err(e);
            },
        };
        let aur_helper = match AurHelper::detect() {
            Ok(Some((helper, path))) => Some(WithPath::new(helper, path)),
            Ok(None) => None,
            Err(e) => {
                return Err(e);
            },
        };
        Ok(LiveEnvironment { pkg_manager, aur_helper, platform })
    }

    /// The host running on `platform` with package manager `pm` at `path`
    /// and no AUR helper.
    pub fn with_pkg_manager(pm: PackageManager, path: String, platform: Platform) -> (r: Self)
        ensures
            r.spec_pkg_manager() == Some((pm, path@)),
            r.spec_aur_helper() is None,
            r.spec_platform() == platform,
    {
        LiveEnvironment { pkg_manager: Some(WithPath::new(pm, path)), aur_helper: None, platform }
    }

    /// The host running on `platform` with neither package manager nor AUR
    /// helper.
    pub fn without_pkg_manager(platform: Platform) -> (r: Self)
        ensures
            r.spec_pkg_manager() is None,
            r.spec_aur_helper() is None,
            r.spec_platform() == platform,
    {
        LiveEnvironment { pkg_manager: None, aur_helper: None, platform }
    }

    /// The real host is live.
    pub fn is_live(&self) -> (r: bool)
        ensures
            r,
    {
        true
    }

    /// The platform.
    pub fn platform(&self) -> (r: Platform)
        ensures
            r == self.spec_platform(),
    {
        self.platform
    }

    /// The package manager with the path of its executable.
    pub fn pkg_manager(&self) -> (r: Option<(PackageManager, String)>)
        ensures
            spec_found(r) == self.spec_pkg_manager(),
    {
        match &self.pkg_manager {
            Some(w) => Some((w.inner, w.path.clone())),
            None => None,
        }
    }

    /// The AUR helper with the path of its executable.
    pub fn aur_helper(&self) -> (r: Option<(AurHelper, String)>)
        ensures
            spec_found(r) == self.spec_aur_helper(),
    {
        match &self.aur_helper {
            Some(w) => Some((w.inner, w.path.clone())),
            None => None,
        }
    }

    /// Whether the process already runs with elevated privileges.
    pub fn running_in_elevation(&self) -> bool {
        running_in_elevation()
    }

    /// Whether the platform can escalate privileges on demand.
    pub fn supports_privilege_escalation(&self) -> (r: bool)
        ensures
            r == (self.spec_platform() == Platform::Linux),
    {
        supports_privilege_escalation(self.platform)
    }

    /// Finds the tool's executable: first its command on the process search
    /// path, then, on Windows, the first of its Windows paths that exists
    /// (probed in order until one is found); [`resolve_tool_path`] decides
    /// from those results.
    pub fn find_tool_executable(&self, tool: &ToolMetadata) -> (r: Result<Option<String>, HostError>)
        ensures
            r matches Err(HostError::Probe { .. }) ==> self.spec_platform() == Platform::Windows,
    {
        let on_path = match which_opt(tool.command.as_str()) {
            Ok(found) => found,
            Err(e) => {
                return Err(e);
            },
        };
        let paths = &tool.windows.exec_paths;
        let mut exists: Vec<bool> = Vec::new();
        if on_path.is_none() && self.platform == Platform::Windows {
            let mut i: usize = 0;
            let mut searching = true;
            while searching && i < paths.len()
                invariant
                    i <= paths@.len(),
                    self.spec_platform() == Platform::Windows,
                decreases paths@.len() - i,
            {
                match path_exists(paths[i].as_str()) {
                    Ok(found) => {
                        exists.push(found);
                        searching = !found;
                    },
                    Err(e) => {
                        return Err(e);
                    },
                }
                i = i + 1;
            }
        }
        Ok(resolve_tool_path(on_path, self.platform, paths, &exists))
    }

    /// Each tool of `toolkit`, in order, with whether its executable was
    /// found: every tool is looked up, then the installation report is made
    /// with [`installation_report`] (a failed lookup fails it).
    pub fn check_toolkit_installation<'t>(&self, toolkit: &'t Toolkit) -> (r: Result<
        Vec<(&'t ToolMetadata, bool)>,
        HostError,
    >)
        ensures
            r matches Ok(v) ==> v@.len() == toolkit@.len() && forall|i: int|
                0 <= i < v@.len() ==> (#[trigger] v@[i]).0 == toolkit@[i],
            toolkit@.len() == 0 ==> (r matches Ok(v) && v@.len() == 0),
    {
        let tools = toolkit.tools();
        let mut lookups: Vec<(&'t ToolMetadata, Result<Option<String>, HostError>)> = Vec::new();
        let mut i: usize = 0;
        while i < tools.len()
            invariant
                tools@ == toolkit@,
                i <= tools@.len(),
                lookups@.len() == i,
                forall|j: int| 0 <= j < i ==> (#[trigger] lookups@[j]).0 == toolkit@[j],
            decreases tools@.len() - i,
        {
            let tool = &tools[i];
            lookups.push((tool, self.find_tool_executable(tool)));
            i = i + 1;
        }
        proof {
            if lookups@.len() == 0 {
                assert(spec_first_error(lookups@) is None);
            }
        }
        installation_report(lookups)
    }

    /// Plans the installation of `tool` with the detected package manager
    /// and AUR helper.
    pub fn plan_install_tool<'a>(&self, tool: &'a ToolMetadata) -> (r: InstallPlanResult<'a>)
        ensures
            spec_plan(self.spec_pkg_manager(), self.spec_aur_helper(), self.spec_platform(), tool, r),
    {
        plan_install(&self.pkg_manager(), &self.aur_helper(), self.platform, tool)
    }

    /// Plans each of `tools`, in order.
    pub fn plan_install_tools<'a>(&self, tools: &'a [ToolMetadata]) -> (r: Vec<InstallPlanResult<'a>>)
        ensures
            r@.len() == tools@.len(),
            forall|i: int|
                0 <= i < r@.len() ==> spec_plan(
                    self.spec_pkg_manager(),
                    self.spec_aur_helper(),
                    self.spec_platform(),
                    &tools@[i],
                    #[trigger] r@[i],
                ),
    {
        let mut outcomes: Vec<InstallPlanResult<'a>> = Vec::new();
        let mut i: usize = 0;
        while i < tools.len()
            invariant
                i <= tools@.len(),
                outcomes@.len() == i,
                forall|j: int|
                    0 <= j < i ==> spec_plan(
                        self.spec_pkg_manager(),
                        self.spec_aur_helper(),
                        self.spec_platform(),
                        &tools@[j],
                        #[trigger] outcomes@[j],
                    ),
            decreases tools@.len() - i,
        {
            outcomes.push(self.plan_install_tool(&tools[i]));
            i = i + 1;
        }
        outcomes
    }

    /// Plans each tool of `toolkit` whose executable is not found, in order,
    /// with [`plan_missing`].
    pub fn plan_install_missing_tools<'t>(&self, toolkit: &'t Toolkit) -> (r: Result<
        Vec<InstallPlanResult<'t>>,
        HostError,
    >)
        ensures
            r matches Ok(v) ==> forall|i: int|
                0 <= i < v@.len() ==> spec_plans_one_of(
                    self.spec_pkg_manager(),
                    self.spec_aur_helper(),
                    self.spec_platform(),
                    toolkit@,
                    #[trigger] v@[i],
                ),
            toolkit@.len() == 0 ==> (r matches Ok(v) && v@.len() == 0),
    {
        let checked = match self.check_toolkit_installation(toolkit) {
            Ok(v) => v,
            Err(e) => {
                return Err(e);
            },
        };
        let outcomes = plan_missing(checked.as_slice(), &self.pkg_manager(), &self.aur_helper(), self.platform);
        proof {
            assert forall|i: int| 0 <= i < outcomes@.len() implies spec_plans_one_of(
                self.spec_pkg_manager(),
                self.spec_aur_helper(),
                self.spec_platform(),
                toolkit@,
                #[trigger] outcomes@[i],
            ) by {
                lemma_unchecked_from(checked@, toolkit@, i);
                let j = choose|j: int| 0 <= j < toolkit@.len() && toolkit@[j] == spec_unchecked(checked@)[i];
                assert(spec_plan(
                    self.spec_pkg_manager(),
                    self.spec_aur_helper(),
                    self.spec_platform(),
                    &toolkit@[j],
                    outcomes@[i],
                ));
            }
        }
        Ok(outcomes)
    }
}

/// The host that tools are checked, planned and installed on: the real
/// machine, or a simulation for deterministic tests.
#[derive(Debug)]
pub enum Environment {
    Live(LiveEnvironment),
    Mock(MockEnvironment),
}

impl Environment {
    /// The detected package manager with the path of its executable.
    pub open spec fn spec_pkg_manager(&self) -> Option<(PackageManager, Seq<char>)> {
        match self {
            Environment::Live(env) => env.spec_pkg_manager(),
            Environment::Mock(env) => spec_with_empty_path(env.spec_pkg_manager()),
        }
    }

    /// The detected AUR helper with the path of its executable.
    pub open spec fn spec_aur_helper(&self) -> Option<(AurHelper, Seq<char>)> {
        match self {
            Environment::Live(env) => env.spec_aur_helper(),
            Environment::Mock(env) => spec_with_empty_path(env.spec_aur_helper()),
        }
    }

    /// The platform.
    pub open spec fn spec_platform(&self) -> Platform {
        match self {
            Environment::Live(env) => env.spec_platform(),
            Environment::Mock(env) => env.spec_platform(),
        }
    }

    /// Whether this is the real host.
    pub fn is_live(&self) -> (r: bool)
        ensures
            r == self is Live,
    {
        match self {
            Environment::Live(_) => true,
            Environment::Mock(_) => false,
        }
    }

    /// The platform.
    pub fn platform(&self) -> (r: Platform)
        ensures
            r == self.spec_platform(),
    {
        match self {
            Environment::Live(env) => env.platform(),
            Environment::Mock(env) => env.platform(),
        }
    }

    /// The detected package manager with the path of its executable.
    pub fn pkg_manager(&self) -> (r: Option<(PackageManager, String)>)
        ensures
            spec_found(r) == self.spec_pkg_manager(),
    {
        match self {
            Environment::Live(env) => env.pkg_manager(),
            Environment::Mock(env) => env.pkg_manager(),
        }
    }

    /// The detected AUR helper with the path of its executable.
    pub fn aur_helper(&self) -> (r: Option<(AurHelper, String)>)
        ensures
            spec_found(r) == self.spec_aur_helper(),
    {
        match self {
            Environment::Live(env) => env.aur_helper(),
            Environment::Mock(env) => env.aur_helper(),
        }
    }

    /// Whether the process already runs with elevated privileges.
    pub fn running_in_elevation(&self) -> (r: bool)
        ensures
            self matches Environment::Mock(env) ==> r == env.spec_elevated(),
    {
        match self {
            Environment::Live(env) => env.running_in_elevation(),
            Environment::Mock(env) => env.running_in_elevation(),
        }
    }

    /// Whether privileges can be escalated on demand.
    pub fn supports_privilege_escalation(&self) -> (r: bool)
        ensures
            self matches Environment::Live(env) ==> r == (env.spec_platform() == Platform::Linux),
            self matches Environment::Mock(env) ==> r == env.spec_can_escalate(),
    {
        match self {
            Environment::Live(env) => env.supports_privilege_escalation(),
            Environment::Mock(env) => env.supports_privilege_escalation(),
        }
    }

    /// Finds the executable of `tool`.
    pub fn find_tool_executable(&self, tool: &ToolMetadata) -> (r: Result<Option<String>, HostError>)
        ensures
            self matches Environment::Mock(env) ==> (r matches Ok(found) && spec_path(found) == spec_lookup(
                env.spec_installed(),
                tool.command@,
            )),
    {
        match self {
            Environment::Live(env) => env.find_tool_executable(tool),
            Environment::Mock(env) => env.find_tool_executable(tool),
        }
    }

    /// Each tool of `toolkit`, in order, with whether it is installed.
    pub fn check_toolkit_installation<'t>(&self, toolkit: &'t Toolkit) -> (r: Result<
        Vec<(&'t ToolMetadata, bool)>,
        HostError,
    >)
        ensures
            r matches Ok(v) ==> v@.len() == toolkit@.len() && forall|i: int|
                0 <= i < v@.len() ==> (#[trigger] v@[i]).0 == toolkit@[i],
            toolkit@.len() == 0 ==> (r matches Ok(v) && v@.len() == 0),
            self matches Environment::Mock(env) ==> (r matches Ok(v) && forall|i: int|
                0 <= i < v@.len() ==> (#[trigger] v@[i]).1 == env.spec_installed().contains_key(
                    toolkit@[i].command@,
                )),
    {
        match self {
            Environment::Live(env) => env.check_toolkit_installation(toolkit),
            Environment::Mock(env) => env.check_toolkit_installation(toolkit),
        }
    }

    /// Plans the installation of `tool`.
    pub fn plan_install_tool<'a>(&self, tool: &'a ToolMetadata) -> (r: InstallPlanResult<'a>)
        ensures
            spec_plan(self.spec_pkg_manager(), self.spec_aur_helper(), self.spec_platform(), tool, r),
    {
        match self {
            Environment::Live(env) => env.plan_install_tool(tool),
            Environment::Mock(env) => env.plan_install_tool(tool),
        }
    }

    /// Plans each of `tools`, in order: one result per tool.
    pub fn plan_install_tools<'a>(&self, tools: &'a [ToolMetadata]) -> (r: Vec<InstallPlanResult<'a>>)
        ensures
            r@.len() == tools@.len(),
            forall|i: int|
                0 <= i < r@.len() ==> spec_plan(
                    self.spec_pkg_manager(),
                    self.spec_aur_helper(),
                    self.spec_platform(),
                    &tools@[i],
                    #[trigger] r@[i],
                ),
    {
        match self {
            Environment::Live(env) => env.plan_install_tools(tools),
            Environment::Mock(env) => env.plan_install_tools(tools),
        }
    }

    /// Plans each tool of `toolkit` that is not installed, in order.
    pub fn plan_install_missing_tools<'t>(&self, toolkit: &'t Toolkit) -> (r: Result<
        Vec<InstallPlanResult<'t>>,
        HostError,
    >)
        ensures
            r matches Ok(v) ==> forall|i: int|
                0 <= i < v@.len() ==> spec_plans_one_of(
                    self.spec_pkg_manager(),
                    self.spec_aur_helper(),
                    self.spec_platform(),
                    toolkit@,
                    #[trigger] v@[i],
                ),
            toolkit@.len() == 0 ==> (r matches Ok(v) && v@.len() == 0),
            self matches Environment::Mock(env) ==> (r matches Ok(v) && v@.len() == spec_missing(
                toolkit@,
                env.spec_installed(),
            ).len() && forall|i: int|
                0 <= i < v@.len() ==> spec_plan(
                    self.spec_pkg_manager(),
                    self.spec_aur_helper(),
                    self.spec_platform(),
                    &spec_missing(toolkit@, env.spec_installed())[i],
                    #[trigger] v@[i],
                )),
    {
        match self {
            Environment::Live(env) => env.plan_install_missing_tools(toolkit),
            Environment::Mock(env) => {
                let r = env.plan_install_missing_tools(toolkit);
                proof {
                    if r is Ok {
                        let v = r->Ok_0;
                        let m = spec_missing(toolkit@, env.spec_installed());
                        assert forall|i: int| 0 <= i < v@.len() implies spec_plans_one_of(
                            self.spec_pkg_manager(),
                            self.spec_aur_helper(),
                            self.spec_platform(),
                            toolkit@,
                            #[trigger] v@[i],
                        ) by {
                            lemma_missing_is_subsequence(toolkit@, env.spec_installed(), i);
                            let j = choose|j: int| 0 <= j < toolkit@.len() && toolkit@[j] == m[i];
                            assert(spec_plan(
                                self.spec_pkg_manager(),
                                self.spec_aur_helper(),
                                self.spec_platform(),
                                &toolkit@[j],
                                v@[i],
                            ));
                        }
                    }
                }
                r
            },
        }
    }
}

/// The tools that an installation report marks as not installed are the
/// tools whose command is not in `installed`, when the report was made from
/// that table.
proof fn lemma_unchecked_is_missing<'t>(
    checked: Seq<(&'t ToolMetadata, bool)>,
    tools: Seq<ToolMetadata>,
    installed: Map<Seq<char>, Seq<char>>,
)
    requires
        checked.len() == tools.len(),
        forall|i: int|
            0 <= i < checked.len() ==> (#[trigger] checked[i]).0 == tools[i] && checked[i].1 == installed.contains_key(
                tools[i].command@,
            ),
    ensures
        spec_unchecked(checked) == spec_missing(tools, installed),
    decreases checked.len(),
{
    if checked.len() > 0 {
        let c = checked.drop_last();
        let t = tools.drop_last();
        assert forall|i: int| 0 <= i < c.len() implies (#[trigger] c[i]).0 == t[i] && c[i].1 == installed.contains_key(
            t[i].command@,
        ) by {
            assert(c[i] == checked[i]);
            assert(t[i] == tools[i]);
        }
        lemma_unchecked_is_missing(c, t, installed);
        assert(checked[checked.len() - 1].0 == tools[tools.len() - 1]);
    }
}

/// Each tool that an installation report marks as not installed is one of
/// the reported tools.
proof fn lemma_unchecked_from<'t>(checked: Seq<(&'t ToolMetadata, bool)>, tools: Seq<ToolMetadata>, i: int)
    requires
        checked.len() == tools.len(),
        forall|j: int| 0 <= j < checked.len() ==> (#[trigger] checked[j]).0 == tools[j],
        0 <= i < spec_unchecked(checked).len(),
    ensures
        exists|j: int| 0 <= j < tools.len() && tools[j] == spec_unchecked(checked)[i],
    decreases checked.len(),
{
    let c = checked.drop_last();
    let t = tools.drop_last();
    let rest = spec_unchecked(c);
    assert forall|j: int| 0 <= j < c.len() implies (#[trigger] c[j]).0 == t[j] by {
        assert(c[j] == checked[j]);
    }
    if i < rest.len() {
        lemma_unchecked_from(c, t, i);
        let j = choose|j: int| 0 <= j < t.len() && t[j] == rest[i];
        assert(tools[j] == t[j]);
    } else {
        assert(checked[checked.len() - 1].0 == tools[tools.len() - 1]);
    }
}

/// Each tool of [`spec_missing`] is a tool of the list.
proof fn lemma_missing_is_subsequence(tools: Seq<ToolMetadata>, installed: Map<Seq<char>, Seq<char>>, i: int)
    requires
        0 <= i < spec_missing(tools, installed).len(),
    ensures
        exists|j: int| 0 <= j < tools.len() && tools[j] == spec_missing(tools, installed)[i],
    decreases tools.len(),
{
    let init = tools.drop_last();
    let rest = spec_missing(init, installed);
    if i < rest.len() {
        lemma_missing_is_subsequence(init, installed, i);
        let j = choose|j: int| 0 <= j < init.len() && init[j] == rest[i];
        assert(tools[j] == init[j]);
    } else {
        assert(tools[tools.len() - 1] == spec_missing(tools, installed)[i]);
    }
}

/// Whether the executable of `tool` is found on `env`.
pub fn check_tool_install(env: &Environment, tool: &ToolMetadata) -> (r: Result<bool, HostError>)
    ensures
        env matches Environment::Mock(m) ==> r == Ok::<bool, HostError>(m.spec_installed().contains_key(tool.command@)),
{
    match env.find_tool_executable(tool) {
        Ok(found) => Ok(found.is_some()),
        Err(e) => Err(e),
    }
}

/// Installing a tool through the simulated runner makes the next lookup of
/// that tool find it: when a task planned for `tool` (on any host) has run
/// on the simulated host, the tool's executable is found (at the empty
/// path).
pub proof fn lemma_mock_install_then_found<'a>(
    pm: Option<(PackageManager, Seq<char>)>,
    aur: Option<(AurHelper, Seq<char>)>,
    platform: Platform,
    tool: &'a ToolMetadata,
    task: InstallTask,
    before: MockEnvironment,
    after: MockEnvironment,
)
    requires
        spec_plan(pm, aur, platform, tool, InstallPlanResult::Task(task)),
        after.spec_installed() == before.spec_installed().insert(task.spec_tool_name()@, Seq::<char>::empty()),
    ensures
        spec_lookup(after.spec_installed(), tool.command@) == Some(Seq::<char>::empty()),
{
    lemma_planned_task_names_tool(pm, aur, platform, tool, task);
}

/// A task planned for `tool` carries the tool's command as its tool name.
proof fn lemma_planned_task_names_tool<'a>(
    pm: Option<(PackageManager, Seq<char>)>,
    aur: Option<(AurHelper, Seq<char>)>,
    platform: Platform,
    tool: &'a ToolMetadata,
    task: InstallTask,
)
    requires
        spec_plan(pm, aur, platform, tool, InstallPlanResult::Task(task)),
    ensures
        task.spec_tool_name()@ == tool.command@,
{
}

} // verus!
