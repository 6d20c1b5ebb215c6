//! Running install tasks: process command lines, privilege checks, the
//! decisions of signal-locked execution, and sequential batches.

use vstd::prelude::*;

use crate::host::Platform;
use crate::install::{InstallProgress, InstallTask};
use crate::registry::DownloadFileFormat;

verus! {

/// A character that a POSIX shell takes literally: an ASCII letter or
/// digit, or one of `-_=/,.+`.
pub open spec fn unix_safe_char(c: char) -> bool {
    ('a' <= c && c <= 'z') || ('A' <= c && c <= 'Z') || ('0' <= c && c <= '9') || c == '-' || c == '_' || c == '='
        || c == '/' || c == ',' || c == '.' || c == '+'
}

/// `s` as it stands between single quotes: each `'` and `!` closes the
/// quotes, is escaped with a backslash, and reopens them.
pub open spec fn unix_quoted_body(s: Seq<char>) -> Seq<char>
    decreases s.len(),
{
    if s.len() == 0 {
        Seq::empty()
    } else {
        let c = s.last();
        unix_quoted_body(s.drop_last()) + if c == '\'' || c == '!' {
            seq!['\'', '\\', c, '\'']
        } else {
            seq![c]
        }
    }
}

/// `s` quoted for a POSIX shell: unchanged when it is not empty and every
/// character is taken literally, otherwise between single quotes.
pub open spec fn unix_escaped(s: Seq<char>) -> Seq<char> {
    if s.len() > 0 && forall|i: int| 0 <= i < s.len() ==> unix_safe_char(#[trigger] s[i]) {
        s
    } else {
        seq!['\''] + unix_quoted_body(s) + seq!['\'']
    }
}

/// What `shell_escape::windows::escape` returns for `s`.
pub uninterp spec fn windows_escaped(s: Seq<char>) -> Seq<char>;

/// Relies on `shell_escape::unix::escape`: `s` unchanged when it is not
/// empty and all its characters are whitelisted, otherwise single-quoted
/// with `'` and `!` rewritten.
#[verifier::external_body]
fn escape_unix(s: &str) -> (r: String)
    ensures
        r@ == unix_escaped(s@),
{
    shell_escape::unix::escape(std::borrow::Cow::Borrowed(s)).into_owned()
}

/// Relies on `shell_escape::windows::escape`: `s` quoted for `cmd.exe`;
/// the result depends on `s` alone.
#[verifier::external_body]
fn escape_windows(s: &str) -> (r: String)
    ensures
        r@ == windows_escaped(s@),
{
    shell_escape::windows::escape(std::borrow::Cow::Borrowed(s)).into_owned()
}

/// `s` quoted for the shell of `platform`.
pub open spec fn spec_escaped(platform: Platform, s: Seq<char>) -> Seq<char> {
    if platform == Platform::Windows {
        windows_escaped(s)
    } else {
        unix_escaped(s)
    }
}

/// Quotes `s` for the shell of `platform`.
pub fn shell_escape(platform: Platform, s: &str) -> (r: String)
    ensures
        r@ == spec_escaped(platform, s@),
{
    if platform == Platform::Windows {
        escape_windows(s)
    } else {
        escape_unix(s)
    }
}

/// The text of `args`, each preceded by a space and quoted for `platform`.
pub open spec fn spec_escaped_args(platform: Platform, args: Seq<Seq<char>>) -> Seq<char>
    decreases args.len(),
{
    if args.len() == 0 {
        Seq::empty()
    } else {
        spec_escaped_args(platform, args.drop_last()) + seq![' '] + spec_escaped(platform, args.last())
    }
}

/// A description of an external process to run: a program, its
/// arguments, and wrappers that run it (the last one outermost, such as
/// `sudo`).
#[derive(Debug, Clone)]
pub struct ProcessBuilder {
    program: String,
    args: Vec<String>,
    wrappers: Vec<String>,
}

impl ProcessBuilder {
    /// The base program.
    pub closed spec fn spec_program(&self) -> Seq<char> {
        self.program@
    }

    /// The arguments of the base program.
    pub closed spec fn spec_args(&self) -> Seq<Seq<char>> {
        self.args.deep_view()
    }

    /// The wrappers, innermost first.
    pub closed spec fn spec_wrappers(&self) -> Seq<Seq<char>> {
        self.wrappers.deep_view()
    }

    /// The full command line: the wrappers from the outermost in, the
    /// program, then its arguments.
    pub open spec fn spec_command_line(&self) -> Seq<Seq<char>> {
        self.spec_wrappers().reverse() + seq![self.spec_program()] + self.spec_args()
    }

    /// A builder that runs `cmd` without arguments.
    pub fn new(cmd: String) -> (r: Self)
        ensures
            r.spec_program() == cmd@,
            r.spec_args().len() == 0,
            r.spec_wrappers().len() == 0,
    {
        ProcessBuilder { program: cmd, args: Vec::new(), wrappers: Vec::new() }
    }

    /// Adds `arg` to the arguments.
    pub fn arg(&mut self, arg: &str)
        ensures
            final(self).spec_program() == old(self).spec_program(),
            final(self).spec_args() == old(self).spec_args().push(arg@),
            final(self).spec_wrappers() == old(self).spec_wrappers(),
    {
        self.args.push(arg.to_string());
        proof {
            assert(self.args.deep_view() =~= old(self).args.deep_view().push(arg@));
        }
    }

    /// Adds each of `args` to the arguments, in order.
    pub fn args(&mut self, args: &[String])
        ensures
            final(self).spec_program() == old(self).spec_program(),
            final(self).spec_args() == old(self).spec_args() + args.deep_view(),
            final(self).spec_wrappers() == old(self).spec_wrappers(),
    {
        let mut i: usize = 0;
        while i < args.len()
            invariant
                i <= args@.len(),
                self.program == old(self).program,
                self.wrappers == old(self).wrappers,
                self.args.deep_view() == old(self).args.deep_view() + args.deep_view().take(i as int),
            decreases args@.len() - i,
        {
            let ghost before = self.args.deep_view();
            self.args.push(args[i].clone());
            proof {
                assert(args.deep_view().take(i + 1) =~= args.deep_view().take(i as int).push(args@[i as int]@));
                assert(self.args.deep_view() =~= before.push(args@[i as int]@));
            }
            i = i + 1;
        }
        proof {
            assert(args.deep_view().take(i as int) =~= args.deep_view());
        }
    }

    /// Runs the command under `wrapper` when one is given and not empty.
    pub fn wrap(&mut self, wrapper: Option<&str>)
        ensures
            final(self).spec_program() == old(self).spec_program(),
            final(self).spec_args() == old(self).spec_args(),
            final(self).spec_wrappers() == match wrapper {
                Some(w) => if w@.len() > 0 {
                    old(self).spec_wrappers().push(w@)
                } else {
                    old(self).spec_wrappers()
                },
                None => old(self).spec_wrappers(),
            },
    {
        if let Some(w) = wrapper {
            if !w.is_empty() {
                self.wrappers.push(w.to_string());
                proof {
                    assert(self.wrappers.deep_view() =~= old(self).wrappers.deep_view().push(w@));
                }
            }
        }
    }

    /// The full command line: the outermost wrapper (or the program when
    /// there is none) followed by its arguments.
    pub fn command_line(&self) -> (r: Vec<String>)
        ensures
            r.deep_view() == self.spec_command_line(),
    {
        let mut line: Vec<String> = Vec::new();
        let mut i: usize = self.wrappers.len();
        while i > 0
            invariant
                i <= self.wrappers@.len(),
                line.deep_view() == self.wrappers.deep_view().subrange(i as int, self.wrappers@.len() as int).reverse(),
            decreases i,
        {
            let ghost before = line.deep_view();
            i = i - 1;
            line.push(self.wrappers[i].clone());
            proof {
                let w = self.wrappers.deep_view();
                assert(w.subrange(i as int, w.len() as int).reverse() =~= w.subrange(i + 1, w.len() as int).reverse().push(w[i as int]));
                assert(line.deep_view() =~= before.push(w[i as int]));
            }
        }
        let ghost head = line.deep_view();
        line.push(self.program.clone());
        proof {
            assert(self.wrappers.deep_view().subrange(0, self.wrappers@.len() as int) =~= self.wrappers.deep_view());
            assert(line.deep_view() =~= head.push(self.program@));
        }
        let mut j: usize = 0;
        while j < self.args.len()
            invariant
                j <= self.args@.len(),
                line.deep_view() == self.spec_wrappers().reverse() + seq![self.spec_program()] + self.spec_args().take(j as int),
            decreases self.args@.len() - j,
        {
            let ghost before = line.deep_view();
            line.push(self.args[j].clone());
            proof {
                assert(self.spec_args().take(j + 1) =~= self.spec_args().take(j as int).push(self.args@[j as int]@));
                assert(line.deep_view() =~= before.push(self.args@[j as int]@));
            }
            j = j + 1;
        }
        proof {
            assert(self.spec_args().take(j as int) =~= self.spec_args());
            assert(line.deep_view() =~= self.spec_command_line());
        }
        line
    }

    /// The executable that runs: the outermost wrapper, or the program.
    pub fn get_program(&self) -> (r: String)
        ensures
            r@ == self.spec_command_line()[0],
    {
        let line = self.command_line();
        proof {
            assert(line.deep_view().len() == line@.len());
            assert(line.deep_view()[0] == line@[0]@);
        }
        line[0].clone()
    }

    /// The arguments of the executable that runs (the rest of the command
    /// line).
    pub fn get_args(&self) -> (r: Vec<String>)
        ensures
            r.deep_view() == self.spec_command_line().drop_first(),
    {
        let mut line = self.command_line();
        proof {
            assert(line.deep_view().len() == line@.len());
        }
        line.remove(0);
        proof {
            assert(line.deep_view() =~= self.spec_command_line().drop_first());
        }
        line
    }

    /// The command line as text: the executable, then each argument after a
    /// space, quoted for the shell of `platform`.
    pub fn display_string(&self, platform: Platform) -> (r: String)
        ensures
            r@ == self.spec_command_line()[0] + spec_escaped_args(platform, self.spec_command_line().drop_first()),
    {
        let line = self.command_line();
        proof {
            assert(line.deep_view().len() == line@.len());
            assert(line.deep_view()[0] == line@[0]@);
            assert(line.deep_view().subrange(1, 1) =~= Seq::<Seq<char>>::empty());
        }
        let mut text = line[0].clone();
        let mut i: usize = 1;
        while i < line.len()
            invariant
                1 <= i <= line@.len(),
                line.deep_view() == self.spec_command_line(),
                text@ == line.deep_view()[0] + spec_escaped_args(platform, line.deep_view().subrange(1, i as int)),
            decreases line@.len() - i,
        {
            let escaped = shell_escape(platform, line[i].as_str());
            let ghost before = text@;
            proof {
                reveal_strlit(" ");
                assert(line.deep_view()[i as int] == line@[i as int]@);
            }
            text.append(" ");
            text.append(escaped.as_str());
            proof {
                let s = line.deep_view();
                assert(s.subrange(1, i + 1).drop_last() =~= s.subrange(1, i as int));
                assert(s.subrange(1, i + 1).last() == s[i as int]);
                assert(text@ =~= before + seq![' '] + spec_escaped(platform, s[i as int]));
            }
            i = i + 1;
        }
        proof {
            assert(line.deep_view().subrange(1, i as int) =~= self.spec_command_line().drop_first());
        }
        text
    }
}

/// The exit status of a finished process.
#[derive(Debug, Clone, Copy, PartialEq, Eq, Structural)]
pub struct Status(pub i32);

impl Status {
    /// The exit code.
    pub fn code(self) -> (r: i32)
        ensures
            r == self.0,
    {
        self.0
    }

    /// `Ok(0)` for a successful exit, the status itself otherwise.
    pub fn success(self) -> (r: Result<i32, Status>)
        ensures
            self.0 == 0 ==> r == Ok::<i32, Status>(0),
            self.0 != 0 ==> r == Err::<i32, Status>(self),
    {
        if self.0 == 0 {
            Ok(0)
        } else {
            Err(self)
        }
    }
}

/// A notification of signal-locked execution.
#[derive(Debug, Clone, Copy, PartialEq, Eq, Structural)]
pub enum LockedNotification {
    /// A first termination signal arrived; the process goes on.
    FirstWarning,
    /// A second signal arrived in time: the process is stopped.
    Interrupted,
}

/// How long, in milliseconds, a first termination signal stays armed.
pub const INTERRUPT_WINDOW_MS: u64 = 5000;

/// The time from `earlier` to `now` in milliseconds (none if the clock
/// reads earlier).
pub open spec fn spec_elapsed(earlier: u64, now: u64) -> int {
    if now >= earlier {
        now - earlier
    } else {
        0
    }
}

/// The next armed time and the notification when a termination signal
/// arrives at `now`, when the last unanswered one arrived at `armed`.
pub open spec fn spec_on_signal(armed: Option<u64>, now: u64) -> (Option<u64>, LockedNotification) {
    match armed {
        Some(t) if spec_elapsed(t, now) < INTERRUPT_WINDOW_MS => (None, LockedNotification::Interrupted),
        _ => (Some(now), LockedNotification::FirstWarning),
    }
}

/// The decisions of signal-locked execution: a first termination signal
/// only warns; a second one within [`INTERRUPT_WINDOW_MS`] of the first
/// stops the child; after the window a signal counts as a first one again.
#[derive(Debug, Clone, Copy)]
pub struct SignalLock {
    armed_at: Option<u64>,
}

impl SignalLock {
    /// When the last unanswered signal arrived, if one is armed.
    pub closed spec fn spec_armed(&self) -> Option<u64> {
        self.armed_at
    }

    /// No signal has arrived yet.
    pub fn new() -> (r: Self)
        ensures
            r.spec_armed() is None,
    {
        SignalLock { armed_at: None }
    }

    /// Records a termination signal that arrived at `now_ms` and says what
    /// to do: warn, or stop the child.
    pub fn on_signal(&mut self, now_ms: u64) -> (r: LockedNotification)
        ensures
            (final(self).spec_armed(), r) == spec_on_signal(old(self).spec_armed(), now_ms),
    {
        match self.armed_at {
            Some(t) => {
                let elapsed: u64 = if now_ms >= t {
                    now_ms - t
                } else {
                    0
                };
                if elapsed < INTERRUPT_WINDOW_MS {
                    self.armed_at = None;
                    return LockedNotification::Interrupted;
                }
            },
            None => {},
        }
        self.armed_at = Some(now_ms);
        LockedNotification::FirstWarning
    }
}

/// Why running an install task failed.
#[derive(Debug, Clone, PartialEq, Eq)]
pub enum RunError {
    /// The task needs elevated privileges, the process does not have them,
    /// and the platform cannot escalate.
    PrivilegeRequired { platform: Platform },
    /// The process exited unsuccessfully (`code` is `None` when it was
    /// ended by a signal).
    ProcessFailed { code: Option<i32> },
}

/// How a child process ended.
#[derive(Debug, Clone, Copy, PartialEq, Eq, Structural)]
pub enum ChildExit {
    /// It exited on its own with `code` (`None` when ended by a signal).
    Exited { code: Option<i32> },
    /// It was stopped after a confirmed interrupt.
    Interrupted,
}

/// What a run of a task comes to: an interrupt is a terminal state of its
/// own, not a failure.
#[derive(Debug, Clone, Copy, PartialEq, Eq, Structural)]
pub enum RunOutcome {
    Succeeded,
    Interrupted,
}

/// The result of a run whose child ended as `exit`.
pub open spec fn spec_run_result(exit: ChildExit) -> Result<RunOutcome, RunError> {
    match exit {
        ChildExit::Interrupted => Ok(RunOutcome::Interrupted),
        ChildExit::Exited { code: Some(0) } => Ok(RunOutcome::Succeeded),
        ChildExit::Exited { code } => Err(RunError::ProcessFailed { code }),
    }
}

/// Classifies how the child of a run ended: success, an interrupt (not an
/// error), or a failure carrying the exit code.
pub fn run_result(exit: ChildExit) -> (r: Result<RunOutcome, RunError>)
    ensures
        r == spec_run_result(exit),
{
    match exit {
        ChildExit::Interrupted => Ok(RunOutcome::Interrupted),
        ChildExit::Exited { code } => match code {
            Some(c) => if c == 0 {
                Ok(RunOutcome::Succeeded)
            } else {
                Err(RunError::ProcessFailed { code })
            },
            None => Err(RunError::ProcessFailed { code }),
        },
    }
}

/// Whether a task that needs privileges (`needs_privilege`) may run.
pub open spec fn spec_privilege_ok(needs_privilege: bool, elevated: bool, can_escalate: bool) -> bool {
    !needs_privilege || elevated || can_escalate
}

/// Fails with `PrivilegeRequired` exactly when the task needs privileges
/// that the process neither has nor can obtain.
pub fn check_privilege(needs_privilege: bool, elevated: bool, can_escalate: bool, platform: Platform) -> (r: Result<
    (),
    RunError,
>)
    ensures
        spec_privilege_ok(needs_privilege, elevated, can_escalate) ==> r is Ok,
        !spec_privilege_ok(needs_privilege, elevated, can_escalate) ==> r == Err::<(), RunError>(
            RunError::PrivilegeRequired { platform },
        ),
{
    if needs_privilege && !elevated && !can_escalate {
        Err(RunError::PrivilegeRequired { platform })
    } else {
        Ok(())
    }
}

/// A package-manager run ready to start: the process to spawn and the
/// notification to send before it starts.
#[derive(Debug)]
pub struct PreparedRun {
    pub builder: ProcessBuilder,
    pub command: InstallProgress,
}

/// Prepares the run of a package-manager task on `platform`: the privilege
/// check comes first (nothing is spawned when it fails); a task that needs
/// privileges runs under `sudo` except on Windows; the `Command`
/// notification carries the command line and the tool name.
pub fn prepare_package_manager_run(task: &InstallTask, elevated: bool, can_escalate: bool, platform: Platform) -> (r:
    Result<PreparedRun, RunError>)
    requires
        task is PackageManager,
    ensures
        !spec_privilege_ok(task->sudo, elevated, can_escalate) ==> r == Err::<PreparedRun, RunError>(
            RunError::PrivilegeRequired { platform },
        ),
        spec_privilege_ok(task->sudo, elevated, can_escalate) ==> (r matches Ok(run) && {
            &&& run.builder.spec_program() == task->exec_path@
            &&& run.builder.spec_args() == task->arguments.deep_view()
            &&& run.builder.spec_wrappers() == (if task->sudo && platform != Platform::Windows {
                seq!["sudo"@]
            } else {
                Seq::<Seq<char>>::empty()
            })
            &&& run.command matches InstallProgress::Command { text, tool_name } && tool_name == task.spec_tool_name()
                && text@ == run.builder.spec_command_line()[0] + spec_escaped_args(
                platform,
                run.builder.spec_command_line().drop_first(),
            )
        }),
{
    match task {
        InstallTask::PackageManager { exec_path, arguments, sudo, tool_name } => {
            match check_privilege(*sudo, elevated, can_escalate, platform) {
                Ok(()) => {},
                Err(e) => {
                    return Err(e);
                },
            }
            let mut builder = ProcessBuilder::new(exec_path.clone());
            builder.args(arguments.as_slice());
            if *sudo && platform != Platform::Windows {
                proof {
                    reveal_strlit("sudo");
                }
                builder.wrap(Some("sudo"));
                proof {
                    assert(builder.spec_wrappers() =~= seq!["sudo"@]);
                }
            }
            let text = builder.display_string(platform);
            Ok(PreparedRun { builder, command: InstallProgress::Command { text, tool_name: tool_name.clone() } })
        },
        _ => {
            proof {
                assert(false);
            }
            Err(RunError::ProcessFailed { code: None })
        },
    }
}

/// The notification that ends a package-manager run of `tool_name` whose
/// child ended as `exit` after `elapsed`: `Success` on success, none after
/// an interrupt (which was announced when it happened), and the failure
/// otherwise.
pub fn finish_package_manager_run(tool_name: String, exit: ChildExit, elapsed: std::time::Duration) -> (r: Result<
    Option<InstallProgress>,
    RunError,
>)
    ensures
        spec_run_result(exit) matches Ok(RunOutcome::Succeeded) ==> (r matches Ok(Some(InstallProgress::Success { tool_name: n, .. })) && n == tool_name),
        spec_run_result(exit) matches Ok(RunOutcome::Interrupted) ==> r matches Ok(None),
        spec_run_result(exit) matches Err(e) ==> r == Err::<Option<InstallProgress>, RunError>(e),
{
    match run_result(exit) {
        Ok(RunOutcome::Succeeded) => Ok(Some(InstallProgress::Success { elapsed, tool_name })),
        Ok(RunOutcome::Interrupted) => Ok(None),
        Err(e) => Err(e),
    }
}

/// The name of the file that a download of `format` is saved under.
pub fn downloaded_file_name(format: DownloadFileFormat, platform: Platform) -> (r: &'static str)
    ensures
        r@ == (if format == DownloadFileFormat::Executable && platform == Platform::Windows {
            "downloaded.exe"@
        } else {
            "downloaded.zip"@
        }),
{
    match format {
        DownloadFileFormat::Executable => if platform == Platform::Windows {
            "downloaded.exe"
        } else {
            "downloaded.zip"
        },
        DownloadFileFormat::ZIP => "downloaded.zip",
    }
}

/// The process that opens a downloaded executable at `path`: run directly,
/// or through `start` on Windows.
pub fn open_executable_command(path: String, platform: Platform) -> (r: ProcessBuilder)
    ensures
        r.spec_program() == path@,
        r.spec_args().len() == 0,
        r.spec_wrappers() == (if platform == Platform::Windows {
            seq!["start"@]
        } else {
            Seq::<Seq<char>>::empty()
        }),
{
    let mut builder = ProcessBuilder::new(path);
    if platform == Platform::Windows {
        proof {
            reveal_strlit("start");
        }
        builder.wrap(Some("start"));
        proof {
            assert(builder.spec_wrappers() =~= seq!["start"@]);
        }
    }
    builder
}

/// The sequential run of a batch of install tasks: tasks run one after
/// the other, never in parallel, and the first failure stops the batch;
/// an interrupted task is no failure.
#[derive(Debug)]
pub struct InstallBatch {
    tasks: Vec<InstallTask>,
    position: usize,
    failed: bool,
}

impl InstallBatch {
    /// The tasks of the batch, in order.
    pub closed spec fn spec_tasks(&self) -> Seq<InstallTask> {
        self.tasks@
    }

    /// How many tasks have been run.
    pub closed spec fn spec_position(&self) -> int {
        self.position as int
    }

    /// Whether a task failed.
    pub closed spec fn spec_failed(&self) -> bool {
        self.failed
    }

    /// No more tasks have run than the batch holds.
    pub closed spec fn wf(&self) -> bool {
        self.position <= self.tasks@.len()
    }

    /// A batch of `tasks` that has not started.
    pub fn new(tasks: Vec<InstallTask>) -> (r: Self)
        ensures
            r.wf(),
            r.spec_tasks() == tasks@,
            r.spec_position() == 0,
            !r.spec_failed(),
    {
        InstallBatch { tasks, position: 0, failed: false }
    }

    /// The task to run next: none once all ran or one failed.
    pub fn next_task(&self) -> (r: Option<&InstallTask>)
        requires
            self.wf(),
        ensures
            (self.spec_failed() || self.spec_position() == self.spec_tasks().len()) ==> r is None,
            !(self.spec_failed() || self.spec_position() == self.spec_tasks().len()) ==> r == Some(
                &self.spec_tasks()[self.spec_position()],
            ),
    {
        if self.failed || self.position == self.tasks.len() {
            None
        } else {
            Some(&self.tasks[self.position])
        }
    }

    /// Records whether the task returned by [`InstallBatch::next_task`]
    /// failed (an interrupted task did not).
    pub fn record(&mut self, failed: bool)
        requires
            old(self).wf(),
            !old(self).spec_failed(),
            old(self).spec_position() < old(self).spec_tasks().len(),
        ensures
            final(self).wf(),
            final(self).spec_tasks() == old(self).spec_tasks(),
            final(self).spec_position() == old(self).spec_position() + 1,
            final(self).spec_failed() == failed,
    {
        let n = self.tasks.len();
        if self.position < n {
            self.position = self.position + 1;
        }
        self.failed = failed;
    }

    /// Whether the batch ended without a failure.
    pub fn succeeded(&self) -> (r: bool)
        ensures
            r == !self.spec_failed(),
    {
        !self.failed
    }

    /// The names of the tools whose tasks were not run, in order.
    pub fn skipped(&self) -> (r: Vec<String>)
        requires
            self.wf(),
        ensures
            r@.len() == self.spec_tasks().len() - self.spec_position(),
            forall|i: int|
                0 <= i < r@.len() ==> #[trigger] r@[i] == self.spec_tasks()[self.spec_position() + i].spec_tool_name(),
    {
        let mut names: Vec<String> = Vec::new();
        let mut i: usize = self.position;
        while i < self.tasks.len()
            invariant
                self.position <= i <= self.tasks@.len(),
                names@.len() == i - self.position,
                forall|j: int|
                    0 <= j < names@.len() ==> #[trigger] names@[j] == self.tasks@[self.position + j].spec_tool_name(),
            decreases self.tasks@.len() - i,
        {
            names.push(self.tasks[i].tool_name().clone());
            i = i + 1;
        }
        names
    }
}

/// A first termination signal followed by a second one within the window
/// stops the child, and the run then ends as interrupted, not as an error.
pub proof fn lemma_double_signal_interrupts(first: u64, second: u64)
    requires
        first <= second,
        second - first < INTERRUPT_WINDOW_MS,
    ensures
        spec_on_signal(None, first) == (Some(first), LockedNotification::FirstWarning),
        spec_on_signal(Some(first), second).1 == LockedNotification::Interrupted,
        spec_run_result(ChildExit::Interrupted) == Ok::<RunOutcome, RunError>(RunOutcome::Interrupted),
{
}

} // verus!
