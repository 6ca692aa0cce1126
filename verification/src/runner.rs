//! The run as a state machine: which action is pending, and what each
//! report from the host leads to.
//!
//! Paths and arguments are byte strings, as a Unix-like system has them:
//! a temporary directory whose name is not UTF-8 is used as it stands.

use vstd::prelude::*;
use vstd::slice::slice_to_vec;
use vstd::utf8::encode_utf8;
use crate::report::{outcome_view, ExecutionResult, ExecutionResultView, Outcome};

verus! {

/// Permission bits of the temporary script: read, write and execute for the
/// owner, nothing for group and others.
pub const SCRIPT_MODE: u32 = 0o700;

/// Name of the temporary script inside the temporary directory. It is the
/// same for every run: concurrent runs share the file.
pub open spec fn script_file_name() -> Seq<u8> {
    encode_utf8("anti-clean.sh"@)
}

/// The byte that separates the parts of a path: `/`.
pub const PATH_SEPARATOR: u8 = 0x2f;

/// The interpreter that executes the script.
pub open spec fn interpreter() -> Seq<char> {
    "/bin/bash"@
}

/// The argument that asks the script for the more thorough cleanup.
pub open spec fn force_flag() -> Seq<u8> {
    encode_utf8("--force"@)
}

/// Diagnostic of a run on a platform that cannot run the script.
pub open spec fn unsupported_platform_spec() -> Seq<char> {
    "该功能仅支持 macOS/Linux"@
}

/// Diagnostic of a run whose script could not be written; `detail` is the
/// host's description of the error.
pub open spec fn write_failure_spec(detail: Seq<char>) -> Seq<char> {
    "写入临时脚本失败: "@ + detail
}

/// Diagnostic of a run whose script could not be made executable.
pub open spec fn permission_failure_spec(detail: Seq<char>) -> Seq<char> {
    "设置脚本权限失败: "@ + detail
}

/// Diagnostic of a run whose subprocess could not be launched or awaited.
pub open spec fn spawn_failure_spec(detail: Seq<char>) -> Seq<char> {
    "执行脚本失败: "@ + detail
}

/// Path of the temporary script: the file name appended to the directory,
/// with a `/` between them unless the directory is empty or ends in one.
pub open spec fn script_path_spec(temp_dir: Seq<u8>) -> Seq<u8> {
    if temp_dir.len() > 0 && temp_dir.last() != PATH_SEPARATOR {
        temp_dir + seq![PATH_SEPARATOR] + script_file_name()
    } else {
        temp_dir + script_file_name()
    }
}

/// Arguments of the interpreter: the script's path, followed by the force
/// flag if and only if `force` is set.
pub open spec fn script_arguments_spec(script_path: Seq<u8>, force: bool) -> Seq<Seq<u8>> {
    if force {
        seq![script_path, force_flag()]
    } else {
        seq![script_path]
    }
}

/// The kind of operating system the host runs on.
#[derive(Clone, Copy, Debug, PartialEq, Eq)]
pub enum Platform {
    /// A Unix-like system: Linux, macOS, a BSD and the like.
    UnixLike,
    /// Any other system.
    Other,
}

impl Platform {
    /// Whether the script can run there: on every Unix-like system, and
    /// nowhere else.
    pub open spec fn supported(self) -> bool {
        self is UnixLike
    }

    /// Whether the script can run there.
    pub fn is_supported(&self) -> (yes: bool)
        ensures
            yes == self.supported(),
    {
        match self {
            Platform::UnixLike => true,
            Platform::Other => false,
        }
    }
}

/// What the host is asked to do next.
#[derive(Debug, PartialEq, Eq)]
pub enum Action {
    /// Write `contents` to `path`, replacing what is there.
    WriteScript { path: Vec<u8>, contents: String },
    /// Set the permission bits of `path` to `mode`.
    SetPermissions { path: Vec<u8>, mode: u32 },
    /// Run `program` with `arguments`, wait for it to exit and capture both
    /// of its output streams.
    Execute { program: String, arguments: Vec<Vec<u8>> },
    /// Delete `path`; whether that succeeds does not matter.
    RemoveScript { path: Vec<u8> },
    /// Nothing is left to do: hand `result` to the caller.
    Finish { result: Result<String, String> },
}

/// Mathematical model of an [`Action`].
pub enum ActionView {
    WriteScript { path: Seq<u8>, contents: Seq<char> },
    SetPermissions { path: Seq<u8>, mode: u32 },
    Execute { program: Seq<char>, arguments: Seq<Seq<u8>> },
    RemoveScript { path: Seq<u8> },
    Finish { result: Outcome },
}

impl View for Action {
    type V = ActionView;

    open spec fn view(&self) -> ActionView {
        match *self {
            Action::WriteScript { path, contents } => ActionView::WriteScript {
                path: path@,
                contents: contents@,
            },
            Action::SetPermissions { path, mode } => ActionView::SetPermissions { path: path@, mode },
            Action::Execute { program, arguments } => ActionView::Execute {
                program: program@,
                arguments: arguments.deep_view(),
            },
            Action::RemoveScript { path } => ActionView::RemoveScript { path: path@ },
            Action::Finish { result } => ActionView::Finish { result: outcome_view(result) },
        }
    }
}

/// What the host reports after it has tried the pending action.
#[derive(Debug, PartialEq, Eq)]
pub enum Event {
    /// The action was carried out (a write, a permission change, a removal).
    Completed,
    /// The action could not be carried out; the text describes the error.
    Failed(String),
    /// The subprocess ran and exited.
    Exited(ExecutionResult),
}

/// Mathematical model of an [`Event`].
pub enum EventView {
    Completed,
    Failed(Seq<char>),
    Exited(ExecutionResultView),
}

impl View for Event {
    type V = EventView;

    open spec fn view(&self) -> EventView {
        match *self {
            Event::Completed => EventView::Completed,
            Event::Failed(detail) => EventView::Failed(detail@),
            Event::Exited(execution) => EventView::Exited(execution@),
        }
    }
}

impl ActionView {
    /// Whether `event` is a report that the host can give for this action.
    /// A subprocess either exits or fails to run; everything else is
    /// either carried out or fails; nothing answers `Finish`.
    pub open spec fn answered_by(self, event: EventView) -> bool {
        match self {
            ActionView::Execute { .. } => event is Exited || event is Failed,
            ActionView::Finish { .. } => false,
            _ => event is Completed || event is Failed,
        }
    }
}

/// One run of the cleaning script, between two actions of the host.
#[derive(Debug, PartialEq, Eq)]
pub enum ScriptRunner {
    /// Nothing has happened yet; the script is to be written.
    NotStarted { force: bool, script_path: Vec<u8>, script: String },
    /// The script is on disk and is to be made executable.
    ScriptWritten { force: bool, script_path: Vec<u8> },
    /// The script is executable and is to be run.
    ScriptExecutable { force: bool, script_path: Vec<u8> },
    /// The result is settled: the script ran, or it could not be made
    /// executable or launched. The file is still on disk and is to be
    /// removed.
    ScriptExecuted { script_path: Vec<u8>, result: Result<String, String> },
    /// The run is over and no file is left to remove.
    Cleaned { result: Result<String, String> },
}

/// Mathematical model of a [`ScriptRunner`].
pub enum RunnerView {
    NotStarted { force: bool, script_path: Seq<u8>, script: Seq<char> },
    ScriptWritten { force: bool, script_path: Seq<u8> },
    ScriptExecutable { force: bool, script_path: Seq<u8> },
    ScriptExecuted { script_path: Seq<u8>, result: Outcome },
    Cleaned { result: Outcome },
}

impl View for ScriptRunner {
    type V = RunnerView;

    open spec fn view(&self) -> RunnerView {
        match *self {
            ScriptRunner::NotStarted { force, script_path, script } => RunnerView::NotStarted {
                force,
                script_path: script_path@,
                script: script@,
            },
            ScriptRunner::ScriptWritten { force, script_path } => RunnerView::ScriptWritten {
                force,
                script_path: script_path@,
            },
            ScriptRunner::ScriptExecutable { force, script_path } => RunnerView::ScriptExecutable {
                force,
                script_path: script_path@,
            },
            ScriptRunner::ScriptExecuted { script_path, result } => RunnerView::ScriptExecuted {
                script_path: script_path@,
                result: outcome_view(result),
            },
            ScriptRunner::Cleaned { result } => RunnerView::Cleaned { result: outcome_view(result) },
        }
    }
}

impl RunnerView {
    /// The state in which a run on a supported platform begins.
    pub open spec fn started(force: bool, temp_dir: Seq<u8>, script: Seq<char>) -> RunnerView {
        RunnerView::NotStarted { force, script_path: script_path_spec(temp_dir), script }
    }

    /// The state in which a run begins: on a platform that cannot run the
    /// script it is over at once, with the diagnostic that says so.
    pub open spec fn launched(
        force: bool,
        platform: Platform,
        temp_dir: Seq<u8>,
        script: Seq<char>,
    ) -> RunnerView {
        if platform.supported() {
            RunnerView::started(force, temp_dir, script)
        } else {
            RunnerView::Cleaned { result: Err(unsupported_platform_spec()) }
        }
    }

    /// The action that is pending in this state.
    pub open spec fn action(self) -> ActionView {
        match self {
            RunnerView::NotStarted { script_path, script, .. } => ActionView::WriteScript {
                path: script_path,
                contents: script,
            },
            RunnerView::ScriptWritten { script_path, .. } => ActionView::SetPermissions {
                path: script_path,
                mode: SCRIPT_MODE,
            },
            RunnerView::ScriptExecutable { force, script_path } => ActionView::Execute {
                program: interpreter(),
                arguments: script_arguments_spec(script_path, force),
            },
            RunnerView::ScriptExecuted { script_path, .. } => ActionView::RemoveScript {
                path: script_path,
            },
            RunnerView::Cleaned { result } => ActionView::Finish { result },
        }
    }

    /// Whether the run is over.
    pub open spec fn finished(self) -> bool {
        self is Cleaned
    }

    /// Whether the temporary script is on disk: it was written and has not
    /// been removed yet.
    pub open spec fn script_on_disk(self) -> bool {
        self is ScriptWritten || self is ScriptExecutable || self is ScriptExecuted
    }

    /// Whether this is a state of the run that was asked for with `force`
    /// and keeps its script at `script_path`.
    pub open spec fn belongs_to(self, force: bool, script_path: Seq<u8>) -> bool {
        match self {
            RunnerView::NotStarted { force: f, script_path: p, .. } => f == force && p == script_path,
            RunnerView::ScriptWritten { force: f, script_path: p } => f == force && p == script_path,
            RunnerView::ScriptExecutable { force: f, script_path: p } => f == force && p
                == script_path,
            RunnerView::ScriptExecuted { script_path: p, .. } => p == script_path,
            RunnerView::Cleaned { .. } => true,
        }
    }

    /// How many actions the host has yet to perform before the run is over,
    /// if none of them fails.
    pub open spec fn actions_left(self) -> nat {
        match self {
            RunnerView::NotStarted { .. } => 4,
            RunnerView::ScriptWritten { .. } => 3,
            RunnerView::ScriptExecutable { .. } => 2,
            RunnerView::ScriptExecuted { .. } => 1,
            RunnerView::Cleaned { .. } => 0,
        }
    }

    /// The state after the host has reported `events`, one after the other.
    pub open spec fn after(self, events: Seq<EventView>) -> RunnerView
        decreases events.len(),
    {
        if events.len() == 0 {
            self
        } else {
            self.advance(events.first()).after(events.drop_first())
        }
    }

    /// The action that is pending when the host gives the report
    /// `events[index]`.
    pub open spec fn pending_at(self, events: Seq<EventView>, index: int) -> ActionView {
        self.after(events.take(index)).action()
    }

    /// The state after the host has reported `event`. A report that does
    /// not answer the pending action changes nothing.
    pub open spec fn advance(self, event: EventView) -> RunnerView {
        match self {
            RunnerView::NotStarted { force, script_path, .. } => match event {
                EventView::Completed => RunnerView::ScriptWritten { force, script_path },
                EventView::Failed(detail) => RunnerView::Cleaned {
                    result: Err(write_failure_spec(detail)),
                },
                EventView::Exited(_) => self,
            },
            RunnerView::ScriptWritten { force, script_path } => match event {
                EventView::Completed => RunnerView::ScriptExecutable { force, script_path },
                EventView::Failed(detail) => RunnerView::ScriptExecuted {
                    script_path,
                    result: Err(permission_failure_spec(detail)),
                },
                EventView::Exited(_) => self,
            },
            RunnerView::ScriptExecutable { script_path, .. } => match event {
                EventView::Exited(execution) => RunnerView::ScriptExecuted {
                    script_path,
                    result: execution.outcome(),
                },
                EventView::Failed(detail) => RunnerView::ScriptExecuted {
                    script_path,
                    result: Err(spawn_failure_spec(detail)),
                },
                EventView::Completed => self,
            },
            RunnerView::ScriptExecuted { result, .. } => match event {
                EventView::Completed => RunnerView::Cleaned { result },
                EventView::Failed(_) => RunnerView::Cleaned { result },
                EventView::Exited(_) => self,
            },
            RunnerView::Cleaned { .. } => self,
        }
    }
}

/// `prefix` followed by `detail`.
fn prefixed(prefix: &str, detail: &str) -> (text: String)
    ensures
        text@ == prefix@ + detail@,
{
    let mut text = prefix.to_owned();
    text.append(detail);
    text
}

/// The diagnostic of a run on a platform that cannot run the script.
pub fn unsupported_platform() -> (text: String)
    ensures
        text@ == unsupported_platform_spec(),
{
    "该功能仅支持 macOS/Linux".to_owned()
}

/// The diagnostic of a run whose script could not be written.
pub fn write_failure(detail: &str) -> (text: String)
    ensures
        text@ == write_failure_spec(detail@),
{
    prefixed("写入临时脚本失败: ", detail)
}

/// The diagnostic of a run whose script could not be made executable.
pub fn permission_failure(detail: &str) -> (text: String)
    ensures
        text@ == permission_failure_spec(detail@),
{
    prefixed("设置脚本权限失败: ", detail)
}

/// The diagnostic of a run whose subprocess could not be launched or
/// awaited.
pub fn spawn_failure(detail: &str) -> (text: String)
    ensures
        text@ == spawn_failure_spec(detail@),
{
    prefixed("执行脚本失败: ", detail)
}

/// Appends `more` to `bytes`.
fn append(bytes: &mut Vec<u8>, more: &[u8])
    ensures
        final(bytes)@ == old(bytes)@ + more@,
{
    let mut done: usize = 0;
    while done < more.len()
        invariant
            done <= more.len(),
            bytes@ == old(bytes)@ + more@.take(done as int),
        decreases more.len() - done,
    {
        bytes.push(more[done]);
        done += 1;
        assert(bytes@ =~= old(bytes)@ + more@.take(done as int));
    }
    assert(more@.take(done as int) =~= more@);
}

/// The path of the temporary script inside `temp_dir`.
pub fn script_path(temp_dir: &[u8]) -> (path: Vec<u8>)
    ensures
        path@ == script_path_spec(temp_dir@),
{
    let mut path = slice_to_vec(temp_dir);
    if temp_dir.len() > 0 && temp_dir[temp_dir.len() - 1] != PATH_SEPARATOR {
        path.push(PATH_SEPARATOR);
        assert(path@ =~= temp_dir@ + seq![PATH_SEPARATOR]);
    }
    append(&mut path, "anti-clean.sh".as_bytes());
    path
}

/// The arguments with which the interpreter is run.
pub fn script_arguments(script_path: &[u8], force: bool) -> (arguments: Vec<Vec<u8>>)
    ensures
        arguments.deep_view() == script_arguments_spec(script_path@, force),
{
    let mut arguments: Vec<Vec<u8>> = Vec::new();
    arguments.push(slice_to_vec(script_path));
    if force {
        arguments.push(slice_to_vec("--force".as_bytes()));
    }
    assert(arguments.deep_view() =~~= script_arguments_spec(script_path@, force));
    arguments
}

/// A copy of a result.
fn copy_result(result: &Result<String, String>) -> (copy: Result<String, String>)
    ensures
        outcome_view(copy) == outcome_view(*result),
{
    match result {
        Ok(report) => Ok(report.clone()),
        Err(diagnostic) => Err(diagnostic.clone()),
    }
}

/// Begins a run on a platform that can run the script: nothing has been
/// done yet, and the script `script` is to be written into `temp_dir`.
pub fn run_anti_clean_unix(force: bool, temp_dir: &[u8], script: &str) -> (runner: ScriptRunner)
    ensures
        runner@ == RunnerView::started(force, temp_dir@, script@),
{
    ScriptRunner::NotStarted { force, script_path: script_path(temp_dir), script: script.to_owned() }
}

/// Begins a run. On a platform that cannot run the script the run is over
/// at once and nothing is asked of the host but to hand out the diagnostic.
pub fn run_anti_clean(force: bool, platform: Platform, temp_dir: &[u8], script: &str) -> (runner:
    ScriptRunner)
    ensures
        runner@ == RunnerView::launched(force, platform, temp_dir@, script@),
{
    if !platform.is_supported() {
        return ScriptRunner::Cleaned { result: Err(unsupported_platform()) };
    }
    run_anti_clean_unix(force, temp_dir, script)
}

impl ScriptRunner {
    /// The action that the host is to perform next.
    pub fn action(&self) -> (action: Action)
        ensures
            action@ == self@.action(),
    {
        match self {
            ScriptRunner::NotStarted { script_path, script, .. } => Action::WriteScript {
                path: slice_to_vec(script_path.as_slice()),
                contents: script.clone(),
            },
            ScriptRunner::ScriptWritten { script_path, .. } => Action::SetPermissions {
                path: slice_to_vec(script_path.as_slice()),
                mode: SCRIPT_MODE,
            },
            ScriptRunner::ScriptExecutable { force, script_path } => Action::Execute {
                program: "/bin/bash".to_owned(),
                arguments: script_arguments(script_path.as_slice(), *force),
            },
            ScriptRunner::ScriptExecuted { script_path, .. } => Action::RemoveScript {
                path: slice_to_vec(script_path.as_slice()),
            },
            ScriptRunner::Cleaned { result } => Action::Finish { result: copy_result(result) },
        }
    }

    /// Takes in the host's report on the pending action and moves on.
    pub fn advance(self, event: Event) -> (next: ScriptRunner)
        ensures
            next@ == self@.advance(event@),
    {
        match self {
            ScriptRunner::NotStarted { force, script_path, script } => match event {
                Event::Completed => ScriptRunner::ScriptWritten { force, script_path },
                Event::Failed(detail) => ScriptRunner::Cleaned {
                    result: Err(write_failure(detail.as_str())),
                },
                Event::Exited(_) => ScriptRunner::NotStarted { force, script_path, script },
            },
            ScriptRunner::ScriptWritten { force, script_path } => match event {
                Event::Completed => ScriptRunner::ScriptExecutable { force, script_path },
                Event::Failed(detail) => ScriptRunner::ScriptExecuted {
                    script_path,
                    result: Err(permission_failure(detail.as_str())),
                },
                Event::Exited(_) => ScriptRunner::ScriptWritten { force, script_path },
            },
            ScriptRunner::ScriptExecutable { force, script_path } => match event {
                Event::Exited(execution) => ScriptRunner::ScriptExecuted {
                    script_path,
                    result: execution.outcome(),
                },
                Event::Failed(detail) => ScriptRunner::ScriptExecuted {
                    script_path,
                    result: Err(spawn_failure(detail.as_str())),
                },
                Event::Completed => ScriptRunner::ScriptExecutable { force, script_path },
            },
            ScriptRunner::ScriptExecuted { script_path, result } => match event {
                Event::Completed => ScriptRunner::Cleaned { result },
                Event::Failed(_) => ScriptRunner::Cleaned { result },
                Event::Exited(_) => ScriptRunner::ScriptExecuted { script_path, result },
            },
            ScriptRunner::Cleaned { result } => ScriptRunner::Cleaned { result },
        }
    }
}

} // verus!
