//! From what a finished subprocess left behind to the result of the run.

use vstd::prelude::*;
use vstd::utf8::{decode_utf8, valid_utf8};
use crate::text::{captured_text, captured_text_spec, trimmed};

verus! {

/// What the host captured from the subprocess: whether its exit status
/// reports success, and the raw bytes of both output streams.
#[derive(Debug, PartialEq, Eq)]
pub struct ExecutionResult {
    pub success: bool,
    pub stdout: Vec<u8>,
    pub stderr: Vec<u8>,
}

/// Mathematical model of an [`ExecutionResult`].
pub struct ExecutionResultView {
    pub success: bool,
    pub stdout: Seq<u8>,
    pub stderr: Seq<u8>,
}

impl View for ExecutionResult {
    type V = ExecutionResultView;

    open spec fn view(&self) -> ExecutionResultView {
        ExecutionResultView { success: self.success, stdout: self.stdout@, stderr: self.stderr@ }
    }
}

/// Model of a run's result: the report on success, the diagnostic on failure.
pub type Outcome = Result<Seq<char>, Seq<char>>;

/// The model of an executable result value.
pub open spec fn outcome_view(result: Result<String, String>) -> Outcome {
    match result {
        Ok(report) => Ok(report@),
        Err(diagnostic) => Err(diagnostic@),
    }
}

/// The diagnostic of a failed script: whichever stream is not empty, or the
/// standard output, a line break and the standard error if neither is.
pub open spec fn failure_text_spec(stdout: Seq<char>, stderr: Seq<char>) -> Seq<char> {
    if stderr.len() == 0 {
        stdout
    } else if stdout.len() == 0 {
        stderr
    } else {
        stdout + seq!['\n'] + stderr
    }
}

/// The result of a script that exited: its standard output if the exit
/// status reports success, its diagnostic otherwise.
pub open spec fn script_outcome_spec(success: bool, stdout: Seq<char>, stderr: Seq<char>) -> Outcome {
    if success {
        Ok(stdout)
    } else {
        Err(failure_text_spec(stdout, stderr))
    }
}

impl ExecutionResultView {
    /// The result of the run that this execution settles: both streams are
    /// decoded lossily and trimmed before the exit status is looked at.
    pub open spec fn outcome(self) -> Outcome {
        script_outcome_spec(
            self.success,
            captured_text_spec(self.stdout),
            captured_text_spec(self.stderr),
        )
    }
}

/// Joins the two trimmed streams of a failed script into one diagnostic.
pub fn failure_text(stdout: String, stderr: String) -> (text: String)
    ensures
        text@ == failure_text_spec(stdout@, stderr@),
{
    if stderr.as_str().is_empty() {
        stdout
    } else if stdout.as_str().is_empty() {
        stderr
    } else {
        proof {
            reveal_strlit("\n");
        }
        let mut text = stdout;
        text.append("\n");
        text.append(stderr.as_str());
        assert("\n"@ =~= seq!['\n']);
        text
    }
}

/// Decides the result of a script that exited, from its exit status and the
/// decoded, trimmed text of its two streams.
pub fn script_outcome(success: bool, stdout: String, stderr: String) -> (result: Result<String, String>)
    ensures
        outcome_view(result) == script_outcome_spec(success, stdout@, stderr@),
{
    if success {
        Ok(stdout)
    } else {
        Err(failure_text(stdout, stderr))
    }
}

impl ExecutionResult {
    /// The result of the run that this execution settles.
    pub fn outcome(&self) -> (result: Result<String, String>)
        ensures
            outcome_view(result) == self@.outcome(),
    {
        let stdout = captured_text(self.stdout.as_slice());
        let stderr = captured_text(self.stderr.as_slice());
        script_outcome(self.success, stdout, stderr)
    }
}

/// The diagnostic of a failed script begins with its standard output and
/// ends with its standard error, and holds at most one character more than
/// the two.
pub proof fn lemma_failure_text_holds_both_streams(stdout: Seq<char>, stderr: Seq<char>)
    ensures
        stdout.is_prefix_of(failure_text_spec(stdout, stderr)),
        stderr.is_suffix_of(failure_text_spec(stdout, stderr)),
        failure_text_spec(stdout, stderr).len() <= stdout.len() + stderr.len() + 1,
        stdout.len() > 0 && stderr.len() > 0 ==> failure_text_spec(stdout, stderr).len()
            == stdout.len() + stderr.len() + 1 && failure_text_spec(stdout, stderr)[
            stdout.len() as int] == '\n',
{
    let text = failure_text_spec(stdout, stderr);
    assert(text.subrange(0, stdout.len() as int) =~= stdout);
    assert(text.subrange(text.len() - stderr.len(), text.len() as int) =~= stderr);
}

/// A script that exits with success never yields a failure, and one that
/// exits otherwise never yields a success, whatever it wrote.
pub proof fn lemma_outcome_follows_exit_status(execution: ExecutionResultView)
    ensures
        execution.success <==> execution.outcome() is Ok,
        execution.success ==> execution.outcome() == Ok::<Seq<char>, Seq<char>>(
            captured_text_spec(execution.stdout),
        ),
{
}

/// Where both streams are well-formed UTF-8 nothing in them is replaced:
/// the result is decided on their decoded, trimmed text.
pub proof fn lemma_outcome_of_well_formed_output(execution: ExecutionResultView)
    requires
        valid_utf8(execution.stdout),
        valid_utf8(execution.stderr),
    ensures
        execution.outcome() == script_outcome_spec(
            execution.success,
            trimmed(decode_utf8(execution.stdout)),
            trimmed(decode_utf8(execution.stderr)),
        ),
{
}

} // verus!
