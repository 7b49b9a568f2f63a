//! What the process runner decides: how the compiler is invoked, where the
//! executable lies, and what is reported of one execution.

use std::time::Duration;
use vstd::prelude::*;

verus! {

/// What one execution of the solution yielded.
#[derive(Debug, PartialEq, Eq)]
pub struct RunResult {
    pub success: bool,
    pub output: String,
    pub execution_time: Duration,
}

/// How the supervised process ended, as the supervisor saw it.
#[derive(Debug, PartialEq, Eq)]
pub enum Outcome {
    /// The process exited within the time limit.
    Exited { success: bool, stdout: Vec<u8>, elapsed: Duration },
    /// The process was still running when the time limit passed, and was
    /// killed.
    TimedOut,
}

/// The invocation of the compiler: the program and its arguments in order.
#[derive(Debug, PartialEq, Eq)]
pub struct CompileCommand {
    pub program: String,
    pub args: Vec<String>,
}

/// The text that `String::from_utf8_lossy` decodes the bytes to.
pub uninterp spec fn lossy_text(bytes: Seq<u8>) -> Seq<char>;

/// The characters of each string, in order.
pub open spec fn texts(v: Seq<String>) -> Seq<Seq<char>> {
    v.map_values(|s: String| s@)
}

/// The output reported for an execution that ran out of time.
pub open spec fn timeout_text() -> Seq<char> {
    "Time limit exceeded"@
}

/// Where the executable of a source file lies: the source path with the
/// suffix `.out`.
pub open spec fn executable_path(source: Seq<char>) -> Seq<char> {
    source + ".out"@
}

/// The compiler's arguments: C++17, optimisation level 2, the source file, and
/// the executable as the output.
pub open spec fn compiler_arguments(source: Seq<char>) -> Seq<Seq<char>> {
    seq!["-std=c++17"@, "-O2"@, source, "-o"@, executable_path(source)]
}

/// Calls `String::from_utf8_lossy`, which decodes UTF-8 and puts U+FFFD in
/// place of each invalid sequence. Bytes that are valid UTF-8 decode to their
/// text; of other bytes the contract fixes only that the same bytes give the
/// same text.
#[verifier::external_body]
fn decode_lossy(bytes: &[u8]) -> (text: String)
    ensures
        text@ == lossy_text(bytes@),
        vstd::utf8::valid_utf8(bytes@) ==> text@ == vstd::utf8::decode_utf8(bytes@),
{
    String::from_utf8_lossy(bytes).into_owned()
}

/// The path of the executable that compiling `source_file` produces.
pub fn executable_for(source_file: &str) -> (path: String)
    ensures
        path@ == executable_path(source_file@),
{
    source_file.to_owned().concat(".out")
}

/// The compiler invocation for `source_file`.
pub fn compile_command(source_file: &str) -> (command: CompileCommand)
    ensures
        command.program@ == "g++"@,
        texts(command.args@) == compiler_arguments(source_file@),
{
    let mut args: Vec<String> = Vec::new();
    args.push("-std=c++17".to_owned());
    args.push("-O2".to_owned());
    args.push(source_file.to_owned());
    args.push("-o".to_owned());
    args.push(executable_for(source_file));
    assert(texts(args@) =~= compiler_arguments(source_file@));
    CompileCommand { program: "g++".to_owned(), args }
}

impl RunResult {
    /// The result of an execution that exited in time: whether it exited
    /// normally, the text it printed, and the time it took.
    pub fn exited(success: bool, output: String, elapsed: Duration) -> (r: RunResult)
        ensures
            r.success == success,
            r.output == output,
            r.execution_time == elapsed,
    {
        RunResult { success, output, execution_time: elapsed }
    }

    /// The result of an execution that ran out of time: a failure whose output
    /// is the fixed text and whose time is the limit itself, not a measurement.
    pub fn timed_out(time_limit: Duration) -> (r: RunResult)
        ensures
            !r.success,
            r.output@ == timeout_text(),
            r.execution_time == time_limit,
    {
        RunResult { success: false, output: "Time limit exceeded".to_owned(), execution_time: time_limit }
    }

    /// Whether `self` is what is reported of `outcome` under `time_limit`.
    pub open spec fn reports(self, outcome: Outcome, time_limit: Duration) -> bool {
        match outcome {
            Outcome::Exited { success, stdout, elapsed } => {
                &&& self.success == success
                &&& self.output@ == lossy_text(stdout@)
                &&& self.execution_time == elapsed
            },
            Outcome::TimedOut => {
                &&& !self.success
                &&& self.output@ == timeout_text()
                &&& self.execution_time == time_limit
            },
        }
    }

    /// The result reported of one execution. The captured bytes are decoded
    /// permissively; an empty capture gives an empty output.
    pub fn from_outcome(outcome: Outcome, time_limit: Duration) -> (r: RunResult)
        ensures
            r.reports(outcome, time_limit),
            outcome matches Outcome::Exited { stdout, .. } ==> (vstd::utf8::valid_utf8(stdout@)
                ==> r.output@ == vstd::utf8::decode_utf8(stdout@)),
            outcome matches Outcome::Exited { stdout, .. } ==> (stdout@.len() == 0
                ==> r.output@ == Seq::<char>::empty()),
    {
        match outcome {
            Outcome::Exited { success, stdout, elapsed } => {
                let output = decode_lossy(stdout.as_slice());
                RunResult::exited(success, output, elapsed)
            },
            Outcome::TimedOut => RunResult::timed_out(time_limit),
        }
    }
}

} // verus!
