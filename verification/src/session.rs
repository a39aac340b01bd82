//! What a fuzzing session does around the test cases: where the emulated program is stopped, what
//! has to be loaded before the first run, and how the end of the session is taken.

use vstd::prelude::*;

verus! {

/// Distance from `main` to the instruction past its argument parsing, before the input file is
/// opened.
pub const ENTRY_OFFSET: u64 = 0x178;

/// Distance from `main` to the instruction at which a run ends, before `main` returns.
pub const RETURN_OFFSET: u64 = 0x144;

/// One thing to have the emulator do.
#[derive(Clone, Copy, Debug, PartialEq, Eq, Structural)]
pub enum EmulatorStep {
    SetBreakpoint(u64),
    RemoveBreakpoint(u64),
    /// Run until a breakpoint is reached.
    Run,
}

/// The steps that bring the emulated program to where every test case starts.
pub open spec fn startup(main_ptr: u64) -> Seq<EmulatorStep> {
    let adjusted_main_ptr = (main_ptr + ENTRY_OFFSET) as u64;
    let ret_addr = (main_ptr + RETURN_OFFSET) as u64;
    seq![
        EmulatorStep::SetBreakpoint(adjusted_main_ptr),
        EmulatorStep::Run,
        EmulatorStep::RemoveBreakpoint(adjusted_main_ptr),
        EmulatorStep::SetBreakpoint(ret_addr),
    ]
}

/// Given the address of `main`, the steps to take in order: stop past the argument parsing, then
/// move the breakpoint to where a run ends.
pub fn startup_steps(main_ptr: u64) -> (steps: Vec<EmulatorStep>)
    requires
        main_ptr + ENTRY_OFFSET <= u64::MAX,
    ensures
        steps@ == startup(main_ptr),
{
    let adjusted_main_ptr: u64 = main_ptr + ENTRY_OFFSET;
    let ret_addr: u64 = main_ptr + RETURN_OFFSET;
    let mut steps: Vec<EmulatorStep> = Vec::new();
    steps.push(EmulatorStep::SetBreakpoint(adjusted_main_ptr));
    steps.push(EmulatorStep::Run);
    steps.push(EmulatorStep::RemoveBreakpoint(adjusted_main_ptr));
    steps.push(EmulatorStep::SetBreakpoint(ret_addr));
    steps
}

/// Whether the token files are to be read: only where there are any, and where a restarted session
/// did not bring its tokens along.
pub fn token_files_due(has_tokens: bool, token_files: usize) -> (due: bool)
    ensures
        due == (!has_tokens && token_files > 0),
{
    !has_tokens && token_files != 0
}

/// Whether the initial test cases are to be loaded: only into an empty corpus.
pub fn initial_inputs_due(corpus_count: usize) -> (due: bool)
    ensures
        due == (corpus_count == 0),
{
    corpus_count < 1
}

/// Why the clients of a session ended.
#[derive(Debug)]
pub enum LaunchError {
    /// The user stopped the session.
    ShuttingDown,
    /// Anything else, as its debug text.
    Other(String),
}

/// How the program ends.
#[derive(Debug)]
pub enum Conclusion {
    /// With success.
    Done,
    /// With success, after printing a text.
    DoneWith(String),
    /// By a panic with a text.
    Fail(String),
}

/// How the program ends once its clients ended with `result`: being stopped by the user is a
/// success, any other error is not.
pub fn conclude(result: Result<(), LaunchError>) -> (conclusion: Conclusion)
    ensures
        match result {
            Ok(_) => conclusion is Done,
            Err(LaunchError::ShuttingDown) => conclusion is DoneWith && conclusion->DoneWith_0@
                == "Fuzzing stopped by user. Good bye."@,
            Err(LaunchError::Other(text)) => conclusion is Fail && conclusion->Fail_0@
                == "Failed to run launcher: "@ + text@,
        },
{
    match result {
        Ok(_) => Conclusion::Done,
        Err(LaunchError::ShuttingDown) => Conclusion::DoneWith(
            String::from_str("Fuzzing stopped by user. Good bye."),
        ),
        Err(LaunchError::Other(text)) => Conclusion::Fail(
            String::from_str("Failed to run launcher: ").concat(text.as_str()),
        ),
    }
}

} // verus!
