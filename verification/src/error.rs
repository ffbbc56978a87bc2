//! The error taxonomy of the pipeline runner.
//!
//! Every error is fatal: the pipeline aborts at the failing step and reports
//! the step's identity and cause. Each variant carries what the report
//! needs — the path for a filesystem failure, the program and arguments for
//! a launch failure, and additionally the exit code when the program ran
//! but failed.

use vstd::prelude::*;
use vstd::string::StringExecFns;
use crate::step::{append_args, args_suffix, outcome_matches, outcome_succeeds, Step, StepOutcome,
    StepView};

verus! {

/// Why a pipeline step failed.
pub enum RunError {
    /// The workspace or its `output` subdirectory could not be created.
    FilesystemError { path: String },
    /// The named executable could not be launched.
    SpawnError { program: String, arguments: Vec<String> },
    /// The executable ran but terminated with a non-zero exit status.
    NonZeroExitError { program: String, arguments: Vec<String>, code: i32 },
}

/// The mathematical value of a [`RunError`].
#[verifier::ext_equal]
pub enum ErrorView {
    FilesystemError { path: Seq<char> },
    SpawnError { program: Seq<char>, arguments: Seq<Seq<char>> },
    NonZeroExitError { program: Seq<char>, arguments: Seq<Seq<char>>, code: int },
}

impl View for RunError {
    type V = ErrorView;

    open spec fn view(&self) -> ErrorView {
        match self {
            RunError::FilesystemError { path } => ErrorView::FilesystemError { path: path@ },
            RunError::SpawnError { program, arguments } => ErrorView::SpawnError {
                program: program@,
                arguments: arguments.deep_view(),
            },
            RunError::NonZeroExitError { program, arguments, code } => {
                ErrorView::NonZeroExitError {
                    program: program@,
                    arguments: arguments.deep_view(),
                    code: *code as int,
                }
            },
        }
    }
}

/// One decimal digit as a character sequence.
pub open spec fn digit_str(d: int) -> Seq<char>
    recommends
        0 <= d < 10,
{
    if d == 0 {
        "0"@
    } else if d == 1 {
        "1"@
    } else if d == 2 {
        "2"@
    } else if d == 3 {
        "3"@
    } else if d == 4 {
        "4"@
    } else if d == 5 {
        "5"@
    } else if d == 6 {
        "6"@
    } else if d == 7 {
        "7"@
    } else if d == 8 {
        "8"@
    } else {
        "9"@
    }
}

/// The decimal digits of a non-negative number, most significant first,
/// without a sign and without leading zeros (except for zero itself).
pub open spec fn decimal_digits(n: int) -> Seq<char>
    recommends
        n >= 0,
    decreases n,
{
    if n < 10 {
        digit_str(n)
    } else {
        decimal_digits(n / 10) + digit_str(n % 10)
    }
}

/// The decimal rendering of an integer: a minus sign for a negative one,
/// then its digits.
pub open spec fn decimal_view(n: int) -> Seq<char> {
    if n < 0 {
        "-"@ + decimal_digits(-n)
    } else {
        decimal_digits(n)
    }
}

/// Appends the decimal digits of `n` to `line`.
fn append_digits(line: &mut String, n: u32)
    ensures
        final(line)@ == old(line)@ + decimal_digits(n as int),
    decreases n,
{
    if n >= 10 {
        append_digits(line, n / 10);
    }
    let d = n % 10;
    let digit: &str = if d == 0 {
        "0"
    } else if d == 1 {
        "1"
    } else if d == 2 {
        "2"
    } else if d == 3 {
        "3"
    } else if d == 4 {
        "4"
    } else if d == 5 {
        "5"
    } else if d == 6 {
        "6"
    } else if d == 7 {
        "7"
    } else if d == 8 {
        "8"
    } else {
        "9"
    };
    line.append(digit);
    proof {
        if n >= 10 {
            assert(old(line)@ + decimal_digits(n as int / 10) + digit_str(n as int % 10) =~= old(
                line,
            )@ + decimal_digits(n as int));
        }
    }
}

/// Appends the decimal rendering of `code` to `line`.
fn append_decimal(line: &mut String, code: i32)
    ensures
        final(line)@ == old(line)@ + decimal_view(code as int),
{
    let magnitude: u32 = if code < 0 {
        line.append("-");
        (-(code as i64)) as u32
    } else {
        code as u32
    };
    append_digits(line, magnitude);
    proof {
        assert(line@ =~= old(line)@ + decimal_view(code as int));
    }
}

/// A clone of a string vector, element by element.
fn clone_strings(v: &Vec<String>) -> (r: Vec<String>)
    ensures
        r.deep_view() == v.deep_view(),
{
    let mut r: Vec<String> = Vec::new();
    let mut i: usize = 0;
    while i < v.len()
        invariant
            i <= v.len(),
            r.deep_view() == v.deep_view().take(i as int),
        decreases v.len() - i,
    {
        let s = v[i].clone();
        proof {
            assert(r.deep_view().len() == r@.len());
        }
        r.push(s);
        proof {
            assert(r.deep_view() =~= v.deep_view().take(i + 1));
        }
        i += 1;
    }
    proof {
        assert(r.deep_view() =~= v.deep_view());
    }
    r
}

/// The report of a failure: the line names the failing command and its
/// arguments (or the workspace path), and the exit code when the command
/// ran but failed.
pub open spec fn describe_view(e: ErrorView) -> Seq<char> {
    match e {
        ErrorView::FilesystemError { path } => {
            "Filesystem error: could not create workspace directories under "@ + path
        },
        ErrorView::SpawnError { program, arguments } => {
            "Spawn error: could not launch: "@ + program + args_suffix(arguments)
        },
        ErrorView::NonZeroExitError { program, arguments, code } => {
            "Command failed with exit code "@ + decimal_view(code) + ": "@ + program + args_suffix(
                arguments,
            )
        },
    }
}

impl RunError {
    /// The human-readable report of this failure.
    pub fn describe(&self) -> (r: String)
        ensures
            r@ == describe_view(self@),
    {
        match self {
            RunError::FilesystemError { path } => {
                let mut r = "Filesystem error: could not create workspace directories under "
                    .to_owned();
                r.append(path.as_str());
                r
            },
            RunError::SpawnError { program, arguments } => {
                let mut r = "Spawn error: could not launch: ".to_owned();
                r.append(program.as_str());
                append_args(&mut r, arguments);
                r
            },
            RunError::NonZeroExitError { program, arguments, code } => {
                let mut r = "Command failed with exit code ".to_owned();
                append_decimal(&mut r, *code);
                r.append(": ");
                r.append(program.as_str());
                append_args(&mut r, arguments);
                proof {
                    assert(r@ =~= describe_view(self@));
                }
                r
            },
        }
    }

    /// The error reported for a failing step, carrying the step's own
    /// fields (and the exit code when the command ran but failed).
    pub fn for_step(step: &Step, outcome: StepOutcome) -> (r: RunError)
        requires
            outcome_matches(step@, outcome),
            !outcome_succeeds(outcome),
        ensures
            r@ == error_of(step@, outcome),
    {
        match step {
            Step::PrepareWorkspace { path } => RunError::FilesystemError { path: path.clone() },
            Step::Command { program, arguments } => {
                let program = program.clone();
                let arguments = clone_strings(arguments);
                match outcome {
                    StepOutcome::Exited { code } => RunError::NonZeroExitError {
                        program,
                        arguments,
                        code,
                    },
                    _ => RunError::SpawnError { program, arguments },
                }
            },
        }
    }
}

/// The error a step's failing outcome turns into: a filesystem error for
/// workspace preparation; for a command, a spawn error when it could not be
/// launched and a non-zero-exit error, carrying the code, when it ran but
/// failed.
pub open spec fn error_of(step: StepView, outcome: StepOutcome) -> ErrorView
    recommends
        outcome_matches(step, outcome),
        !outcome_succeeds(outcome),
{
    match step {
        StepView::PrepareWorkspace { path } => ErrorView::FilesystemError { path },
        StepView::Command { program, arguments } => match outcome {
            StepOutcome::Exited { code } => ErrorView::NonZeroExitError {
                program,
                arguments,
                code: code as int,
            },
            _ => ErrorView::SpawnError { program, arguments },
        },
    }
}

} // verus!
