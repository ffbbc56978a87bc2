//! Pipeline steps and their execution outcomes.
//!
//! A step is either the preparation of the workspace directory or one
//! external command invocation (a program name plus an ordered argument
//! list). A step is immutable once defined and is consumed exactly once
//! during execution. The outcome of performing a step is reported back to
//! the executor as a [`StepOutcome`].

use vstd::prelude::*;
use vstd::string::StringExecFns;

verus! {

/// One unit of pipeline work, executed by the caller on the executor's
/// behalf.
pub enum Step {
    /// Ensure the workspace directory at `path` and its `output`
    /// subdirectory exist, creating missing intermediate directories.
    PrepareWorkspace { path: String },
    /// Spawn `program` with `arguments` and wait for it to terminate.
    Command { program: String, arguments: Vec<String> },
}

/// The mathematical value of a [`Step`]: every string replaced by its
/// character sequence.
#[verifier::ext_equal]
pub enum StepView {
    PrepareWorkspace { path: Seq<char> },
    Command { program: Seq<char>, arguments: Seq<Seq<char>> },
}

impl View for Step {
    type V = StepView;

    open spec fn view(&self) -> StepView {
        match self {
            Step::PrepareWorkspace { path } => StepView::PrepareWorkspace { path: path@ },
            Step::Command { program, arguments } => StepView::Command {
                program: program@,
                arguments: arguments.deep_view(),
            },
        }
    }
}

impl DeepView for Step {
    type V = StepView;

    open spec fn deep_view(&self) -> StepView {
        self.view()
    }
}

/// The arguments of a command as they are rendered in a log line: one
/// leading space before each argument, in order.
pub open spec fn args_suffix(arguments: Seq<Seq<char>>) -> Seq<char>
    decreases arguments.len(),
{
    if arguments.len() == 0 {
        Seq::empty()
    } else {
        args_suffix(arguments.drop_last()) + " "@ + arguments.last()
    }
}

/// The log line announcing a step, emitted before the step is performed:
/// the command with its arguments, or the workspace path.
pub open spec fn invocation_line_view(step: StepView) -> Seq<char> {
    match step {
        StepView::PrepareWorkspace { path } => "Preparing workspace: "@ + path,
        StepView::Command { program, arguments } => {
            "Running: "@ + program + args_suffix(arguments)
        },
    }
}

/// Appends each argument to `line`, preceded by one space.
pub(crate) fn append_args(line: &mut String, arguments: &Vec<String>)
    ensures
        final(line)@ == old(line)@ + args_suffix(arguments.deep_view()),
{
    let ghost rendered = arguments.deep_view();
    let ghost prefix = line@;
    let mut i: usize = 0;
    while i < arguments.len()
        invariant
            i <= arguments.len(),
            rendered == arguments.deep_view(),
            line@ == prefix + args_suffix(rendered.take(i as int)),
        decreases arguments.len() - i,
    {
        line.append(" ");
        line.append(arguments[i].as_str());
        proof {
            assert(rendered.take(i + 1).drop_last() =~= rendered.take(i as int));
            assert(rendered.take(i + 1).last() == rendered[i as int]);
            assert(line@ =~= prefix + args_suffix(rendered.take(i + 1)));
        }
        i += 1;
    }
    proof {
        assert(rendered.take(arguments@.len() as int) =~= rendered);
    }
}

impl Step {
    /// The log line announcing this step.
    pub fn invocation_line(&self) -> (r: String)
        ensures
            r@ == invocation_line_view(self@),
    {
        match self {
            Step::PrepareWorkspace { path } => {
                let mut r = "Preparing workspace: ".to_owned();
                r.append(path.as_str());
                r
            },
            Step::Command { program, arguments } => {
                let mut r = "Running: ".to_owned();
                r.append(program.as_str());
                append_args(&mut r, arguments);
                r
            },
        }
    }
}

/// What happened when the caller performed one step.
#[derive(Clone, Copy, PartialEq, Eq, Structural, Debug)]
pub enum StepOutcome {
    /// The workspace directory and its `output` subdirectory exist.
    WorkspaceReady,
    /// The filesystem refused to create the workspace directories.
    WorkspaceFailed,
    /// The command was spawned and terminated with the given exit code.
    Exited { code: i32 },
    /// The command could not be launched at all (not found, not executable).
    SpawnFailed,
}

/// An outcome reports the result of the kind of work the step asked for:
/// a filesystem result for workspace preparation, a spawn result for a
/// command.
pub open spec fn outcome_matches(step: StepView, outcome: StepOutcome) -> bool {
    match step {
        StepView::PrepareWorkspace { .. } => {
            outcome is WorkspaceReady || outcome is WorkspaceFailed
        },
        StepView::Command { .. } => outcome is Exited || outcome is SpawnFailed,
    }
}

/// A step succeeds when the workspace is ready, or when the spawned command
/// exits with status zero. Every other outcome is a failure and aborts the
/// pipeline.
pub open spec fn outcome_succeeds(outcome: StepOutcome) -> bool {
    match outcome {
        StepOutcome::WorkspaceReady => true,
        StepOutcome::WorkspaceFailed => false,
        StepOutcome::Exited { code } => code == 0,
        StepOutcome::SpawnFailed => false,
    }
}

} // verus!
