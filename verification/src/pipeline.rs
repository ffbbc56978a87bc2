//! Pipeline definition.
//!
//! A pipeline is an ordered sequence of steps together with a build
//! identifier (used only for the final status message) and the workspace
//! root path. It is constructed once and never mutated; steps execute in
//! declaration order.

use vstd::prelude::*;
use vstd::string::StringExecFns;
use crate::step::{Step, StepView};

verus! {

/// An ordered list of steps for one build.
pub struct Pipeline {
    /// Opaque label, echoed in the success message.
    pub build_id: String,
    /// Root directory the build works in.
    pub workspace_root: String,
    /// The steps, in execution order.
    pub steps: Vec<Step>,
}

/// The mathematical value of a [`Pipeline`].
#[verifier::ext_equal]
pub struct PipelineView {
    pub build_id: Seq<char>,
    pub workspace_root: Seq<char>,
    pub steps: Seq<StepView>,
}

impl View for Pipeline {
    type V = PipelineView;

    open spec fn view(&self) -> PipelineView {
        PipelineView {
            build_id: self.build_id@,
            workspace_root: self.workspace_root@,
            steps: self.steps.deep_view(),
        }
    }
}

/// The path of the `output` subdirectory beneath the workspace root.
pub open spec fn output_dir_view(workspace_root: Seq<char>) -> Seq<char> {
    workspace_root + "/output"@
}

/// The path string of the `output` subdirectory beneath `workspace_root`.
pub fn output_dir(workspace_root: &str) -> (r: String)
    ensures
        r@ == output_dir_view(workspace_root@),
{
    let mut r = workspace_root.to_owned();
    r.append("/output");
    r
}

/// An invocation of `bash` on one script.
pub open spec fn bash_script_step(script: Seq<char>) -> StepView {
    StepView::Command { program: "bash"@, arguments: seq![script] }
}

/// The steps of the fixed build pipeline, in order: prepare the workspace,
/// install the developer tools, configure the system, run the test suite
/// and the report generator, and upload the `output` directory to
/// content-addressed storage.
pub open spec fn standard_steps(workspace_root: Seq<char>) -> Seq<StepView> {
    seq![
        StepView::PrepareWorkspace { path: workspace_root },
        bash_script_step("tools/install-xcode.sh"@),
        bash_script_step("tools/install-homebrew.sh"@),
        bash_script_step("tools/install-node.sh"@),
        bash_script_step("configure/configure-tccdb.sh"@),
        bash_script_step("configure/configure-shell.sh"@),
        bash_script_step("tests/run-tests.sh"@),
        bash_script_step("tests/generate-report.sh"@),
        (StepView::Command {
            program: "ipfs"@,
            arguments: seq!["add"@, "-r"@, output_dir_view(workspace_root)],
        }),
    ]
}

/// An invocation of `bash` on one script, as an executable step.
fn script_step(script: &str) -> (s: Step)
    ensures
        s@ == bash_script_step(script@),
{
    let mut arguments: Vec<String> = Vec::new();
    arguments.push(script.to_owned());
    let s = Step::Command { program: "bash".to_owned(), arguments };
    proof {
        assert(s@->Command_arguments =~= seq![script@]);
    }
    s
}

impl Pipeline {
    /// A pipeline from its parts.
    pub fn new(workspace_root: String, build_id: String, steps: Vec<Step>) -> (p: Pipeline)
        ensures
            p@ == (PipelineView {
                build_id: build_id@,
                workspace_root: workspace_root@,
                steps: steps.deep_view(),
            }),
    {
        Pipeline { build_id, workspace_root, steps }
    }

    /// The fixed build pipeline over the given workspace root and build
    /// identifier.
    pub fn standard(workspace_root: String, build_id: String) -> (p: Pipeline)
        ensures
            p@.build_id == build_id@,
            p@.workspace_root == workspace_root@,
            p@.steps == standard_steps(workspace_root@),
    {
        let mut steps: Vec<Step> = Vec::new();
        steps.push(Step::PrepareWorkspace { path: workspace_root.clone() });
        steps.push(script_step("tools/install-xcode.sh"));
        steps.push(script_step("tools/install-homebrew.sh"));
        steps.push(script_step("tools/install-node.sh"));
        steps.push(script_step("configure/configure-tccdb.sh"));
        steps.push(script_step("configure/configure-shell.sh"));
        steps.push(script_step("tests/run-tests.sh"));
        steps.push(script_step("tests/generate-report.sh"));
        let mut upload_args: Vec<String> = Vec::new();
        upload_args.push("add".to_owned());
        upload_args.push("-r".to_owned());
        upload_args.push(output_dir(workspace_root.as_str()));
        let upload = Step::Command { program: "ipfs".to_owned(), arguments: upload_args };
        proof {
            assert(upload@->Command_arguments =~= seq![
                "add"@,
                "-r"@,
                output_dir_view(workspace_root@),
            ]);
        }
        steps.push(upload);
        let p = Pipeline { build_id, workspace_root, steps };
        proof {
            assert(p@.steps =~= standard_steps(p@.workspace_root));
        }
        p
    }
}

} // verus!
