//! The launch of the container as a sequence of three steps: write the
//! build script, build the image, start the container.
//!
//! This module decides; it performs nothing. The caller carries out the
//! action of the stage it is in, reports what it saw, and is told the next
//! stage. The first failure ends the launch.

use crate::error::LaunchError;
use vstd::prelude::*;

verus! {

/// Where a launch stands.
#[derive(Debug, Clone, Copy, PartialEq, Eq, Structural)]
pub enum Stage {
    /// The build script is to be written.
    Write,
    /// The image is to be built.
    Build,
    /// The container is to be started.
    Run,
    /// The container was started.
    Done,
    /// A step failed; nothing more is done.
    Failed(LaunchError),
}

/// What the caller saw when it carried out an action.
#[derive(Debug, Clone, Copy, PartialEq, Eq, Structural)]
pub enum Outcome {
    /// The file was written, or the program was started and not waited for.
    Completed,
    /// The program was waited for and ended, with this exit code if it has
    /// one.
    Exited(Option<i32>),
    /// The file could not be written, or the program could not be started.
    Failed,
}

/// Something for the caller to carry out.
#[derive(Debug, PartialEq, Eq)]
pub enum Action {
    /// Write `contents` to the file `path` in the working directory,
    /// replacing what is there.
    WriteFile { path: String, contents: String },
    /// Start `program` with `args` and wait until it ends.
    RunToEnd { program: String, args: Vec<String> },
    /// Start `program` with `args`, on the caller's own standard streams,
    /// and do not wait for it.
    Start { program: String, args: Vec<String> },
}

/// The contents of an [`Action`].
pub enum ActionView {
    WriteFile { path: Seq<char>, contents: Seq<char> },
    RunToEnd { program: Seq<char>, args: Seq<Seq<char>> },
    Start { program: Seq<char>, args: Seq<Seq<char>> },
}

impl View for Action {
    type V = ActionView;

    open spec fn view(&self) -> ActionView {
        match *self {
            Action::WriteFile { path, contents } => ActionView::WriteFile {
                path: path@,
                contents: contents@,
            },
            Action::RunToEnd { program, args } => ActionView::RunToEnd {
                program: program@,
                args: args.deep_view(),
            },
            Action::Start { program, args } => ActionView::Start {
                program: program@,
                args: args.deep_view(),
            },
        }
    }
}

/// The name of the file that the build script is written to.
pub open spec fn script_file() -> Seq<char> {
    "Dockerfile"@
}

/// The container engine's program.
pub open spec fn engine() -> Seq<char> {
    "podman"@
}

/// The name that the built image is given and run under.
pub open spec fn image() -> Seq<char> {
    "pycharm"@
}

/// The arguments that build the image from the script in the working
/// directory.
pub open spec fn build_args() -> Seq<Seq<char>> {
    seq!["build"@, "-t"@, image(), "."@]
}

/// The arguments that run the image in a container that is removed when it
/// ends, with the host's display: `DISPLAY` is passed on, the X11 socket
/// directory is mounted, and the security label is overridden.
pub open spec fn run_args() -> Seq<Seq<char>> {
    seq![
        "run"@,
        "--rm"@,
        "-e"@,
        "DISPLAY"@,
        "-v"@,
        "/tmp/.X11-unix:/tmp/.X11-unix"@,
        "--security-opt"@,
        "label=type:container_runtime_t"@,
        image(),
    ]
}

/// The action of `stage` in a launch of `script`; none once the launch has
/// ended.
pub open spec fn planned_action(stage: Stage, script: Seq<char>) -> Option<ActionView> {
    match stage {
        Stage::Write => Some(ActionView::WriteFile { path: script_file(), contents: script }),
        Stage::Build => Some(ActionView::RunToEnd { program: engine(), args: build_args() }),
        Stage::Run => Some(ActionView::Start { program: engine(), args: run_args() }),
        Stage::Done | Stage::Failed(_) => None,
    }
}

/// Whether `outcome` is the success of the action of `stage`. A build
/// succeeds only by ending with exit code 0.
pub open spec fn succeeded(stage: Stage, outcome: Outcome) -> bool {
    match stage {
        Stage::Write | Stage::Run => outcome == Outcome::Completed,
        Stage::Build => outcome == Outcome::Exited(Some(0i32)),
        Stage::Done | Stage::Failed(_) => false,
    }
}

/// The stage that follows `stage` when its action had `outcome`.
pub open spec fn next_stage(stage: Stage, outcome: Outcome) -> Stage {
    match stage {
        Stage::Write => if succeeded(stage, outcome) {
            Stage::Build
        } else {
            Stage::Failed(LaunchError::Write)
        },
        Stage::Build => if succeeded(stage, outcome) {
            Stage::Run
        } else {
            Stage::Failed(LaunchError::Build)
        },
        Stage::Run => if succeeded(stage, outcome) {
            Stage::Done
        } else {
            Stage::Failed(LaunchError::Spawn)
        },
        Stage::Done | Stage::Failed(_) => stage,
    }
}

fn build_arguments() -> (args: Vec<String>)
    ensures
        args.deep_view() == build_args(),
{
    let mut args: Vec<String> = Vec::new();
    args.push(String::from_str("build"));
    args.push(String::from_str("-t"));
    args.push(String::from_str("pycharm"));
    args.push(String::from_str("."));
    assert(args.deep_view() =~= build_args());
    args
}

fn run_arguments() -> (args: Vec<String>)
    ensures
        args.deep_view() == run_args(),
{
    let mut args: Vec<String> = Vec::new();
    args.push(String::from_str("run"));
    args.push(String::from_str("--rm"));
    args.push(String::from_str("-e"));
    args.push(String::from_str("DISPLAY"));
    args.push(String::from_str("-v"));
    args.push(String::from_str("/tmp/.X11-unix:/tmp/.X11-unix"));
    args.push(String::from_str("--security-opt"));
    args.push(String::from_str("label=type:container_runtime_t"));
    args.push(String::from_str("pycharm"));
    assert(args.deep_view() =~= run_args());
    args
}

impl Stage {
    /// The action to carry out at this stage of a launch of `script`, or
    /// `None` where the launch has ended.
    pub fn action(&self, script: &str) -> (res: Option<Action>)
        ensures
            match res {
                Some(action) => planned_action(*self, script@) == Some(action@),
                None => planned_action(*self, script@) is None,
            },
    {
        match self {
            Stage::Write => Some(
                Action::WriteFile {
                    path: String::from_str("Dockerfile"),
                    contents: String::from_str(script),
                },
            ),
            Stage::Build => Some(
                Action::RunToEnd { program: String::from_str("podman"), args: build_arguments() },
            ),
            Stage::Run => Some(
                Action::Start { program: String::from_str("podman"), args: run_arguments() },
            ),
            Stage::Done => None,
            Stage::Failed(_) => None,
        }
    }

    /// The stage that follows this one when its action had `outcome`: the
    /// next step after a success, `Failed` with this step's error after
    /// anything else. A launch that has ended stays as it is.
    pub fn after(self, outcome: Outcome) -> (next: Stage)
        ensures
            next == next_stage(self, outcome),
    {
        match self {
            Stage::Write => match outcome {
                Outcome::Completed => Stage::Build,
                _ => Stage::Failed(LaunchError::Write),
            },
            Stage::Build => match outcome {
                Outcome::Exited(Some(0)) => Stage::Run,
                _ => Stage::Failed(LaunchError::Build),
            },
            Stage::Run => match outcome {
                Outcome::Completed => Stage::Done,
                _ => Stage::Failed(LaunchError::Spawn),
            },
            Stage::Done => Stage::Done,
            Stage::Failed(e) => Stage::Failed(e),
        }
    }
}

/// A launch starts the container exactly where all three steps succeed, one
/// after the other: the script is written, the build ends with exit code 0,
/// and the container starts.
pub proof fn lemma_done_iff_every_step_succeeded(write: Outcome, build: Outcome, run: Outcome)
    ensures
        next_stage(next_stage(next_stage(Stage::Write, write), build), run) == Stage::Done <==> (
        write == Outcome::Completed && build == Outcome::Exited(Some(0i32)) && run
            == Outcome::Completed),
{
}

/// A launch that has ended plans no action and stays as it is, whatever is
/// reported to it: nothing follows the first failure.
pub proof fn lemma_ended_launch_is_final(stage: Stage, outcome: Outcome, script: Seq<char>)
    requires
        stage == Stage::Done || stage is Failed,
    ensures
        planned_action(stage, script) is None,
        next_stage(stage, outcome) == stage,
{
}

} // verus!
