//! The control-flow decisions of a run: what a command line asks for, which
//! answers the overwrite confirmation accepts, and the step-by-step protocol
//! of a rasterizer invocation. The driver performs the I/O that each decision
//! calls for and reports the outcome back as an event.

use vstd::prelude::*;
use crate::names::name_views;

verus! {

/// What a command line asks the program to do.
pub struct Plan {
    /// Print help and exit: neither an input file nor a spread list was given.
    pub print_help: bool,
    /// Rename `<N>s.png` entries back to `<N>.png` first.
    pub do_revert: bool,
    /// Rasterize the input file into the output directory.
    pub do_split: bool,
    /// Mark the requested pages as spreads afterwards.
    pub do_spreads: bool,
}

/// Decides what a command line asks for. The three actions run in a fixed
/// order: revert, then split, then spread marking.
pub fn make_plan(has_input: bool, revert: bool, has_spreads: bool) -> (p: Plan)
    ensures
        p.print_help == (!has_input && !has_spreads),
        p.do_revert == (revert && (has_input || has_spreads)),
        p.do_split == has_input,
        p.do_spreads == has_spreads,
{
    if !has_input && !has_spreads {
        Plan { print_help: true, do_revert: false, do_split: false, do_spreads: false }
    } else {
        Plan { print_help: false, do_revert: revert, do_split: has_input, do_spreads: has_spreads }
    }
}

/// The overwrite confirmation accepts exactly the lines "y\n" and "Y\n".
pub open spec fn confirmation_accepted(line: Seq<char>) -> bool {
    line == seq!['y', '\n'] || line == seq!['Y', '\n']
}

/// Whether an answer to the overwrite prompt lets the run proceed; any other
/// line asks again.
pub fn confirmation_accepts(line: &String) -> (b: bool)
    ensures
        b == confirmation_accepted(line@),
{
    proof {
        reveal_strlit("y\n");
        reveal_strlit("Y\n");
        assert("y\n"@ =~= seq!['y', '\n']);
        assert("Y\n"@ =~= seq!['Y', '\n']);
    }
    *line == String::from_str("y\n") || *line == String::from_str("Y\n")
}

/// The phases of a rasterizer invocation.
#[derive(PartialEq, Eq, Structural)]
pub enum SplitPhase {
    /// Checking that the input file exists.
    CheckingInput,
    /// Inspecting the output directory.
    CheckingDir,
    /// Waiting for an answer to the overwrite prompt.
    Confirming,
    /// Waiting for the rasterizer to finish.
    Rasterizing,
    /// The rasterizer finished successfully.
    Succeeded,
    /// The run is aborted.
    Failed,
}

/// What the driver reports back after performing an action.
pub enum SplitEvent {
    /// Whether the input file exists.
    InputExists(bool),
    /// Whether the output directory exists and how many entries it holds.
    DirListing { exists: bool, entry_count: usize },
    /// One line read from standard input at the overwrite prompt.
    ConfirmLine(String),
    /// Whether the rasterizer could be launched and exited successfully.
    RasterizerDone { launched: bool, exit_ok: bool },
}

/// What the driver must do next.
#[derive(PartialEq, Eq, Structural)]
pub enum SplitAction {
    /// Check whether the input file exists.
    CheckInput,
    /// Count the entries of the output directory.
    ReadOutputDir,
    /// Print the overwrite prompt and read one line.
    PromptUser,
    /// Launch the rasterizer and wait for it.
    RunRasterizer,
    /// Abort: the input file does not exist.
    AbortMissingInput,
    /// Abort: the rasterizer could not be launched.
    AbortLaunchFailure,
    /// Abort with exit status 1 after printing the captured output: the
    /// rasterizer reported failure.
    AbortRasterizerFailed,
    /// Nothing left to do.
    Finish,
}

/// Whether an event answers the pending action of a phase. The two terminal
/// phases take no event at all.
pub open spec fn event_fits(phase: SplitPhase, event: SplitEvent) -> bool {
    match (phase, event) {
        (SplitPhase::CheckingInput, SplitEvent::InputExists(_)) => true,
        (SplitPhase::CheckingDir, SplitEvent::DirListing { .. }) => true,
        (SplitPhase::Confirming, SplitEvent::ConfirmLine(_)) => true,
        (SplitPhase::Rasterizing, SplitEvent::RasterizerDone { .. }) => true,
        _ => false,
    }
}

/// The transition relation of a rasterizer invocation: a missing input file
/// aborts at once; a non-empty output directory asks for confirmation until
/// an accepted answer arrives; the rasterizer then runs, and its outcome ends
/// the run.
pub open spec fn split_transition(phase: SplitPhase, event: SplitEvent) -> (SplitPhase, SplitAction)
    recommends
        event_fits(phase, event),
{
    match (phase, event) {
        (SplitPhase::CheckingInput, SplitEvent::InputExists(present)) => if present {
            (SplitPhase::CheckingDir, SplitAction::ReadOutputDir)
        } else {
            (SplitPhase::Failed, SplitAction::AbortMissingInput)
        },
        (SplitPhase::CheckingDir, SplitEvent::DirListing { exists, entry_count }) => if exists
            && entry_count > 0 {
            (SplitPhase::Confirming, SplitAction::PromptUser)
        } else {
            (SplitPhase::Rasterizing, SplitAction::RunRasterizer)
        },
        (SplitPhase::Confirming, SplitEvent::ConfirmLine(line)) => if confirmation_accepted(
            line@,
        ) {
            (SplitPhase::Rasterizing, SplitAction::RunRasterizer)
        } else {
            (SplitPhase::Confirming, SplitAction::PromptUser)
        },
        (SplitPhase::Rasterizing, SplitEvent::RasterizerDone { launched, exit_ok }) => if !launched {
            (SplitPhase::Failed, SplitAction::AbortLaunchFailure)
        } else if !exit_ok {
            (SplitPhase::Failed, SplitAction::AbortRasterizerFailed)
        } else {
            (SplitPhase::Succeeded, SplitAction::Finish)
        },
        _ => (SplitPhase::Failed, SplitAction::Finish),
    }
}

/// Starts a rasterizer invocation: the input file is checked first.
pub fn split_start() -> (r: (SplitPhase, SplitAction))
    ensures
        r == (SplitPhase::CheckingInput, SplitAction::CheckInput),
{
    (SplitPhase::CheckingInput, SplitAction::CheckInput)
}

/// Performs one decision step of a rasterizer invocation.
pub fn split_step(phase: SplitPhase, event: SplitEvent) -> (r: (SplitPhase, SplitAction))
    requires
        event_fits(phase, event),
    ensures
        r == split_transition(phase, event),
{
    match (phase, event) {
        (SplitPhase::CheckingInput, SplitEvent::InputExists(present)) => if present {
            (SplitPhase::CheckingDir, SplitAction::ReadOutputDir)
        } else {
            (SplitPhase::Failed, SplitAction::AbortMissingInput)
        },
        (SplitPhase::CheckingDir, SplitEvent::DirListing { exists, entry_count }) => if exists
            && entry_count > 0 {
            (SplitPhase::Confirming, SplitAction::PromptUser)
        } else {
            (SplitPhase::Rasterizing, SplitAction::RunRasterizer)
        },
        (SplitPhase::Confirming, SplitEvent::ConfirmLine(line)) => if confirmation_accepts(
            &line,
        ) {
            (SplitPhase::Rasterizing, SplitAction::RunRasterizer)
        } else {
            (SplitPhase::Confirming, SplitAction::PromptUser)
        },
        (SplitPhase::Rasterizing, SplitEvent::RasterizerDone { launched, exit_ok }) => if !launched {
            (SplitPhase::Failed, SplitAction::AbortLaunchFailure)
        } else if !exit_ok {
            (SplitPhase::Failed, SplitAction::AbortRasterizerFailed)
        } else {
            (SplitPhase::Succeeded, SplitAction::Finish)
        },
        _ => (SplitPhase::Failed, SplitAction::Finish),
    }
}

/// The fixed argument list handed to the rasterizer: the input path as the
/// source and as the image source, quiet Ghostscript settings, 300 DPI
/// rasterization, and the "@N.png" output pattern inside the output
/// directory.
pub open spec fn rasterizer_argv(input: Seq<char>, out_dir: Seq<char>) -> Seq<Seq<char>> {
    seq![
        input,
        seq!['-', 'g', 's', '-', 'q', 'u', 'i', 'e', 't'],
        seq!['-', 'g', 's'],
        seq!['g', 's'],
        seq!['-', 'r', 'a', 's', 't', 'e', 'r', 'i', 'z', 'e', '-', 'r', 'e', 's'],
        seq!['3', '0', '0'],
        seq!['-', 'o', 'u', 't', 'p', 'u', 't', '-', 'i', 'm', 'a', 'g', 'e'],
        input,
        seq!['-', 'o'],
        out_dir + seq!['/', '@', 'N', '.', 'p', 'n', 'g'],
    ]
}

/// Builds the rasterizer argument list for the given input file and output
/// directory.
pub fn rasterizer_args(input: &String, out_dir: &String) -> (r: Vec<String>)
    ensures
        name_views(r@) == rasterizer_argv(input@, out_dir@),
{
    let mut args: Vec<String> = Vec::new();
    args.push(input.clone());
    args.push(String::from_str("-gs-quiet"));
    args.push(String::from_str("-gs"));
    args.push(String::from_str("gs"));
    args.push(String::from_str("-rasterize-res"));
    args.push(String::from_str("300"));
    args.push(String::from_str("-output-image"));
    args.push(input.clone());
    args.push(String::from_str("-o"));
    args.push(out_dir.clone().concat("/@N.png"));
    proof {
        reveal_strlit("-gs-quiet");
        reveal_strlit("-gs");
        reveal_strlit("gs");
        reveal_strlit("-rasterize-res");
        reveal_strlit("300");
        reveal_strlit("-output-image");
        reveal_strlit("-o");
        reveal_strlit("/@N.png");
        assert("-gs-quiet"@ =~= seq!['-', 'g', 's', '-', 'q', 'u', 'i', 'e', 't']);
        assert("-gs"@ =~= seq!['-', 'g', 's']);
        assert("gs"@ =~= seq!['g', 's']);
        assert("-rasterize-res"@ =~= seq![
            '-', 'r', 'a', 's', 't', 'e', 'r', 'i', 'z', 'e', '-', 'r', 'e', 's',
        ]);
        assert("300"@ =~= seq!['3', '0', '0']);
        assert("-output-image"@ =~= seq!['-', 'o', 'u', 't', 'p', 'u', 't', '-', 'i', 'm', 'a', 'g', 'e']);
        assert("-o"@ =~= seq!['-', 'o']);
        assert("/@N.png"@ =~= seq!['/', '@', 'N', '.', 'p', 'n', 'g']);
        assert(name_views(args@) =~~= rasterizer_argv(input@, out_dir@));
    }
    args
}

/// A run whose input file is missing is aborted at once: the input check
/// answers with the abort action and the terminal Failed phase, which no
/// further event fits, so the rasterizer is never run.
pub proof fn lemma_missing_input_never_rasterizes(event: SplitEvent)
    ensures
        split_transition(SplitPhase::CheckingInput, SplitEvent::InputExists(false)) == (
            SplitPhase::Failed,
            SplitAction::AbortMissingInput,
        ),
        !event_fits(SplitPhase::Failed, event),
{
}

/// The overwrite prompt proceeds only on the exact answers "y\n" and "Y\n";
/// every other line re-prompts without leaving the confirmation phase.
pub proof fn lemma_confirmation_gate(line: String)
    ensures
        confirmation_accepted(line@) ==> split_transition(
            SplitPhase::Confirming,
            SplitEvent::ConfirmLine(line),
        ) == (SplitPhase::Rasterizing, SplitAction::RunRasterizer),
        !confirmation_accepted(line@) ==> split_transition(
            SplitPhase::Confirming,
            SplitEvent::ConfirmLine(line),
        ) == (SplitPhase::Confirming, SplitAction::PromptUser),
{
}

} // verus!
