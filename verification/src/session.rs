//! The bookkeeping of a render run over several source files.
//!
//! For each source file the caller builds it, asks for its board layout and
//! renders that layout; a [`RenderSession`] records what came of each step and
//! says what to do next. At the end it tells whether the run failed, rendered
//! nothing, or rendered some number of files.

use vstd::prelude::*;
use crate::decimal::{decimal_digits, decimal_text};

verus! {

/// The extension given to an archive written next to its source file.
pub const PCB3D_EXTENSION: &'static str = "pcb3d";

/// Where a source file's archive goes: to the output path given on the
/// command line if there is one, else next to the source, at the source's
/// path with the extension [`PCB3D_EXTENSION`] (`beside_source`).
pub fn output_path<P>(given: Option<P>, beside_source: P) -> (p: P)
    ensures
        p == match given {
            Some(g) => g,
            None => beside_source,
        },
{
    match given {
        Some(g) => g,
        None => beside_source,
    }
}

/// Why a run cannot start.
#[derive(Clone, Copy, Debug, PartialEq, Eq)]
pub enum InputError {
    /// There is no source file to render.
    NoSources,
    /// One output path was given for several source files.
    OutputWithMultipleInputs,
}

/// Whether a run over `num_sources` source files can start.
pub fn check_inputs(num_sources: usize, output_given: bool) -> (r: Result<(), InputError>)
    ensures
        num_sources == 0 ==> r == Err::<(), InputError>(InputError::NoSources),
        num_sources > 1 && output_given ==> r == Err::<(), InputError>(
            InputError::OutputWithMultipleInputs,
        ),
        r is Ok <==> (num_sources == 1 || (num_sources > 1 && !output_given)),
{
    if num_sources == 0 {
        Err(InputError::NoSources)
    } else if output_given && num_sources > 1 {
        Err(InputError::OutputWithMultipleInputs)
    } else {
        Ok(())
    }
}

/// The message when there is no source file under `dir`.
pub fn no_sources_message(dir: &str) -> (m: String)
    ensures
        m@ == "No .zen source files found in "@ + dir@,
{
    let mut m = "No .zen source files found in ".to_owned();
    m.append(dir);
    m
}

/// The message when one output path is given for several source files.
pub const OUTPUT_WITH_MULTIPLE_INPUTS_MESSAGE: &'static str =
    "Cannot specify --output with multiple input files";

/// The message when some file could not be rendered.
pub const RENDER_FAILED_MESSAGE: &'static str = "Rendering failed with errors";

/// The message when no file had a layout to render.
pub const NOTHING_RENDERED_MESSAGE: &'static str = "No files with layouts found to render.";

/// What came of asking for a source file's layout.
#[derive(Clone, Copy, Debug, PartialEq, Eq)]
pub enum LayoutOutcome {
    /// The layout is there to render.
    Ready,
    /// The source names no layout.
    NoLayout,
    /// The layout could not be produced.
    Failed,
}

/// What to do with a source file once its layout is known.
#[derive(Clone, Copy, Debug, PartialEq, Eq)]
pub enum FileAction {
    /// Render it.
    Render,
    /// Skip it with a warning: it has no layout.
    SkipNoLayout,
    /// Skip it: its layout failed, which counts as an error of the run.
    SkipFailed,
}

/// One thing that happened to a source file.
#[derive(Clone, Copy, Debug, PartialEq, Eq)]
pub enum SessionEvent {
    /// The source was built; `errors` tells whether the build reported errors.
    Built { errors: bool },
    /// The layout was asked for.
    Layout(LayoutOutcome),
    /// The layout was rendered, or failed to render.
    Rendered { success: bool },
}

/// The state of a run: whether an error has been seen, and how many files were
/// rendered.
pub struct SessionState {
    pub has_errors: bool,
    pub rendered: nat,
}

/// The state after one event.
pub open spec fn apply(s: SessionState, e: SessionEvent) -> SessionState {
    match e {
        SessionEvent::Built { errors } => SessionState {
            has_errors: s.has_errors || errors,
            rendered: s.rendered,
        },
        SessionEvent::Layout(o) => SessionState {
            has_errors: s.has_errors || o == LayoutOutcome::Failed,
            rendered: s.rendered,
        },
        SessionEvent::Rendered { success } => if success {
            SessionState { has_errors: s.has_errors, rendered: s.rendered + 1 }
        } else {
            SessionState { has_errors: true, rendered: s.rendered }
        },
    }
}

/// The state after a sequence of events, from `s`.
pub open spec fn run(s: SessionState, events: Seq<SessionEvent>) -> SessionState
    decreases events.len(),
{
    if events.len() == 0 {
        s
    } else {
        apply(run(s, events.drop_last()), events.last())
    }
}

/// The state of a run that has not started.
pub open spec fn initial_state() -> SessionState {
    SessionState { has_errors: false, rendered: 0 }
}

/// What to do with a file whose layout came out as `o`.
pub open spec fn layout_action(o: LayoutOutcome) -> FileAction {
    match o {
        LayoutOutcome::Ready => FileAction::Render,
        LayoutOutcome::NoLayout => FileAction::SkipNoLayout,
        LayoutOutcome::Failed => FileAction::SkipFailed,
    }
}

/// How a run ended.
#[derive(Clone, Copy, Debug, PartialEq, Eq)]
pub enum RunSummary {
    /// Some step failed: the run fails.
    Failed,
    /// No file had a layout to render.
    NothingRendered,
    /// This many files were rendered.
    Rendered(usize),
}

/// How a run in state `s` ends.
pub open spec fn summary_of(s: SessionState) -> RunSummary {
    if s.has_errors {
        RunSummary::Failed
    } else if s.rendered == 0 {
        RunSummary::NothingRendered
    } else {
        RunSummary::Rendered(s.rendered as usize)
    }
}

/// The record of a render run.
pub struct RenderSession {
    has_errors: bool,
    rendered_count: usize,
}

impl View for RenderSession {
    type V = SessionState;

    closed spec fn view(&self) -> SessionState {
        SessionState { has_errors: self.has_errors, rendered: self.rendered_count as nat }
    }
}

impl RenderSession {
    /// A run that has not started.
    pub fn new() -> (s: RenderSession)
        ensures
            s@ == initial_state(),
    {
        RenderSession { has_errors: false, rendered_count: 0 }
    }

    /// Whether an error has been seen.
    pub fn has_errors(&self) -> (b: bool)
        ensures
            b == self@.has_errors,
    {
        self.has_errors
    }

    /// How many files were rendered.
    pub fn rendered_count(&self) -> (n: usize)
        ensures
            n == self@.rendered,
    {
        self.rendered_count
    }

    /// Records a build; a build that reports errors makes the run fail.
    pub fn record_build(&mut self, errors: bool)
        ensures
            final(self)@ == apply(old(self)@, SessionEvent::Built { errors }),
    {
        self.has_errors = self.has_errors || errors;
    }

    /// Records what came of the layout, and says what to do with the file.
    pub fn record_layout(&mut self, outcome: LayoutOutcome) -> (a: FileAction)
        ensures
            final(self)@ == apply(old(self)@, SessionEvent::Layout(outcome)),
            a == layout_action(outcome),
    {
        match outcome {
            LayoutOutcome::Ready => FileAction::Render,
            LayoutOutcome::NoLayout => FileAction::SkipNoLayout,
            LayoutOutcome::Failed => {
                self.has_errors = true;
                FileAction::SkipFailed
            },
        }
    }

    /// Records a rendering, and says whether to open the archive: only after a
    /// successful rendering, and only when opening was not turned off.
    pub fn record_render(&mut self, success: bool, no_open: bool) -> (open: bool)
        requires
            success ==> old(self)@.rendered < usize::MAX,
        ensures
            final(self)@ == apply(old(self)@, SessionEvent::Rendered { success }),
            open == (success && !no_open),
    {
        if success {
            self.rendered_count = self.rendered_count + 1;
            !no_open
        } else {
            self.has_errors = true;
            false
        }
    }

    /// How the run ends.
    pub fn finish(&self) -> (r: RunSummary)
        ensures
            r == summary_of(self@),
    {
        if self.has_errors {
            RunSummary::Failed
        } else if self.rendered_count == 0 {
            RunSummary::NothingRendered
        } else {
            RunSummary::Rendered(self.rendered_count)
        }
    }
}

/// The closing message of a run that rendered `count` files.
pub open spec fn summary_text(count: nat) -> Seq<char> {
    "Successfully rendered "@ + decimal_digits(count) + " file"@ + (if count == 1 {
        ""@
    } else {
        "s"@
    }) + "."@
}

/// The closing message counts the files in decimal and says `file` for one
/// file and `files` for any other number, zero included.
pub proof fn lemma_summary_text_plural(count: nat)
    ensures
        summary_text(count) == "Successfully rendered "@ + decimal_digits(count) + (if count == 1 {
            " file."@
        } else {
            " files."@
        }),
        summary_text(count).last() == '.',
        summary_text(count)[summary_text(count).len() - 2] == 's' <==> count != 1,
{
    reveal_strlit(" file");
    reveal_strlit("");
    reveal_strlit("s");
    reveal_strlit(".");
    reveal_strlit(" file.");
    reveal_strlit(" files.");
    let t = summary_text(count);
    if count == 1 {
        assert(t =~= "Successfully rendered "@ + decimal_digits(count) + " file."@);
    } else {
        assert(t =~= "Successfully rendered "@ + decimal_digits(count) + " files."@);
    }
}

/// The closing message of a run that rendered `count` files.
pub fn summary_message(count: usize) -> (m: String)
    ensures
        m@ == summary_text(count as nat),
{
    let mut m = "Successfully rendered ".to_owned();
    m.append(decimal_text(count as u128).as_str());
    m.append(" file");
    if count == 1 {
        m.append("");
    } else {
        m.append("s");
    }
    m.append(".");
    m
}


/// Whether an event makes a run fail.
pub open spec fn is_error_event(e: SessionEvent) -> bool {
    match e {
        SessionEvent::Built { errors } => errors,
        SessionEvent::Layout(o) => o == LayoutOutcome::Failed,
        SessionEvent::Rendered { success } => !success,
    }
}

/// The number of successful renderings among the events.
pub open spec fn successes(events: Seq<SessionEvent>) -> nat
    decreases events.len(),
{
    if events.len() == 0 {
        0
    } else {
        successes(events.drop_last()) + if events.last() == (SessionEvent::Rendered {
            success: true,
        }) {
            1nat
        } else {
            0nat
        }
    }
}

/// A run counts exactly its successful renderings, and has seen an error
/// exactly when one of its events was a failed build, layout or rendering:
/// an error, once seen, is never forgotten.
#[verifier::rlimit(50)]
pub proof fn lemma_run_records_events(s: SessionState, events: Seq<SessionEvent>)
    ensures
        run(s, events).rendered == s.rendered + successes(events),
        run(s, events).has_errors <==> (s.has_errors || exists|i: int|
            0 <= i < events.len() && is_error_event(#[trigger] events[i])),
    decreases events.len(),
{
    if events.len() > 0 {
        let prefix = events.drop_last();
        lemma_run_records_events(s, prefix);
        if run(s, events).has_errors && !s.has_errors && !run(s, prefix).has_errors {
            assert(is_error_event(events[events.len() - 1]));
        }
        if exists|i: int| 0 <= i < events.len() && is_error_event(#[trigger] events[i]) {
            let i = choose|i: int| 0 <= i < events.len() && is_error_event(#[trigger] events[i]);
            if i < events.len() - 1 {
                assert(prefix[i] == events[i]);
            }
        }
        assert forall|i: int| 0 <= i < prefix.len() && is_error_event(#[trigger] prefix[i]) implies (
        exists|j: int| 0 <= j < events.len() && is_error_event(#[trigger] events[j])) by {
            assert(events[i] == prefix[i]);
        }
    }
}

/// A run ends in failure exactly when some event was an error; otherwise it
/// reports how many files it rendered, or that it rendered none.
pub proof fn lemma_run_summary(events: Seq<SessionEvent>)
    requires
        successes(events) <= usize::MAX,
    ensures
        summary_of(run(initial_state(), events)) == if exists|i: int|
            0 <= i < events.len() && is_error_event(#[trigger] events[i]) {
            RunSummary::Failed
        } else if successes(events) == 0 {
            RunSummary::NothingRendered
        } else {
            RunSummary::Rendered(successes(events) as usize)
        },
{
    lemma_run_records_events(initial_state(), events);
}

} // verus!
