//! The run: one line after another is trimmed, expanded, executed and
//! counted. The caller reads the file and runs the commands; this state
//! machine decides what to run, what to count and what to narrate.
use vstd::prelude::*;
use crate::config::RunConfig;
use crate::template::{expand_template, expanded, split_command, ExpandedCommand};
use crate::text::{clone_all, is_blank, trim, trimmed};

verus! {

/// Where a run stands.
#[derive(PartialEq, Eq, Structural, Clone, Copy, Debug)]
pub enum Phase {
    Idle,
    Running,
    /// A command was handed out and its outcome has not come back yet.
    AwaitingOutcome,
    Done,
}

/// What became of one line.
pub enum ExecutionOutcome {
    /// The command exited with status 0.
    Success,
    /// The command exited otherwise, with its exit code when there is one.
    NonZeroExit(Option<i32>),
    /// The command could not be started.
    SpawnFailure(String),
    /// The line itself could not be read.
    LineReadFailure(String),
}

/// The counters of a run.
#[derive(PartialEq, Eq, Structural, Clone, Copy, Debug)]
pub struct RunSummary {
    pub lines_processed: u64,
    pub success_count: u64,
    pub error_count: u64,
}

/// What the narration says at one point of a run. In quiet mode there is none.
pub enum Note {
    /// Before the first line: the file, the token and the template.
    Started { file_path: String, token: String, template: Vec<String> },
    /// Before a command runs: the line, its value and the command.
    LineStarted { line_number: u64, value: String, program: String, args: Vec<String> },
    Succeeded,
    Failed { code: Option<i32> },
    SpawnError { message: String },
    ReadError { line_number: u64, message: String },
    /// At the end: the counters, and whether no line failed.
    Summary { summary: RunSummary, all_succeeded: bool },
}

/// What to do with one line that was read.
pub enum LineStep {
    /// The line is blank: nothing runs and nothing is counted.
    Skip,
    /// Run this command, after narrating the note if there is one.
    Execute(ExpandedCommand, Option<Note>),
}

/// The counters of a run, as numbers.
pub struct Tally {
    /// Physical lines seen, blank ones included.
    pub line_number: nat,
    /// Lines that were unreadable or not blank.
    pub processed: nat,
    pub successes: nat,
    pub errors: nat,
}

/// Nothing seen yet.
pub open spec fn initial_tally() -> Tally {
    Tally { line_number: 0, processed: 0, successes: 0, errors: 0 }
}

/// A blank line moves the position and nothing else.
pub open spec fn after_blank(t: Tally) -> Tally {
    Tally { line_number: t.line_number + 1, ..t }
}

/// A non-blank line is taken up: its command is about to run.
pub open spec fn after_taken(t: Tally) -> Tally {
    Tally { line_number: t.line_number + 1, processed: t.processed + 1, ..t }
}

/// A line that could not be read counts as processed and as an error.
pub open spec fn after_unreadable(t: Tally) -> Tally {
    Tally { line_number: t.line_number + 1, processed: t.processed + 1, errors: t.errors + 1, ..t }
}

/// A command came back, successful or not.
pub open spec fn after_outcome(t: Tally, ok: bool) -> Tally {
    if ok {
        Tally { successes: t.successes + 1, ..t }
    } else {
        Tally { errors: t.errors + 1, ..t }
    }
}

/// One readable line, whose command (if it runs) succeeds when `ok`.
pub open spec fn after_line(t: Tally, text: Seq<char>, ok: bool) -> Tally {
    if is_blank(text) {
        after_blank(t)
    } else {
        after_outcome(after_taken(t), ok)
    }
}

/// Readable lines one after another, each with whether its command succeeds.
pub open spec fn after_lines(t: Tally, lines: Seq<(Seq<char>, bool)>) -> Tally
    decreases lines.len(),
{
    if lines.len() == 0 {
        t
    } else {
        let last = lines.last();
        after_line(after_lines(t, lines.drop_last()), last.0, last.1)
    }
}

/// Whether the outcome counts as a success.
pub open spec fn succeeded(o: ExecutionOutcome) -> bool {
    o is Success
}

/// The state of a run.
pub struct Run {
    line_number: u64,
    processed: u64,
    successes: u64,
    errors: u64,
    phase: Phase,
}

impl Run {
    pub closed spec fn tally(&self) -> Tally {
        Tally {
            line_number: self.line_number as nat,
            processed: self.processed as nat,
            successes: self.successes as nat,
            errors: self.errors as nat,
        }
    }

    pub closed spec fn phase_of(&self) -> Phase {
        self.phase
    }

    /// Every processed line is a success, an error, or the one awaiting its outcome.
    pub closed spec fn wf(&self) -> bool {
        &&& self.processed <= self.line_number
        &&& self.successes + self.errors + (if self.phase == Phase::AwaitingOutcome {
            1int
        } else {
            0int
        }) == self.processed
    }

    /// A run that has not started.
    pub fn new() -> (r: Run)
        ensures
            r.wf(),
            r.phase_of() == Phase::Idle,
            r.tally() == initial_tally(),
    {
        Run { line_number: 0, processed: 0, successes: 0, errors: 0, phase: Phase::Idle }
    }

    /// The input is open: lines may come.
    pub fn start(&mut self)
        requires
            old(self).wf(),
            old(self).phase_of() == Phase::Idle,
        ensures
            final(self).wf(),
            final(self).phase_of() == Phase::Running,
            final(self).tally() == old(self).tally(),
    {
        self.phase = Phase::Running;
    }

    /// Takes one physical line as read. A blank line is skipped; otherwise
    /// its trimmed text replaces the token in the template, and the command
    /// is handed out.
    pub fn on_line(&mut self, config: &RunConfig, raw: &str) -> (r: LineStep)
        requires
            old(self).wf(),
            config.wf(),
            old(self).phase_of() == Phase::Running,
            old(self).tally().line_number < u64::MAX,
        ensures
            final(self).wf(),
            is_blank(raw@) ==> {
                &&& r is Skip
                &&& final(self).phase_of() == Phase::Running
                &&& final(self).tally() == after_blank(old(self).tally())
            },
            !is_blank(raw@) ==> {
                &&& final(self).phase_of() == Phase::AwaitingOutcome
                &&& final(self).tally() == after_taken(old(self).tally())
                &&& r matches LineStep::Execute(c, note) && {
                    &&& c.words() == expanded(
                        config.template.deep_view(),
                        config.token@,
                        trimmed(raw@),
                    )
                    &&& (note is None <==> config.quiet)
                    &&& (note matches Some(Note::LineStarted { line_number, value, program, args })
                        ==> line_number == final(self).tally().line_number && value@ == trimmed(raw@)
                        && program@ == c.program@ && args.deep_view() == c.args.deep_view())
                }
            },
    {
        self.line_number = self.line_number + 1;
        let value = trim(raw);
        if value.as_str().unicode_len() == 0 {
            return LineStep::Skip;
        }
        self.processed = self.processed + 1;
        self.phase = Phase::AwaitingOutcome;
        let words = expand_template(&config.template, config.token.as_str(), value.as_str());
        assert(words.deep_view().len() == words@.len());
        assert(config.template.deep_view().len() == config.template@.len());
        let shown = clone_all(&words);
        assert(shown.deep_view().len() == shown@.len());
        let command = match split_command(words) {
            Some(c) => c,
            None => {
                // The template has at least one word, so its expansion has too.
                assert(false);
                return LineStep::Skip;
            }
        };
        let note = if config.quiet {
            None
        } else {
            let mut shown = shown;
            let ghost before = shown.deep_view();
            let program = shown.remove(0);
            assert(shown.deep_view() =~= before.drop_first());
            assert(command.args.deep_view() =~= command.words().drop_first());
            assert(program@ == before[0]);
            Some(Note::LineStarted { line_number: self.line_number, value, program, args: shown })
        };
        LineStep::Execute(command, note)
    }

    /// Counts an outcome: a success for `Success`, an error for any other.
    /// A read failure stands for a line of its own; the others answer the
    /// command handed out last.
    pub fn record(&mut self, config: &RunConfig, outcome: ExecutionOutcome) -> (r: Option<Note>)
        requires
            old(self).wf(),
            outcome is LineReadFailure ==> old(self).phase_of() == Phase::Running
                && old(self).tally().line_number < u64::MAX,
            !(outcome is LineReadFailure) ==> old(self).phase_of() == Phase::AwaitingOutcome,
        ensures
            final(self).wf(),
            final(self).phase_of() == Phase::Running,
            outcome is LineReadFailure ==> final(self).tally() == after_unreadable(old(self).tally()),
            !(outcome is LineReadFailure) ==> final(self).tally() == after_outcome(
                old(self).tally(),
                succeeded(outcome),
            ),
            r is None <==> config.quiet,
            !config.quiet ==> match outcome {
                ExecutionOutcome::Success => r == Some(Note::Succeeded),
                ExecutionOutcome::NonZeroExit(code) => r == Some(Note::Failed { code }),
                ExecutionOutcome::SpawnFailure(m) => r == Some(Note::SpawnError { message: m }),
                ExecutionOutcome::LineReadFailure(m) => r == Some(
                    Note::ReadError { line_number: final(self).tally().line_number as u64, message: m },
                ),
            },
    {
        let note = match outcome {
            ExecutionOutcome::Success => {
                self.successes = self.successes + 1;
                Note::Succeeded
            },
            ExecutionOutcome::NonZeroExit(code) => {
                self.errors = self.errors + 1;
                Note::Failed { code }
            },
            ExecutionOutcome::SpawnFailure(message) => {
                self.errors = self.errors + 1;
                Note::SpawnError { message }
            },
            ExecutionOutcome::LineReadFailure(message) => {
                self.line_number = self.line_number + 1;
                self.processed = self.processed + 1;
                self.errors = self.errors + 1;
                Note::ReadError { line_number: self.line_number, message }
            },
        };
        self.phase = Phase::Running;
        if config.quiet {
            None
        } else {
            Some(note)
        }
    }

    /// The counters so far.
    pub fn summary(&self) -> (r: RunSummary)
        ensures
            r.lines_processed == self.tally().processed,
            r.success_count == self.tally().successes,
            r.error_count == self.tally().errors,
    {
        RunSummary {
            lines_processed: self.processed,
            success_count: self.successes,
            error_count: self.errors,
        }
    }

    /// The position of the last physical line seen, counting from 1.
    pub fn line_number(&self) -> (r: u64)
        ensures
            r == self.tally().line_number,
    {
        self.line_number
    }

    /// Where the run stands.
    pub fn phase(&self) -> (r: Phase)
        ensures
            r == self.phase_of(),
    {
        self.phase
    }

    /// The input is exhausted: the run is over. Returns its counters and,
    /// unless quiet, the closing summary.
    pub fn finish(&mut self, config: &RunConfig) -> (r: (RunSummary, Option<Note>))
        requires
            old(self).wf(),
            old(self).phase_of() == Phase::Running,
        ensures
            final(self).wf(),
            final(self).phase_of() == Phase::Done,
            final(self).tally() == old(self).tally(),
            old(self).tally().processed == old(self).tally().successes + old(self).tally().errors,
            r.0.lines_processed == old(self).tally().processed,
            r.0.success_count == old(self).tally().successes,
            r.0.error_count == old(self).tally().errors,
            r.1 is None <==> config.quiet,
            !config.quiet ==> r.1 == Some(
                Note::Summary { summary: r.0, all_succeeded: r.0.error_count == 0 },
            ),
    {
        self.phase = Phase::Done;
        let summary = self.summary();
        if config.quiet {
            (summary, None)
        } else {
            (summary, Some(Note::Summary { summary, all_succeeded: summary.error_count == 0 }))
        }
    }
}

/// Sorts the exit code of a command that ran: code 0 is a success, any other
/// code, or none, a failure.
pub fn classify(code: Option<i32>) -> (r: ExecutionOutcome)
    ensures
        code == Some(0i32) ==> r is Success,
        code != Some(0i32) ==> r == ExecutionOutcome::NonZeroExit(code),
{
    match code {
        Some(0) => ExecutionOutcome::Success,
        _ => ExecutionOutcome::NonZeroExit(code),
    }
}

/// The opening narration: what the run will read and do. None in quiet mode.
pub fn announce(config: &RunConfig) -> (r: Option<Note>)
    ensures
        r is None <==> config.quiet,
        r matches Some(Note::Started { file_path, token, template }) ==> file_path@
            == config.file_path@ && token@ == config.token@ && template.deep_view()
            == config.template.deep_view(),
        r is Some ==> r matches Some(Note::Started { .. }),
{
    if config.quiet {
        None
    } else {
        Some(
            Note::Started {
                file_path: config.file_path.clone(),
                token: config.token.clone(),
                template: clone_all(&config.template),
            },
        )
    }
}

} // verus!
