//! The order of a session, as a machine that a driver steps.
//!
//! The driver owns everything that touches the outside: the output sink, the
//! input stream, the interrupt handler and the engine. It hands the session
//! an event (how the last action ended) and gets the next action back. The
//! session keeps the order, records the phases in the timing record, installs
//! the ceilings and flushes the record before any action that ends the
//! session.
//!
//! The driver holds the timing record only while a step is taken. The
//! engine runs between two steps, so that an interrupt finds the record
//! free and can flush it. Flags are validated before a session begins: a
//! flag out of range never starts one.

use vstd::prelude::*;
use std::time::Duration;
use crate::limits::ceiling_answer;
use crate::limits::limit_memory;
use crate::limits::limit_time;
use crate::limits::LimitError;
use crate::limits::ResourceKind;
use crate::outcome::begins_with;
use crate::outcome::lemma_text_begins_with_one_token;
use crate::outcome::newline;
use crate::outcome::RawStatus;
use crate::outcome::SolverOutcome;
use crate::outcome::EXIT_SATISFIABLE;
use crate::outcome::EXIT_UNKNOWN;
use crate::outcome::EXIT_UNSATISFIABLE;
use crate::stat::Diagnostic;
use crate::stat::Stage;
use crate::stat::Stat;
use cpu_time::ProcessTime;

verus! {

/// The run-control switches of a session.
#[derive(Debug, Clone, Copy, PartialEq, Eq, Structural)]
pub struct SessionConfig {
    /// Whether the engine may preprocess.
    pub pre: bool,
    /// Whether to solve after preprocessing.
    pub solve: bool,
    /// Ceiling on CPU time in seconds; `0` for none.
    pub cpu_lim: u32,
    /// Ceiling on memory in megabytes; `0` for none.
    pub mem_lim: u32,
    /// Whether the engine holds the input to its header.
    pub strictp: bool,
}

/// Where a session stands: which action it waits for.
#[derive(Debug, Clone, Copy, PartialEq, Eq, Structural)]
pub enum Phase {
    /// Nothing has been asked for yet.
    Fresh,
    /// The output sink is being opened.
    OpeningOutput,
    /// The engine's options are being applied.
    Configuring,
    /// The interrupt handler is being installed.
    Arming,
    /// The engine is switching preprocessing off.
    PreDisabling,
    /// The input is being opened and fed to the engine.
    Parsing,
    /// The engine is running its elimination pass.
    Eliminating,
    /// The engine is being asked whether the formula is still feasible.
    Probing,
    /// The engine is solving.
    Solving,
    /// The answer is being written; `code` is the exit code that follows.
    Writing { code: i32 },
    /// The session has ended with `code`.
    Finished { code: i32 },
    /// The session has been given up.
    Failed,
}

/// How the last action ended.
#[derive(Debug, Clone, PartialEq, Eq)]
pub enum Event {
    /// The driver is ready; no action has been asked of it yet.
    Begin,
    /// The action was carried out.
    Done,
    /// The action failed.
    Failed,
    /// The engine's answer to `CheckFeasible`.
    Feasible(bool),
    /// The engine's answer to `Solve`.
    Solved(SolverOutcome),
}

/// What the driver is to do next.
#[derive(Debug, Clone, PartialEq, Eq)]
pub enum Action {
    /// Open the output sink.
    OpenOutput,
    /// Hand the tuning options to the engine.
    ApplyOptions,
    /// Install the interrupt handler and create the engine.
    InstallInterrupt,
    /// Run the engine's elimination pass, switching further elimination off.
    Eliminate,
    /// Open the input and feed it to the engine.
    Parse { strict: bool },
    /// Ask the engine whether the formula is still feasible.
    CheckFeasible,
    /// Run the engine's bounded solve, without assumptions.
    Solve,
    /// Write these bytes to the output sink.
    Write(Vec<u8>),
    /// Leave the process with this exit code.
    Exit(i32),
    /// Give the session up and report the failure that was met.
    Abort,
}

/// An `Action` with its bytes as a sequence.
pub enum ActionView {
    OpenOutput,
    ApplyOptions,
    InstallInterrupt,
    Eliminate,
    Parse { strict: bool },
    CheckFeasible,
    Solve,
    Write(Seq<u8>),
    Exit(i32),
    Abort,
}

impl View for Action {
    type V = ActionView;

    open spec fn view(&self) -> ActionView {
        match self {
            Action::OpenOutput => ActionView::OpenOutput,
            Action::ApplyOptions => ActionView::ApplyOptions,
            Action::InstallInterrupt => ActionView::InstallInterrupt,
            Action::Eliminate => ActionView::Eliminate,
            Action::Parse { strict } => ActionView::Parse { strict: *strict },
            Action::CheckFeasible => ActionView::CheckFeasible,
            Action::Solve => ActionView::Solve,
            Action::Write(bytes) => ActionView::Write(bytes@),
            Action::Exit(code) => ActionView::Exit(*code),
            Action::Abort => ActionView::Abort,
        }
    }
}

/// What a step does to the timing record and the diagnostic channel.
pub enum Effect {
    /// Nothing.
    Nothing,
    /// Both ceilings are applied and each refusal is reported as a warning;
    /// then the clocks are restarted if `start` is set.
    Ceilings { start: bool },
    /// The clocks are restarted.
    StartLog,
    /// The end of a phase is recorded.
    Mark(Stage),
    /// The end of the solve phase is recorded if `solved` is set; the record
    /// is flushed; the answer, if there is one, is reported.
    Flush { solved: bool, answer: Option<RawStatus> },
}

/// One step of the machine.
pub struct Transition {
    pub phase: Phase,
    pub action: ActionView,
    pub effect: Effect,
}

/// The step that gives the session up.
pub open spec fn give_up() -> Transition {
    Transition {
        phase: Phase::Failed,
        action: ActionView::Abort,
        effect: Effect::Flush { solved: false, answer: None },
    }
}

/// The step that ends the session with the answer `outcome`.
pub open spec fn conclude(outcome: SolverOutcome, solved: bool) -> Transition {
    Transition {
        phase: Phase::Writing { code: outcome.spec_status().spec_exit_code() },
        action: ActionView::Write(outcome.text()),
        effect: Effect::Flush { solved, answer: Some(outcome.spec_status()) },
    }
}

/// The machine: the step taken in `phase` on `event`.
///
/// An event that the phase does not wait for gives the session up, and so
/// does `Event::Failed` in every phase.
pub open spec fn transition(phase: Phase, config: SessionConfig, event: Event) -> Transition {
    match (phase, event) {
        (Phase::Fresh, Event::Begin) => Transition {
            phase: Phase::OpeningOutput,
            action: ActionView::OpenOutput,
            effect: Effect::Nothing,
        },
        (Phase::OpeningOutput, Event::Done) => Transition {
            phase: Phase::Configuring,
            action: ActionView::ApplyOptions,
            effect: Effect::Nothing,
        },
        (Phase::Configuring, Event::Done) => Transition {
            phase: Phase::Arming,
            action: ActionView::InstallInterrupt,
            effect: Effect::Nothing,
        },
        (Phase::Arming, Event::Done) => if config.pre {
            Transition {
                phase: Phase::Parsing,
                action: ActionView::Parse { strict: config.strictp },
                effect: Effect::Ceilings { start: true },
            }
        } else {
            Transition {
                phase: Phase::PreDisabling,
                action: ActionView::Eliminate,
                effect: Effect::Ceilings { start: false },
            }
        },
        (Phase::PreDisabling, Event::Done) => Transition {
            phase: Phase::Parsing,
            action: ActionView::Parse { strict: config.strictp },
            effect: Effect::StartLog,
        },
        (Phase::Parsing, Event::Done) => Transition {
            phase: Phase::Eliminating,
            action: ActionView::Eliminate,
            effect: Effect::Mark(Stage::Parse),
        },
        (Phase::Eliminating, Event::Done) => Transition {
            phase: Phase::Probing,
            action: ActionView::CheckFeasible,
            effect: Effect::Mark(Stage::Simplify),
        },
        (Phase::Probing, Event::Feasible(feasible)) => if !feasible {
            conclude(SolverOutcome::Unsatisfiable, false)
        } else if config.solve {
            Transition {
                phase: Phase::Solving,
                action: ActionView::Solve,
                effect: Effect::Nothing,
            }
        } else {
            conclude(SolverOutcome::Unknown, true)
        },
        (Phase::Solving, Event::Solved(outcome)) => conclude(outcome, true),
        (Phase::Writing { code }, Event::Done) => Transition {
            phase: Phase::Finished { code },
            action: ActionView::Exit(code),
            effect: Effect::Flush { solved: false, answer: None },
        },
        (Phase::Finished { code }, _) => Transition {
            phase: Phase::Finished { code },
            action: ActionView::Exit(code),
            effect: Effect::Flush { solved: false, answer: None },
        },
        _ => give_up(),
    }
}

/// The warning for a ceiling that was refused; nothing for one that was
/// installed.
pub open spec fn warning_line(answer: Result<(), LimitError>) -> Seq<Diagnostic> {
    match answer {
        Ok(_) => Seq::<Diagnostic>::empty(),
        Err(refusal) => seq![Diagnostic::Warning(refusal)],
    }
}

/// The line that reports the answer; nothing where there is none.
pub open spec fn answer_line(answer: Option<RawStatus>) -> Seq<Diagnostic> {
    match answer {
        Some(status) => seq![Diagnostic::Answer(status)],
        None => Seq::<Diagnostic>::empty(),
    }
}

/// `after` is `before` with its clocks restarted at some readings.
pub open spec fn clocks_restarted(before: Stat, after: Stat) -> bool {
    exists|total: ProcessTime, least: ProcessTime|
        after == #[trigger] before.restarted(total, least)
}

/// `after` is `before` with the end of `stage` recorded at some readings.
pub open spec fn stage_recorded(stage: Stage, before: Stat, after: Stat) -> bool {
    exists|used: Duration, now: ProcessTime|
        after == #[trigger] before.recorded(stage, used, now)
}

/// `after` is `before` with the end of the solve phase recorded, if `solved`
/// is set, and `before` itself otherwise.
pub open spec fn solve_recorded(solved: bool, before: Stat, after: Stat) -> bool {
    if solved {
        stage_recorded(Stage::Solve, before, after)
    } else {
        after == before
    }
}

/// The ceiling on address space, in bytes, that a memory limit of
/// `megabytes` asks for.
pub open spec fn address_space_bytes(megabytes: u32) -> u64 {
    (megabytes * 0x10_0000) as u64
}

/// The diagnostic channel went from `before` to `after` by the warnings of
/// the two ceilings of `config`, CPU time first.
pub open spec fn ceilings_reported(
    config: SessionConfig,
    before: Seq<Diagnostic>,
    after: Seq<Diagnostic>,
) -> bool {
    exists|cpu: Result<(), LimitError>, memory: Result<(), LimitError>|
        #![trigger warning_line(cpu), warning_line(memory)]
        {
            &&& ceiling_answer(ResourceKind::CpuTime, config.cpu_lim as u64, cpu)
            &&& ceiling_answer(
                ResourceKind::AddressSpace,
                address_space_bytes(config.mem_lim),
                memory,
            )
            &&& after == before + warning_line(cpu) + warning_line(memory)
        }
}

/// The record went from `before` to `after` and the diagnostic channel from
/// `old_lines` to `new_lines` by a flush, after the end of the solve phase
/// was recorded if `solved` is set, and before `answer` was reported.
pub open spec fn flush_reported(
    solved: bool,
    answer: Option<RawStatus>,
    before: Stat,
    after: Stat,
    old_lines: Seq<Diagnostic>,
    new_lines: Seq<Diagnostic>,
) -> bool {
    exists|mid: Stat, total: Duration, run: Duration, memory: Option<u64>|
        #![trigger mid.flush_lines(total, run, memory)]
        {
            &&& solve_recorded(solved, before, mid)
            &&& after == mid.flushed()
            &&& new_lines == old_lines + mid.flush_lines(total, run, memory) + answer_line(answer)
        }
}

impl Effect {
    /// Whether the effect took the record from `before` to `after` and the
    /// diagnostic channel from `old_lines` to `new_lines`.
    pub open spec fn holds(
        self,
        config: SessionConfig,
        before: Stat,
        after: Stat,
        old_lines: Seq<Diagnostic>,
        new_lines: Seq<Diagnostic>,
    ) -> bool {
        match self {
            Effect::Nothing => after == before && new_lines == old_lines,
            Effect::Ceilings { start } => {
                &&& ceilings_reported(config, old_lines, new_lines)
                &&& if start {
                    clocks_restarted(before, after)
                } else {
                    after == before
                }
            },
            Effect::StartLog => clocks_restarted(before, after) && new_lines == old_lines,
            Effect::Mark(stage) => stage_recorded(stage, before, after) && new_lines
                == old_lines,
            Effect::Flush { solved, answer } => flush_reported(
                solved,
                answer,
                before,
                after,
                old_lines,
                new_lines,
            ),
        }
    }
}

/// Whether `code` is one of the exit codes that stand for an answer.
pub open spec fn is_answer_code(code: i32) -> bool {
    code == EXIT_SATISFIABLE || code == EXIT_UNSATISFIABLE || code == EXIT_UNKNOWN
}

/// A session: its switches and where it stands.
///
/// A session that writes or has finished holds the exit code of an answer;
/// it cannot hold any other.
#[derive(Debug, Clone, Copy, PartialEq, Eq)]
pub struct Session {
    config: SessionConfig,
    phase: Phase,
}

/// Applies the two ceilings of `config`, the CPU time in seconds and the
/// memory as that many megabytes of address space, and reports each refusal
/// as a warning. A refusal does not end the session.
pub fn apply_ceilings(config: SessionConfig, diag: &mut Vec<Diagnostic>)
    ensures
        ceilings_reported(config, old(diag)@, final(diag)@),
        config.cpu_lim == 0 && config.mem_lim == 0 ==> final(diag)@ == old(diag)@,
{
    let cpu = limit_time(config.cpu_lim as u64);
    if let Err(refusal) = cpu {
        diag.push(Diagnostic::Warning(refusal));
    }
    let bytes: u64 = config.mem_lim as u64 * 0x10_0000;
    let memory = limit_memory(bytes);
    if let Err(refusal) = memory {
        diag.push(Diagnostic::Warning(refusal));
    }
    assert(diag@ == old(diag)@ + warning_line(cpu) + warning_line(memory));
}

/// Ends the timing of a session: records the end of the solve phase if
/// `solved` is set, flushes the record, and reports `answer` if there is
/// one.
pub fn finish(
    stat: &mut Stat,
    solved: bool,
    answer: Option<RawStatus>,
    diag: &mut Vec<Diagnostic>,
)
    ensures
        flush_reported(solved, answer, *old(stat), *final(stat), old(diag)@, final(diag)@),
        final(stat).printed,
{
    if solved {
        stat.solved();
    }
    let ghost mid = *stat;
    stat.print(diag);
    let ghost flushed_lines = diag@;
    if let Some(status) = answer {
        diag.push(Diagnostic::Answer(status));
    }
    proof {
        let (total, run, memory) = choose|total: Duration, run: Duration, memory: Option<u64>|
            flushed_lines == old(diag)@ + #[trigger] mid.flush_lines(total, run, memory);
        assert(diag@ == old(diag)@ + mid.flush_lines(total, run, memory) + answer_line(answer));
    }
}

/// An interrupt took the timing record from `before` to `after` and the
/// diagnostic channel from `old_lines` to `new_lines`: the latch is set,
/// and if it was open, the report and the note of the interruption were
/// added to the channel; if it was set, nothing was.
pub open spec fn interrupt_reported(
    before: Stat,
    after: Stat,
    old_lines: Seq<Diagnostic>,
    new_lines: Seq<Diagnostic>,
) -> bool {
    &&& after == before.flushed()
    &&& if before.printed {
        new_lines == old_lines
    } else {
        exists|total: Duration, run: Duration, memory: Option<u64>|
            new_lines == (old_lines + #[trigger] before.report(total, run, memory)).push(
                Diagnostic::Interrupted,
            )
    }
}

/// What the interrupt handler does once it holds the record: flushes it,
/// adds the note that the session was interrupted if this flush was the
/// first, and returns the exit code to leave the process with.
pub fn interrupt(stat: &mut Stat, diag: &mut Vec<Diagnostic>) -> (code: i32)
    ensures
        code == EXIT_UNKNOWN,
        interrupt_reported(*old(stat), *final(stat), old(diag)@, final(diag)@),
{
    let printed_now = stat.print(diag);
    if printed_now {
        diag.push(Diagnostic::Interrupted);
    }
    EXIT_UNKNOWN
}

/// Whatever a session writes to the result channel begins with the word of
/// exactly one answer, and the exit code that follows the write is the code
/// of that answer.
pub proof fn lemma_written_answer(phase: Phase, config: SessionConfig, event: Event) -> (status:
    RawStatus)
    requires
        transition(phase, config, event).action is Write,
    ensures
        transition(phase, config, event).phase == (Phase::Writing {
            code: status.spec_exit_code(),
        }),
        transition(phase, config, event).action matches ActionView::Write(bytes) && {
            &&& begins_with(bytes, status.token() + newline())
            &&& forall|other: RawStatus| begins_with(bytes, other.token()) <==> other == status
        },
        transition(Phase::Writing { code: status.spec_exit_code() }, config, Event::Done).action
            == ActionView::Exit(status.spec_exit_code()),
        transition(Phase::Writing { code: status.spec_exit_code() }, config, Event::Done).phase
            == (Phase::Finished { code: status.spec_exit_code() }),
{
    let outcome = match (phase, event) {
        (Phase::Probing, Event::Feasible(feasible)) => if feasible {
            SolverOutcome::Unknown
        } else {
            SolverOutcome::Unsatisfiable
        },
        (Phase::Solving, Event::Solved(answer)) => answer,
        _ => SolverOutcome::Unknown,
    };
    assert forall|other: RawStatus|
        begins_with(outcome.text(), other.token()) <==> other == outcome.spec_status() by {
        lemma_text_begins_with_one_token(outcome, other);
    }
    lemma_text_begins_with_one_token(outcome, outcome.spec_status());
    outcome.spec_status()
}

/// A session leaves the process only with an exit code that it has
/// announced: `Exit` follows a finished write, or repeats the code of a
/// session that has ended. No other step ends in `Exit`.
pub proof fn lemma_exit_follows_write(phase: Phase, config: SessionConfig, event: Event)
    requires
        transition(phase, config, event).action is Exit,
    ensures
        transition(phase, config, event).action matches ActionView::Exit(code) && (phase
            == (Phase::Writing { code }) && event == Event::Done || phase == (Phase::Finished {
            code,
        })),
        transition(phase, config, event).effect == (Effect::Flush { solved: false, answer: None }),
{
}

/// Every step that ends the session flushes the timing record first.
pub proof fn lemma_ending_flushes(phase: Phase, config: SessionConfig, event: Event)
    ensures
        ({
            let step = transition(phase, config, event);
            step.action is Write || step.action is Exit || step.action is Abort
        }) ==> transition(phase, config, event).effect is Flush,
        transition(phase, config, event).phase is Failed <==> transition(
            phase,
            config,
            event,
        ).action is Abort,
{
}

/// The phases of a session are timed in their order. The end of parsing is
/// recorded by the one step that leads to the elimination pass, the end of
/// simplification by the one step that leads to the feasibility probe, and
/// the end of solving only by a step out of the probe or the solve. Solving
/// begins only after the probe.
pub proof fn lemma_stages_in_order(phase: Phase, config: SessionConfig, event: Event)
    ensures
        ({
            let step = transition(phase, config, event);
            &&& step.effect == Effect::Mark(Stage::Parse) <==> phase == Phase::Parsing && event
                == Event::Done
            &&& step.effect == Effect::Mark(Stage::Simplify) <==> phase == Phase::Eliminating
                && event == Event::Done
            &&& step.phase == Phase::Eliminating <==> step.effect == Effect::Mark(Stage::Parse)
            &&& step.phase == Phase::Probing <==> step.effect == Effect::Mark(Stage::Simplify)
            &&& step.phase == Phase::Solving ==> phase == Phase::Probing
            &&& step.effect matches Effect::Flush { solved: true, .. } ==> phase == Phase::Probing
                || phase == Phase::Solving
            &&& step.effect matches Effect::Mark(stage) ==> stage != Stage::Solve
        }),
{
}

impl Session {
    #[verifier::type_invariant]
    spec fn holds_answer_code(self) -> bool {
        match self.phase {
            Phase::Writing { code } => is_answer_code(code),
            Phase::Finished { code } => is_answer_code(code),
            _ => true,
        }
    }

    /// The switches of the session.
    pub closed spec fn spec_config(&self) -> SessionConfig {
        self.config
    }

    /// Where the session stands.
    pub closed spec fn spec_phase(&self) -> Phase {
        self.phase
    }

    /// A session that has asked for nothing yet.
    pub fn new(config: SessionConfig) -> (session: Session)
        ensures
            session.spec_config() == config,
            session.spec_phase() == Phase::Fresh,
    {
        Session { config, phase: Phase::Fresh }
    }

    /// The switches of the session.
    #[verifier::when_used_as_spec(spec_config)]
    pub fn config(&self) -> (config: SessionConfig)
        ensures
            config == self.spec_config(),
    {
        self.config
    }

    /// Where the session stands.
    #[verifier::when_used_as_spec(spec_phase)]
    pub fn phase(&self) -> (phase: Phase)
        ensures
            phase == self.spec_phase(),
            phase matches Phase::Writing { code } ==> is_answer_code(code),
            phase matches Phase::Finished { code } ==> is_answer_code(code),
    {
        proof {
            use_type_invariant(self);
        }
        self.phase
    }

    fn abandon(&mut self, stat: &mut Stat, diag: &mut Vec<Diagnostic>) -> (action: Action)
        ensures
            final(self).spec_config() == old(self).spec_config(),
            final(self).spec_phase() == give_up().phase,
            action@ == give_up().action,
            give_up().effect.holds(
                old(self).spec_config(),
                *old(stat),
                *final(stat),
                old(diag)@,
                final(diag)@,
            ),
            final(stat).printed,
    {
        finish(stat, false, None, diag);
        self.phase = Phase::Failed;
        Action::Abort
    }

    fn settle(
        &mut self,
        outcome: SolverOutcome,
        solved: bool,
        stat: &mut Stat,
        diag: &mut Vec<Diagnostic>,
    ) -> (action: Action)
        ensures
            final(self).spec_config() == old(self).spec_config(),
            final(self).spec_phase() == conclude(outcome, solved).phase,
            action@ == conclude(outcome, solved).action,
            conclude(outcome, solved).effect.holds(
                old(self).spec_config(),
                *old(stat),
                *final(stat),
                old(diag)@,
                final(diag)@,
            ),
            final(stat).printed,
    {
        let status = outcome.status();
        finish(stat, solved, Some(status), diag);
        self.phase = Phase::Writing { code: status.exit_code() };
        Action::Write(outcome.render())
    }

    /// Takes one step: from how the last action ended to the next action.
    ///
    /// The step is the one that `transition` gives for the phase, the
    /// switches and the event. Before any action that ends the session
    /// (`Write`, `Exit`, `Abort`) the timing record is flushed, so the latch
    /// is set when the driver sees such an action. An `Exit` carries the
    /// exit code of an answer.
    pub fn step(&mut self, stat: &mut Stat, event: Event, diag: &mut Vec<Diagnostic>) -> (action:
        Action)
        ensures
            final(self).spec_config() == old(self).spec_config(),
            final(self).spec_phase() == transition(
                old(self).spec_phase(),
                old(self).spec_config(),
                event,
            ).phase,
            action@ == transition(old(self).spec_phase(), old(self).spec_config(), event).action,
            transition(old(self).spec_phase(), old(self).spec_config(), event).effect.holds(
                old(self).spec_config(),
                *old(stat),
                *final(stat),
                old(diag)@,
                final(diag)@,
            ),
            (action is Write || action is Exit || action is Abort) ==> final(stat).printed,
            action matches Action::Exit(code) ==> is_answer_code(code),
    {
        proof {
            use_type_invariant(&*self);
        }
        match self.phase {
            Phase::Fresh => match event {
                Event::Begin => {
                    self.phase = Phase::OpeningOutput;
                    Action::OpenOutput
                },
                _ => self.abandon(stat, diag),
            },
            Phase::OpeningOutput => match event {
                Event::Done => {
                    self.phase = Phase::Configuring;
                    Action::ApplyOptions
                },
                _ => self.abandon(stat, diag),
            },
            Phase::Configuring => match event {
                Event::Done => {
                    self.phase = Phase::Arming;
                    Action::InstallInterrupt
                },
                _ => self.abandon(stat, diag),
            },
            Phase::Arming => match event {
                Event::Done => {
                    apply_ceilings(self.config, diag);
                    if self.config.pre {
                        stat.start_log();
                        self.phase = Phase::Parsing;
                        Action::Parse { strict: self.config.strictp }
                    } else {
                        self.phase = Phase::PreDisabling;
                        Action::Eliminate
                    }
                },
                _ => self.abandon(stat, diag),
            },
            Phase::PreDisabling => match event {
                Event::Done => {
                    stat.start_log();
                    self.phase = Phase::Parsing;
                    Action::Parse { strict: self.config.strictp }
                },
                _ => self.abandon(stat, diag),
            },
            Phase::Parsing => match event {
                Event::Done => {
                    stat.parsed();
                    self.phase = Phase::Eliminating;
                    Action::Eliminate
                },
                _ => self.abandon(stat, diag),
            },
            Phase::Eliminating => match event {
                Event::Done => {
                    stat.simplified();
                    self.phase = Phase::Probing;
                    Action::CheckFeasible
                },
                _ => self.abandon(stat, diag),
            },
            Phase::Probing => match event {
                Event::Feasible(feasible) => {
                    if !feasible {
                        self.settle(SolverOutcome::Unsatisfiable, false, stat, diag)
                    } else if self.config.solve {
                        self.phase = Phase::Solving;
                        Action::Solve
                    } else {
                        self.settle(SolverOutcome::Unknown, true, stat, diag)
                    }
                },
                _ => self.abandon(stat, diag),
            },
            Phase::Solving => match event {
                Event::Solved(outcome) => self.settle(outcome, true, stat, diag),
                _ => self.abandon(stat, diag),
            },
            Phase::Writing { code } => match event {
                Event::Done => {
                    finish(stat, false, None, diag);
                    self.phase = Phase::Finished { code };
                    Action::Exit(code)
                },
                _ => self.abandon(stat, diag),
            },
            Phase::Finished { code } => {
                finish(stat, false, None, diag);
                Action::Exit(code)
            },
            Phase::Failed => self.abandon(stat, diag),
        }
    }
}

} // verus!
