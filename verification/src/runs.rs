//! Runs of a session: what holds of every sequence of steps.
//!
//! A run is a session, the events it met, and the states that the timing
//! record and the two channels went through. The laws here say that a run
//! writes one answer at most, that the exit code is the one of the answer
//! written, and that the timing record is reported once.

use vstd::prelude::*;
use std::time::Duration;
use crate::limits::LimitError;
use crate::outcome::SolverOutcome;
use crate::session::answer_line;
use crate::session::interrupt_reported;
use crate::session::solve_recorded;
use crate::session::transition;
use crate::session::warning_line;
use crate::session::ActionView;
use crate::session::Effect;
use crate::session::Event;
use crate::session::Phase;
use crate::session::SessionConfig;
use crate::session::Transition;
use crate::stat::memory_line;
use crate::stat::phase_line;
use crate::stat::Diagnostic;
use crate::stat::Stat;

verus! {

/// What an action writes to the result channel.
pub open spec fn payload(action: ActionView) -> Seq<u8> {
    match action {
        ActionView::Write(bytes) => bytes,
        _ => Seq::<u8>::empty(),
    }
}

/// The phase of a session that was in `phase` and has met `events` in turn.
pub open spec fn phase_after(phase: Phase, config: SessionConfig, events: Seq<Event>) -> Phase
    decreases events.len(),
{
    if events.len() == 0 {
        phase
    } else {
        transition(phase_after(phase, config, events.drop_last()), config, events.last()).phase
    }
}

/// The step that the last of `events` leads to, in a session that was in
/// `phase` and has met `events` in turn.
pub open spec fn last_step(phase: Phase, config: SessionConfig, events: Seq<Event>) -> Transition
    recommends
        events.len() > 0,
{
    transition(phase_after(phase, config, events.drop_last()), config, events.last())
}

/// The step that event `i` of `events` leads to, in a session that was in
/// `phase` and has met the events before it.
pub open spec fn step_at(phase: Phase, config: SessionConfig, events: Seq<Event>, i: int) -> Transition
    recommends
        0 <= i < events.len(),
{
    last_step(phase, config, events.take(i + 1))
}

/// Everything that a session which was in `phase` and has met `events` in
/// turn was told to write to the result channel.
pub open spec fn written_after(phase: Phase, config: SessionConfig, events: Seq<Event>) -> Seq<u8>
    decreases events.len(),
{
    if events.len() == 0 {
        Seq::<u8>::empty()
    } else {
        written_after(phase, config, events.drop_last()) + payload(
            last_step(phase, config, events).action,
        )
    }
}

/// Whether `bytes` is the whole text of an answer whose exit code is `code`.
pub open spec fn is_answer_text(bytes: Seq<u8>, code: i32) -> bool {
    exists|outcome: SolverOutcome| #[trigger]
        outcome.text() == bytes && outcome.spec_status().spec_exit_code() == code
}

/// What the result channel may hold when a session stands in `phase`:
/// nothing before the answer is written; the text of one answer, with the
/// exit code that the phase holds, from then on; nothing or the text of one
/// answer in a session that was given up.
pub open spec fn channel_fits(phase: Phase, channel: Seq<u8>) -> bool {
    match phase {
        Phase::Writing { code } => is_answer_text(channel, code),
        Phase::Finished { code } => is_answer_text(channel, code),
        Phase::Failed => channel.len() == 0 || exists|code: i32| is_answer_text(channel, code),
        _ => channel.len() == 0,
    }
}

/// A session writes one answer at most. Whatever events a session meets
/// from its beginning, the result channel holds what fits its phase:
/// nothing, or the whole text of one answer. When the last action is
/// `Exit`, the channel holds the text of an answer whose exit code is the
/// one that `Exit` carries.
pub proof fn lemma_one_answer_per_session(config: SessionConfig, events: Seq<Event>)
    ensures
        channel_fits(
            phase_after(Phase::Fresh, config, events),
            written_after(Phase::Fresh, config, events),
        ),
        ({
            let channel = written_after(Phase::Fresh, config, events);
            channel.len() == 0 || exists|code: i32| is_answer_text(channel, code)
        }),
        events.len() > 0 ==> (last_step(Phase::Fresh, config, events).action
            matches ActionView::Exit(code) ==> is_answer_text(
            written_after(Phase::Fresh, config, events),
            code,
        )),
    decreases events.len(),
{
    if events.len() > 0 {
        lemma_one_answer_per_session(config, events.drop_last());
    }
}

/// How many reports of the timing record `lines` holds. Every report has
/// one line of total time, and no other line is one.
pub open spec fn reports_in(lines: Seq<Diagnostic>) -> nat
    decreases lines.len(),
{
    if lines.len() == 0 {
        0
    } else if lines.last() is TotalTime {
        reports_in(lines.drop_last()) + 1
    } else {
        reports_in(lines.drop_last())
    }
}

/// A run of a session that was in `phase` and met `events` in turn: the
/// timing record went through `stats` and the diagnostic channel through
/// `channel`, one state before the first event and one after each, and
/// every step had its effect.
pub open spec fn session_ran(
    phase: Phase,
    config: SessionConfig,
    events: Seq<Event>,
    stats: Seq<Stat>,
    channel: Seq<Seq<Diagnostic>>,
) -> bool {
    &&& stats.len() == events.len() + 1
    &&& channel.len() == events.len() + 1
    &&& forall|i: int|
        0 <= i < events.len() ==> (#[trigger] step_at(phase, config, events, i)).effect.holds(
            config,
            stats[i],
            stats[i + 1],
            channel[i],
            channel[i + 1],
        )
}

proof fn lemma_reports_add(front: Seq<Diagnostic>, back: Seq<Diagnostic>)
    ensures
        reports_in(front + back) == reports_in(front) + reports_in(back),
    decreases back.len(),
{
    if back.len() > 0 {
        lemma_reports_add(front, back.drop_last());
        assert((front + back).drop_last() =~= front + back.drop_last());
    }
}

proof fn lemma_single_line(lines: Seq<Diagnostic>)
    requires
        lines.len() <= 1,
    ensures
        reports_in(lines) == if lines.len() == 1 && lines[0] is TotalTime {
            1nat
        } else {
            0nat
        },
{
    if lines.len() == 1 {
        assert(reports_in(lines.drop_last()) == 0);
    }
}

proof fn lemma_report_counts_once(stat: Stat, total: Duration, run: Duration, memory: Option<u64>)
    ensures
        reports_in(stat.report(total, run, memory)) == 1,
        reports_in(stat.flush_lines(total, run, memory)) == if stat.printed {
            0nat
        } else {
            1nat
        },
{
    let parse = phase_line(stat.parsed_time, |d: Duration| Diagnostic::ParseTime(d));
    let simplify = phase_line(
        stat.simplified_time,
        |d: Duration| Diagnostic::SimplificationTime(d),
    );
    let solve = phase_line(stat.solve_time, |d: Duration| Diagnostic::SolveTime(d));
    let total_line = seq![Diagnostic::TotalTime(total)];
    let run_line = seq![Diagnostic::RunTime(run)];
    let sample = memory_line(memory);
    lemma_single_line(parse);
    lemma_single_line(simplify);
    lemma_single_line(solve);
    lemma_single_line(total_line);
    lemma_single_line(run_line);
    lemma_single_line(sample);
    lemma_reports_add(parse, simplify);
    lemma_reports_add(parse + simplify, solve);
    lemma_reports_add(parse + simplify + solve, total_line);
    lemma_reports_add(parse + simplify + solve + total_line, run_line);
    lemma_reports_add(parse + simplify + solve + total_line + run_line, sample);
    assert(stat.report(total, run, memory) =~= parse + simplify + solve + total_line + run_line
        + sample);
}

/// What one step does to the latch and to the reports on the diagnostic
/// channel. A flush sets the latch; no other effect touches it. A flush
/// with the latch open adds one report; nothing else adds any. The channel
/// only grows.
pub proof fn lemma_effect_reports_once(
    effect: Effect,
    config: SessionConfig,
    before: Stat,
    after: Stat,
    old_lines: Seq<Diagnostic>,
    new_lines: Seq<Diagnostic>,
)
    requires
        effect.holds(config, before, after, old_lines, new_lines),
    ensures
        after.printed == (before.printed || effect is Flush),
        reports_in(new_lines) == reports_in(old_lines) + if effect is Flush && !before.printed {
            1nat
        } else {
            0nat
        },
        old_lines.is_prefix_of(new_lines),
{
    match effect {
        Effect::Ceilings { start } => {
            let (cpu, memory) = choose|cpu: Result<(), LimitError>, memory: Result<(), LimitError>|
                #![trigger warning_line(cpu), warning_line(memory)]
                new_lines == old_lines + warning_line(cpu) + warning_line(memory);
            lemma_single_line(warning_line(cpu));
            lemma_single_line(warning_line(memory));
            lemma_reports_add(old_lines, warning_line(cpu));
            lemma_reports_add(old_lines + warning_line(cpu), warning_line(memory));
        },
        Effect::Flush { solved, answer } => {
            let (mid, total, run, memory) = choose|
                mid: Stat,
                total: Duration,
                run: Duration,
                memory: Option<u64>,
            |
                #![trigger mid.flush_lines(total, run, memory)]
                solve_recorded(solved, before, mid) && after == mid.flushed() && new_lines
                    == old_lines + mid.flush_lines(total, run, memory) + answer_line(answer);
            lemma_report_counts_once(mid, total, run, memory);
            lemma_single_line(answer_line(answer));
            lemma_reports_add(old_lines, mid.flush_lines(total, run, memory));
            lemma_reports_add(
                old_lines + mid.flush_lines(total, run, memory),
                answer_line(answer),
            );
        },
        _ => {},
    }
}

/// The timing record is reported once. In every run of a session, at every
/// point of it: the latch, once set, stays set; the diagnostic channel has
/// only grown; it has gained one report if the latch was open at first and
/// is set now, and none otherwise; and the latch is set once the session
/// has written its answer, has finished or was given up.
pub proof fn lemma_one_report_per_session(
    phase: Phase,
    config: SessionConfig,
    events: Seq<Event>,
    stats: Seq<Stat>,
    channel: Seq<Seq<Diagnostic>>,
    point: int,
)
    requires
        session_ran(phase, config, events, stats, channel),
        0 <= point <= events.len(),
    ensures
        stats[0].printed ==> stats[point].printed,
        reports_in(channel[point]) == reports_in(channel[0]) + if stats[point].printed
            && !stats[0].printed {
            1nat
        } else {
            0nat
        },
        channel[0].is_prefix_of(channel[point]),
        point > 0 ==> ({
            let reached = phase_after(phase, config, events.take(point));
            reached is Writing || reached is Finished || reached is Failed
        } ==> stats[point].printed),
    decreases point,
{
    if point > 0 {
        lemma_one_report_per_session(phase, config, events, stats, channel, point - 1);
        let step = step_at(phase, config, events, point - 1);
        lemma_effect_reports_once(
            step.effect,
            config,
            stats[point - 1],
            stats[point],
            channel[point - 1],
            channel[point],
        );
    }
}

/// An interrupt does not report the timing record again. Where an
/// interrupt comes at any point of a run that began with the latch open,
/// the diagnostic channel holds one report afterwards, whether the session
/// had flushed before the interrupt or the interrupt did; and the note of
/// the interruption is the last line exactly when the interrupt did.
pub proof fn lemma_interrupt_reports_once(
    phase: Phase,
    config: SessionConfig,
    events: Seq<Event>,
    stats: Seq<Stat>,
    channel: Seq<Seq<Diagnostic>>,
    point: int,
    after: Stat,
    lines: Seq<Diagnostic>,
)
    requires
        session_ran(phase, config, events, stats, channel),
        0 <= point <= events.len(),
        !stats[0].printed,
        interrupt_reported(stats[point], after, channel[point], lines),
    ensures
        after.printed,
        reports_in(lines) == reports_in(channel[0]) + 1,
        channel[0].is_prefix_of(lines),
        stats[point].printed ==> lines == channel[point],
        !stats[point].printed ==> lines.len() > 0 && lines.last() == Diagnostic::Interrupted,
{
    lemma_one_report_per_session(phase, config, events, stats, channel, point);
    if !stats[point].printed {
        let (total, run, memory) = choose|total: Duration, run: Duration, memory: Option<u64>|
            lines == (channel[point] + #[trigger] stats[point].report(total, run, memory)).push(
                Diagnostic::Interrupted,
            );
        let report = stats[point].report(total, run, memory);
        lemma_report_counts_once(stats[point], total, run, memory);
        lemma_reports_add(channel[point], report);
        assert(lines.drop_last() =~= channel[point] + report);
    }
}

} // verus!
