//! Phased timing of a session, flushed to the diagnostic channel at most
//! once.
//!
//! A `Stat` is created when the session begins. The phases are recorded as
//! they end; `print` then hands the report to the diagnostic channel and
//! sets a latch, so that a second flush, from whichever path it comes,
//! emits nothing.

use vstd::prelude::*;
use vstd::string::StringExecFns;
use std::time::Duration;
use std::time::Instant;
use cpu_time::ProcessTime;
use crate::limits::LimitError;
use crate::memory::get_memory;
use crate::outcome::RawStatus;

verus! {

/// `cpu_time::ProcessTime`, a reading of the CPU time that the process has
/// used.
#[verifier::external_type_specification]
#[verifier::external_body]
pub struct ExProcessTime(ProcessTime);

/// `std::time::Instant`, a reading of the wall clock.
#[verifier::external_type_specification]
#[verifier::external_body]
pub struct ExInstant(Instant);

/// `cpu_time::ProcessTime::now`: the CPU time used so far. It reads a
/// clock, so nothing is claimed of the value. It panics on a kernel without
/// a process CPU clock.
pub assume_specification[ ProcessTime::now ]() -> (reading: ProcessTime)
;

/// `cpu_time::ProcessTime::elapsed`: the CPU time used since `start` was
/// read. Nothing is claimed of the value. It reads the clock as `now` does,
/// and panics where `now` does.
pub assume_specification[ ProcessTime::elapsed ](start: &ProcessTime) -> (used: Duration)
;

/// `std::time::Instant::now`: the wall clock now. Nothing is claimed of the
/// value.
pub assume_specification[ Instant::now ]() -> (reading: Instant)
;

/// `std::time::Instant::elapsed`: the wall-clock time since `start` was
/// read. Nothing is claimed of the value.
pub assume_specification[ Instant::elapsed ](start: &Instant) -> (passed: Duration)
;

/// One line of the diagnostic channel.
#[derive(Debug, Clone, Copy, PartialEq)]
pub enum Diagnostic {
    /// CPU time of the parse phase.
    ParseTime(Duration),
    /// CPU time of the simplification phase.
    SimplificationTime(Duration),
    /// CPU time of the solve phase.
    SolveTime(Duration),
    /// CPU time since the session started.
    TotalTime(Duration),
    /// Wall-clock time since the session was created.
    RunTime(Duration),
    /// Resident memory in bytes.
    Memory(u64),
    /// The session was interrupted.
    Interrupted,
    /// A ceiling could not be installed; the session goes on without it.
    Warning(LimitError),
    /// The answer of the engine.
    Answer(RawStatus),
}

impl Diagnostic {
    /// The fixed text of the line. For a time and for the memory it is the
    /// label that the value follows; for every other line it is the whole
    /// line.
    pub open spec fn prefix_text(self) -> Seq<char> {
        match self {
            Diagnostic::ParseTime(_) => "c Parse time:           "@,
            Diagnostic::SimplificationTime(_) => "c Simplification time:  "@,
            Diagnostic::SolveTime(_) => "c Solve time:           "@,
            Diagnostic::TotalTime(_) => "c Total time:           "@,
            Diagnostic::RunTime(_) => "c Run time:             "@,
            Diagnostic::Memory(_) => "c Memory:               "@,
            Diagnostic::Interrupted => "c Interrupted"@,
            Diagnostic::Warning(refusal) => "c WARNING: "@ + refusal.message_text(),
            Diagnostic::Answer(RawStatus::Satisfiable) => "c SATISFIABLE"@,
            Diagnostic::Answer(RawStatus::Unsatisfiable) => "c UNSATISFIABLE"@,
            Diagnostic::Answer(RawStatus::Unknown) => "c UNKNOWN"@,
        }
    }

    /// The fixed text of the line.
    pub fn prefix(self) -> (text: String)
        ensures
            text@ == self.prefix_text(),
    {
        match self {
            Diagnostic::ParseTime(_) => String::from_str("c Parse time:           "),
            Diagnostic::SimplificationTime(_) => String::from_str("c Simplification time:  "),
            Diagnostic::SolveTime(_) => String::from_str("c Solve time:           "),
            Diagnostic::TotalTime(_) => String::from_str("c Total time:           "),
            Diagnostic::RunTime(_) => String::from_str("c Run time:             "),
            Diagnostic::Memory(_) => String::from_str("c Memory:               "),
            Diagnostic::Interrupted => String::from_str("c Interrupted"),
            Diagnostic::Warning(refusal) => {
                let mut text = String::from_str("c WARNING: ");
                let message = refusal.message();
                text.append(message.as_str());
                text
            },
            Diagnostic::Answer(RawStatus::Satisfiable) => String::from_str("c SATISFIABLE"),
            Diagnostic::Answer(RawStatus::Unsatisfiable) => String::from_str("c UNSATISFIABLE"),
            Diagnostic::Answer(RawStatus::Unknown) => String::from_str("c UNKNOWN"),
        }
    }
}

/// Every line of the diagnostic channel is a comment: it begins with `c`
/// and a space.
pub proof fn lemma_prefix_marks_comment(line: Diagnostic)
    ensures
        line.prefix_text().len() >= 2,
        line.prefix_text()[0] == 'c',
        line.prefix_text()[1] == ' ',
{
    reveal_strlit("c Parse time:           ");
    reveal_strlit("c Simplification time:  ");
    reveal_strlit("c Solve time:           ");
    reveal_strlit("c Total time:           ");
    reveal_strlit("c Run time:             ");
    reveal_strlit("c Memory:               ");
    reveal_strlit("c Interrupted");
    reveal_strlit("c WARNING: ");
    reveal_strlit("c SATISFIABLE");
    reveal_strlit("c UNSATISFIABLE");
    reveal_strlit("c UNKNOWN");
}

/// The three timed phases of a session.
#[derive(Debug, Clone, Copy, PartialEq, Eq, Structural)]
pub enum Stage {
    Parse,
    Simplify,
    Solve,
}

/// The timing record of one session.
pub struct Stat {
    /// CPU time of the parse phase, once it has ended.
    pub parsed_time: Option<Duration>,
    /// CPU time of the simplification phase, once it has ended.
    pub simplified_time: Option<Duration>,
    /// CPU time of the solve phase, once it has ended.
    pub solve_time: Option<Duration>,
    /// The wall clock when the record was created.
    pub run_time: Instant,
    /// The CPU clock when the session started.
    pub total_time: ProcessTime,
    /// The CPU clock when the last phase ended.
    pub least_time: ProcessTime,
    /// The latch: whether the report has been flushed.
    pub printed: bool,
}

/// The line of a phase that has ended; nothing for one that has not.
pub open spec fn phase_line(time: Option<Duration>, line: spec_fn(Duration) -> Diagnostic) -> Seq<
    Diagnostic,
> {
    match time {
        Some(d) => seq![line(d)],
        None => Seq::<Diagnostic>::empty(),
    }
}

/// The line of the memory sample; nothing where the sample failed.
pub open spec fn memory_line(memory: Option<u64>) -> Seq<Diagnostic> {
    match memory {
        Some(bytes) => seq![Diagnostic::Memory(bytes)],
        None => Seq::<Diagnostic>::empty(),
    }
}

impl Stat {
    /// The report of this record: the phases that have ended, in their
    /// order, then the total CPU time `total`, the wall-clock time `run` and
    /// the memory sample.
    pub open spec fn report(self, total: Duration, run: Duration, memory: Option<u64>) -> Seq<
        Diagnostic,
    > {
        phase_line(self.parsed_time, |d: Duration| Diagnostic::ParseTime(d)) + phase_line(
            self.simplified_time,
            |d: Duration| Diagnostic::SimplificationTime(d),
        ) + phase_line(self.solve_time, |d: Duration| Diagnostic::SolveTime(d))
            + seq![Diagnostic::TotalTime(total), Diagnostic::RunTime(run)] + memory_line(memory)
    }

    /// What a flush emits: the report, unless the latch is set.
    pub open spec fn flush_lines(self, total: Duration, run: Duration, memory: Option<u64>) -> Seq<
        Diagnostic,
    > {
        if self.printed {
            Seq::<Diagnostic>::empty()
        } else {
            self.report(total, run, memory)
        }
    }

    /// The record after a flush: the same, with the latch set.
    pub open spec fn flushed(self) -> Stat {
        Stat { printed: true, ..self }
    }

    /// The record with its CPU clocks set anew: the session's to `total`,
    /// the phase's to `least`.
    pub open spec fn restarted(self, total: ProcessTime, least: ProcessTime) -> Stat {
        Stat { total_time: total, least_time: least, ..self }
    }

    /// The record after `stage` has ended: the phase took `used`, and the
    /// next one begins at `now`.
    pub open spec fn recorded(self, stage: Stage, used: Duration, now: ProcessTime) -> Stat {
        match stage {
            Stage::Parse => Stat { parsed_time: Some(used), least_time: now, ..self },
            Stage::Simplify => Stat { simplified_time: Some(used), least_time: now, ..self },
            Stage::Solve => Stat { solve_time: Some(used), least_time: now, ..self },
        }
    }

    /// A record with no phase ended and the latch open; its clocks read
    /// now.
    pub fn new() -> (stat: Stat)
        ensures
            stat.parsed_time is None,
            stat.simplified_time is None,
            stat.solve_time is None,
            !stat.printed,
    {
        Stat {
            run_time: Instant::now(),
            total_time: ProcessTime::now(),
            least_time: ProcessTime::now(),
            printed: false,
            parsed_time: None,
            simplified_time: None,
            solve_time: None,
        }
    }

    /// Sets the CPU clocks anew, to the readings `total` and `least`.
    pub fn restart(&mut self, total: ProcessTime, least: ProcessTime)
        ensures
            *final(self) == old(self).restarted(total, least),
    {
        self.total_time = total;
        self.least_time = least;
    }

    /// Records that `stage` has ended after `used`, and that the next phase
    /// begins at the reading `now`. A phase recorded twice keeps the later
    /// time.
    pub fn record(&mut self, stage: Stage, used: Duration, now: ProcessTime)
        ensures
            *final(self) == old(self).recorded(stage, used, now),
    {
        match stage {
            Stage::Parse => {
                self.parsed_time = Some(used);
            },
            Stage::Simplify => {
                self.simplified_time = Some(used);
            },
            Stage::Solve => {
                self.solve_time = Some(used);
            },
        }
        self.least_time = now;
    }

    /// Restarts the CPU clocks at their present readings: the session's
    /// work begins here.
    pub fn start_log(&mut self)
        ensures
            exists|total: ProcessTime, least: ProcessTime|
                *final(self) == #[trigger] old(self).restarted(total, least),
    {
        let total = ProcessTime::now();
        let least = ProcessTime::now();
        self.restart(total, least);
    }

    /// Records the end of a phase at the present readings of the clock.
    pub fn mark(&mut self, stage: Stage)
        ensures
            exists|used: Duration, now: ProcessTime|
                *final(self) == #[trigger] old(self).recorded(stage, used, now),
    {
        let used = self.least_time.elapsed();
        let now = ProcessTime::now();
        self.record(stage, used, now);
    }

    /// Records the end of the parse phase.
    pub fn parsed(&mut self)
        ensures
            exists|used: Duration, now: ProcessTime|
                *final(self) == #[trigger] old(self).recorded(Stage::Parse, used, now),
    {
        self.mark(Stage::Parse);
    }

    /// Records the end of the simplification phase.
    pub fn simplified(&mut self)
        ensures
            exists|used: Duration, now: ProcessTime|
                *final(self) == #[trigger] old(self).recorded(Stage::Simplify, used, now),
    {
        self.mark(Stage::Simplify);
    }

    /// Records the end of the solve phase.
    pub fn solved(&mut self)
        ensures
            exists|used: Duration, now: ProcessTime|
                *final(self) == #[trigger] old(self).recorded(Stage::Solve, used, now),
    {
        self.mark(Stage::Solve);
    }

    /// Flushes the record with the readings `total`, `run` and `memory`.
    ///
    /// With the latch open it appends the report to `out`, sets the latch
    /// and returns `true`. With the latch set it changes nothing and returns
    /// `false`.
    pub fn flush(
        &mut self,
        total: Duration,
        run: Duration,
        memory: Option<u64>,
        out: &mut Vec<Diagnostic>,
    ) -> (printed_now: bool)
        ensures
            printed_now == !old(self).printed,
            *final(self) == old(self).flushed(),
            final(out)@ == old(out)@ + old(self).flush_lines(total, run, memory),
    {
        if self.printed {
            return false;
        }
        if let Some(d) = self.parsed_time {
            out.push(Diagnostic::ParseTime(d));
        }
        if let Some(d) = self.simplified_time {
            out.push(Diagnostic::SimplificationTime(d));
        }
        if let Some(d) = self.solve_time {
            out.push(Diagnostic::SolveTime(d));
        }
        out.push(Diagnostic::TotalTime(total));
        out.push(Diagnostic::RunTime(run));
        if let Some(bytes) = memory {
            out.push(Diagnostic::Memory(bytes));
        }
        self.printed = true;
        true
    }

    /// Flushes the record: reads the clocks and the memory, then does what
    /// `flush` does with the readings.
    ///
    /// The result tells a first flush (`true`) from a later one (`false`).
    /// A later one reads nothing and emits nothing.
    pub fn print(&mut self, out: &mut Vec<Diagnostic>) -> (printed_now: bool)
        ensures
            printed_now == !old(self).printed,
            *final(self) == old(self).flushed(),
            old(self).printed ==> final(out)@ == old(out)@,
            exists|total: Duration, run: Duration, memory: Option<u64>|
                final(out)@ == old(out)@ + #[trigger] old(self).flush_lines(total, run, memory),
    {
        if self.printed {
            proof {
                let d: Duration = arbitrary();
                assert(out@ == old(out)@ + old(self).flush_lines(d, d, None));
            }
            return false;
        }
        let total = self.total_time.elapsed();
        let run = self.run_time.elapsed();
        let memory = get_memory();
        self.flush(total, run, memory, out)
    }
}

/// A flush after a flush emits nothing and leaves the record as it is.
pub proof fn lemma_flush_once(
    stat: Stat,
    total: Duration,
    run: Duration,
    memory: Option<u64>,
)
    ensures
        stat.flushed().printed,
        stat.flushed().flush_lines(total, run, memory) == Seq::<Diagnostic>::empty(),
        stat.flushed().flushed() == stat.flushed(),
{
}

} // verus!
