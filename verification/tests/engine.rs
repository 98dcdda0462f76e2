use sat_session::replay::StdinReader;
use sat_session::session::Action;
use sat_session::session::Event;
use sat_session::session::Session;
use sat_session::session::SessionConfig;
use sat_session::outcome::SolverOutcome;
use sat_session::stat::Diagnostic;
use sat_session::stat::Stat;
use satgalaxy::parser::read_dimacs_from_reader;
use satgalaxy::solver::MinisatSolver;
use satgalaxy::solver::RawStatus;
use std::io::Read;

/// A console that hands out its bytes a few at a time, read through the
/// replay buffer.
struct Console {
    bytes: Vec<u8>,
    taken: usize,
    reader: StdinReader,
}

impl Read for Console {
    fn read(&mut self, buf: &mut [u8]) -> std::io::Result<usize> {
        if let Some(served) = self.reader.read(buf) {
            return Ok(served);
        }
        let left = &self.bytes[self.taken..];
        let count = left.len().min(buf.len()).min(5);
        buf[..count].copy_from_slice(&left[..count]);
        self.taken += count;
        self.reader.extend(&buf[..count]);
        Ok(count)
    }
}

struct Ended {
    code: Option<i32>,
    output: Vec<u8>,
    diag: Vec<Diagnostic>,
}

/// Drives a session over the MiniSat engine with `input` on the console.
fn drive(input: &[u8], config: SessionConfig) -> Ended {
    let mut session = Session::new(config);
    let mut stat = Stat::new();
    let mut diag = Vec::new();
    let mut output = Vec::new();
    let mut solver = MinisatSolver::new();
    let mut event = Event::Begin;
    loop {
        let action = session.step(&mut stat, event, &mut diag);
        event = match action {
            Action::OpenOutput | Action::ApplyOptions | Action::InstallInterrupt => Event::Done,
            Action::Eliminate => {
                solver.eliminate(true);
                Event::Done
            }
            Action::Parse { strict } => {
                let console =
                    Console { bytes: input.to_vec(), taken: 0, reader: StdinReader::new() };
                match read_dimacs_from_reader(console, strict, &mut solver) {
                    Ok(()) => Event::Done,
                    Err(_) => Event::Failed,
                }
            }
            Action::CheckFeasible => Event::Feasible(solver.okay()),
            Action::Solve => Event::Solved(match solver.solve_limited(&[], true, false) {
                RawStatus::Satisfiable => {
                    let count = solver.vars();
                    SolverOutcome::Satisfiable(
                        (1..=count).map(|variable| solver.model_value(variable)).collect(),
                    )
                }
                RawStatus::Unsatisfiable => SolverOutcome::Unsatisfiable,
                RawStatus::Unknown => SolverOutcome::Unknown,
            }),
            Action::Write(bytes) => {
                output.extend_from_slice(&bytes);
                Event::Done
            }
            Action::Exit(code) => return Ended { code: Some(code), output, diag },
            Action::Abort => return Ended { code: None, output, diag },
        };
    }
}

fn plain() -> SessionConfig {
    SessionConfig { pre: true, solve: true, cpu_lim: 0, mem_lim: 0, strictp: false }
}

#[test]
fn contradiction_ends_unsat_with_20() {
    let ended = drive(b"p cnf 1 2\n1 0\n-1 0\n", plain());
    assert_eq!(ended.code, Some(20));
    assert_eq!(ended.output, b"UNSAT\n".to_vec());
}

#[test]
fn unit_clause_ends_sat_with_0() {
    let ended = drive(b"p cnf 1 1\n1 0\n", plain());
    assert_eq!(ended.code, Some(0));
    assert_eq!(ended.output, b"SAT\n1 0\n".to_vec());
}

#[test]
fn forced_assignment_is_written_in_full() {
    let ended = drive(b"p cnf 3 3\n-1 0\n2 0\n-3 0\n", plain());
    assert_eq!(ended.code, Some(0));
    assert_eq!(ended.output, b"SAT\n-1 2 -3 0\n".to_vec());
}

#[test]
fn without_solving_the_answer_is_unknown() {
    let config = SessionConfig { solve: false, ..plain() };
    let ended = drive(b"p cnf 2 1\n1 2 0\n", config);
    assert_eq!(ended.code, Some(30));
    assert_eq!(ended.output, b"UNKNOWN\n".to_vec());
}

#[test]
fn malformed_input_aborts_with_the_stats_flushed() {
    let ended = drive(b"p cnf 1 1\nnot a clause\n", plain());
    assert_eq!(ended.code, None);
    assert!(ended.output.is_empty());
    assert!(ended.diag.iter().any(|line| matches!(line, Diagnostic::TotalTime(_))));
    assert_eq!(
        ended.diag.iter().filter(|line| matches!(line, Diagnostic::RunTime(_))).count(),
        1
    );
}

#[test]
fn stats_are_flushed_once_per_session() {
    let ended = drive(b"p cnf 1 1\n1 0\n", plain());
    assert_eq!(
        ended.diag.iter().filter(|line| matches!(line, Diagnostic::TotalTime(_))).count(),
        1
    );
    assert!(matches!(
        ended.diag.last(),
        Some(Diagnostic::Answer(sat_session::outcome::RawStatus::Satisfiable))
    ));
}
