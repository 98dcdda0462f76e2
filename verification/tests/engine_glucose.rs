use sat_session::outcome::SolverOutcome;
use sat_session::session::Action;
use sat_session::session::Event;
use sat_session::session::Session;
use sat_session::session::SessionConfig;
use sat_session::stat::Diagnostic;
use sat_session::stat::Stat;
use satgalaxy::parser::read_dimacs_from_reader;
use satgalaxy::solver::GlucoseSolver;
use satgalaxy::solver::RawStatus;

fn answer(solver: &mut GlucoseSolver) -> Option<SolverOutcome> {
    match solver.solve_limited(&[], true, false).ok()? {
        RawStatus::Satisfiable => {
            let count = solver.nvars().ok()?;
            let mut model = Vec::new();
            for variable in 1..=count {
                model.push(solver.model_value(variable).ok()?);
            }
            Some(SolverOutcome::Satisfiable(model))
        }
        RawStatus::Unsatisfiable => Some(SolverOutcome::Unsatisfiable),
        RawStatus::Unknown => Some(SolverOutcome::Unknown),
    }
}

/// Drives a session over the Glucose engine with `input` as its source.
fn drive_glucose(input: &[u8], config: SessionConfig) -> (Option<i32>, Vec<u8>, Vec<Diagnostic>) {
    let mut session = Session::new(config);
    let mut stat = Stat::new();
    let mut diag = Vec::new();
    let mut output = Vec::new();
    let mut solver = GlucoseSolver::new();
    let mut event = Event::Begin;
    loop {
        let action = session.step(&mut stat, event, &mut diag);
        event = match action {
            Action::OpenOutput | Action::ApplyOptions | Action::InstallInterrupt => Event::Done,
            Action::Eliminate => match solver.eliminate(true) {
                Ok(_) => Event::Done,
                Err(_) => Event::Failed,
            },
            Action::Parse { strict } => match read_dimacs_from_reader(input, strict, &mut solver)
            {
                Ok(()) => Event::Done,
                Err(_) => Event::Failed,
            },
            Action::CheckFeasible => match solver.okay() {
                Ok(okay) => Event::Feasible(okay != 0),
                Err(_) => Event::Failed,
            },
            Action::Solve => match answer(&mut solver) {
                Some(outcome) => Event::Solved(outcome),
                None => Event::Failed,
            },
            Action::Write(bytes) => {
                output.extend_from_slice(&bytes);
                Event::Done
            }
            Action::Exit(code) => return (Some(code), output, diag),
            Action::Abort => return (None, output, diag),
        };
    }
}

fn plain_glucose() -> SessionConfig {
    SessionConfig { pre: true, solve: true, cpu_lim: 0, mem_lim: 0, strictp: false }
}

#[test]
fn glucose_contradiction_ends_unsat_with_20() {
    let (code, output, _) = drive_glucose(b"p cnf 1 2\n1 0\n-1 0\n", plain_glucose());
    assert_eq!(code, Some(20));
    assert_eq!(output, b"UNSAT\n".to_vec());
}

#[test]
fn glucose_unit_clause_ends_sat_with_0() {
    let (code, output, diag) = drive_glucose(b"p cnf 1 1\n1 0\n", plain_glucose());
    assert_eq!(code, Some(0));
    assert_eq!(output, b"SAT\n1 0\n".to_vec());
    assert_eq!(
        diag.iter().filter(|line| matches!(line, Diagnostic::TotalTime(_))).count(),
        1
    );
}

#[test]
fn glucose_without_preprocessing_still_answers() {
    let config = SessionConfig { pre: false, ..plain_glucose() };
    let (code, output, _) = drive_glucose(b"p cnf 2 2\n1 2 0\n-1 0\n", config);
    assert_eq!(code, Some(0));
    assert_eq!(output, b"SAT\n-1 2 0\n".to_vec());
}
