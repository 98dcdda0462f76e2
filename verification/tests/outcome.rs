use sat_session::outcome::push_decimal;
use sat_session::outcome::push_literal;
use sat_session::outcome::RawStatus;
use sat_session::outcome::SolverOutcome;
use sat_session::outcome::EXIT_SATISFIABLE;
use sat_session::outcome::EXIT_UNKNOWN;
use sat_session::outcome::EXIT_UNSATISFIABLE;

#[test]
fn exit_codes_follow_the_table() {
    assert_eq!(RawStatus::Satisfiable.exit_code(), 0);
    assert_eq!(RawStatus::Unsatisfiable.exit_code(), 20);
    assert_eq!(RawStatus::Unknown.exit_code(), 30);
    assert_eq!(EXIT_SATISFIABLE, 0);
    assert_eq!(EXIT_UNSATISFIABLE, 20);
    assert_eq!(EXIT_UNKNOWN, 30);
}

#[test]
fn unsat_text_is_exact() {
    assert_eq!(SolverOutcome::Unsatisfiable.render(), b"UNSAT\n".to_vec());
    assert_eq!(SolverOutcome::Unsatisfiable.exit_code(), 20);
    assert_eq!(SolverOutcome::Unsatisfiable.status(), RawStatus::Unsatisfiable);
}

#[test]
fn unknown_text_is_exact() {
    assert_eq!(SolverOutcome::Unknown.render(), b"UNKNOWN\n".to_vec());
    assert_eq!(SolverOutcome::Unknown.exit_code(), 30);
    assert_eq!(SolverOutcome::Unknown.status(), RawStatus::Unknown);
}

#[test]
fn sat_text_lists_every_variable() {
    let outcome = SolverOutcome::Satisfiable(vec![true]);
    assert_eq!(outcome.render(), b"SAT\n1 0\n".to_vec());
    assert_eq!(outcome.exit_code(), 0);
    assert_eq!(outcome.status(), RawStatus::Satisfiable);
}

#[test]
fn sat_text_negates_false_variables() {
    let outcome = SolverOutcome::Satisfiable(vec![true, false, false, true]);
    assert_eq!(outcome.render(), b"SAT\n1 -2 -3 4 0\n".to_vec());
}

#[test]
fn sat_text_without_variables() {
    let outcome = SolverOutcome::Satisfiable(vec![]);
    assert_eq!(outcome.render(), b"SAT\n0\n".to_vec());
}

#[test]
fn sat_text_counts_past_one_digit() {
    let mut values = vec![true; 12];
    values[9] = false;
    let outcome = SolverOutcome::Satisfiable(values);
    assert_eq!(outcome.render(), b"SAT\n1 2 3 4 5 6 7 8 9 -10 11 12 0\n".to_vec());
}

#[test]
fn text_begins_with_one_token() {
    let tokens: [&[u8]; 3] = [b"SAT", b"UNSAT", b"UNKNOWN"];
    let outcomes = [
        SolverOutcome::Satisfiable(vec![false, true]),
        SolverOutcome::Unsatisfiable,
        SolverOutcome::Unknown,
    ];
    for (i, outcome) in outcomes.iter().enumerate() {
        let text = outcome.render();
        for (j, token) in tokens.iter().enumerate() {
            assert_eq!(text.starts_with(token), i == j);
        }
    }
}

#[test]
fn decimal_is_exact() {
    let mut out = vec![b'x'];
    push_decimal(&mut out, 0);
    push_decimal(&mut out, 7);
    push_decimal(&mut out, 10);
    push_decimal(&mut out, 2147483647);
    assert_eq!(out, b"x07102147483647".to_vec());
}

#[test]
fn literal_is_exact() {
    let mut out = Vec::new();
    push_literal(&mut out, 305, true);
    push_literal(&mut out, 42, false);
    assert_eq!(out, b"305 -42 ".to_vec());
}
