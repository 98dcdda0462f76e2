//! The engine's tri-state answer: its exit code and its text on the result
//! channel.
//!
//! The result channel carries bytes, so every text here is a `Seq<u8>` of
//! ASCII codes. A satisfiable answer lists one signed literal per declared
//! variable, numbered from 1, and closes the line with `0`.

use vstd::prelude::*;

verus! {

/// Exit code of a session that found a satisfying assignment.
pub const EXIT_SATISFIABLE: i32 = 0;

/// Exit code of a session that found the formula unsatisfiable.
pub const EXIT_UNSATISFIABLE: i32 = 20;

/// Exit code of a session that ended undetermined, or was interrupted.
pub const EXIT_UNKNOWN: i32 = 30;

/// Exit code of a session that was given up on a failure. It is none of the
/// codes that stand for an answer.
pub const EXIT_FAILURE: i32 = 1;

/// What a bounded solve attempt can report, without the assignment.
#[derive(Debug, Clone, Copy, PartialEq, Eq, Structural)]
pub enum RawStatus {
    Satisfiable,
    Unsatisfiable,
    Unknown,
}

/// The answer of a session: for a satisfiable formula the value of every
/// declared variable, variable `i + 1` at index `i`.
#[derive(Debug, Clone, PartialEq, Eq)]
pub enum SolverOutcome {
    Satisfiable(Vec<bool>),
    Unsatisfiable,
    Unknown,
}

/// The bytes `SAT`.
pub open spec fn token_sat() -> Seq<u8> {
    seq![0x53u8, 0x41u8, 0x54u8]
}

/// The bytes `UNSAT`.
pub open spec fn token_unsat() -> Seq<u8> {
    seq![0x55u8, 0x4eu8, 0x53u8, 0x41u8, 0x54u8]
}

/// The bytes `UNKNOWN`.
pub open spec fn token_unknown() -> Seq<u8> {
    seq![0x55u8, 0x4eu8, 0x4bu8, 0x4eu8, 0x4fu8, 0x57u8, 0x4eu8]
}

/// The line feed that ends every line of the result channel.
pub open spec fn newline() -> Seq<u8> {
    seq![0x0au8]
}

/// `n` in decimal, most significant digit first, without padding.
pub open spec fn decimal(n: nat) -> Seq<u8>
    decreases n,
{
    if n < 10 {
        seq![(0x30 + n) as u8]
    } else {
        decimal(n / 10).push((0x30 + n % 10) as u8)
    }
}

/// One literal of the assignment line: the variable's number, a minus sign
/// before it when the variable is false, and a space behind it.
pub open spec fn literal_text(variable: nat, value: bool) -> Seq<u8> {
    if value {
        decimal(variable).push(0x20u8)
    } else {
        seq![0x2du8] + decimal(variable).push(0x20u8)
    }
}

/// The literals of variables `1..=model.len()`, in that order.
pub open spec fn model_text(model: Seq<bool>) -> Seq<u8>
    decreases model.len(),
{
    if model.len() == 0 {
        Seq::<u8>::empty()
    } else {
        model_text(model.drop_last()) + literal_text(model.len(), model.last())
    }
}

/// Whether `text` begins with `prefix`.
pub open spec fn begins_with(text: Seq<u8>, prefix: Seq<u8>) -> bool {
    prefix.len() <= text.len() && text.subrange(0, prefix.len() as int) == prefix
}

impl RawStatus {
    /// The process exit code that stands for this answer.
    pub open spec fn spec_exit_code(self) -> i32 {
        match self {
            RawStatus::Satisfiable => EXIT_SATISFIABLE,
            RawStatus::Unsatisfiable => EXIT_UNSATISFIABLE,
            RawStatus::Unknown => EXIT_UNKNOWN,
        }
    }

    /// The word that opens the result channel for this answer.
    pub open spec fn token(self) -> Seq<u8> {
        match self {
            RawStatus::Satisfiable => token_sat(),
            RawStatus::Unsatisfiable => token_unsat(),
            RawStatus::Unknown => token_unknown(),
        }
    }

    #[verifier::when_used_as_spec(spec_exit_code)]
    pub fn exit_code(self) -> (code: i32)
        ensures
            code == self.spec_exit_code(),
    {
        match self {
            RawStatus::Satisfiable => EXIT_SATISFIABLE,
            RawStatus::Unsatisfiable => EXIT_UNSATISFIABLE,
            RawStatus::Unknown => EXIT_UNKNOWN,
        }
    }
}

impl SolverOutcome {
    /// The answer without its assignment.
    pub open spec fn spec_status(&self) -> RawStatus {
        match self {
            SolverOutcome::Satisfiable(_) => RawStatus::Satisfiable,
            SolverOutcome::Unsatisfiable => RawStatus::Unsatisfiable,
            SolverOutcome::Unknown => RawStatus::Unknown,
        }
    }

    /// Everything the result channel receives for this answer.
    pub open spec fn text(&self) -> Seq<u8> {
        match self {
            SolverOutcome::Satisfiable(values) => token_sat() + newline() + model_text(values@)
                + seq![0x30u8] + newline(),
            SolverOutcome::Unsatisfiable => token_unsat() + newline(),
            SolverOutcome::Unknown => token_unknown() + newline(),
        }
    }

    #[verifier::when_used_as_spec(spec_status)]
    pub fn status(&self) -> (status: RawStatus)
        ensures
            status == self.spec_status(),
    {
        match self {
            SolverOutcome::Satisfiable(_) => RawStatus::Satisfiable,
            SolverOutcome::Unsatisfiable => RawStatus::Unsatisfiable,
            SolverOutcome::Unknown => RawStatus::Unknown,
        }
    }

    /// The exit code of a session that ends with this answer.
    pub fn exit_code(&self) -> (code: i32)
        ensures
            code == self.spec_status().spec_exit_code(),
    {
        self.status().exit_code()
    }

    /// Renders the answer for the result channel.
    pub fn render(&self) -> (out: Vec<u8>)
        ensures
            out@ == self.text(),
    {
        let mut out: Vec<u8> = Vec::new();
        match self {
            SolverOutcome::Satisfiable(values) => {
                push_sat(&mut out);
                out.push(0x0au8);
                let ghost head = out@;
                let mut i: usize = 0;
                while i < values.len()
                    invariant
                        i <= values.len(),
                        out@ == head + model_text(values@.take(i as int)),
                    decreases values.len() - i,
                {
                    push_literal(&mut out, i + 1, values[i]);
                    proof {
                        let next = values@.take(i + 1);
                        assert(next.drop_last() == values@.take(i as int));
                    }
                    i += 1;
                }
                assert(values@.take(i as int) == values@);
                out.push(0x30u8);
                out.push(0x0au8);
            },
            SolverOutcome::Unsatisfiable => {
                push_unsat(&mut out);
                out.push(0x0au8);
            },
            SolverOutcome::Unknown => {
                push_unknown(&mut out);
                out.push(0x0au8);
            },
        }
        out
    }
}

fn push_sat(out: &mut Vec<u8>)
    ensures
        final(out)@ == old(out)@ + token_sat(),
{
    out.push(0x53u8);
    out.push(0x41u8);
    out.push(0x54u8);
}

fn push_unsat(out: &mut Vec<u8>)
    ensures
        final(out)@ == old(out)@ + token_unsat(),
{
    out.push(0x55u8);
    out.push(0x4eu8);
    out.push(0x53u8);
    out.push(0x41u8);
    out.push(0x54u8);
}

fn push_unknown(out: &mut Vec<u8>)
    ensures
        final(out)@ == old(out)@ + token_unknown(),
{
    out.push(0x55u8);
    out.push(0x4eu8);
    out.push(0x4bu8);
    out.push(0x4eu8);
    out.push(0x4fu8);
    out.push(0x57u8);
    out.push(0x4eu8);
}

/// Appends `n` in decimal.
pub fn push_decimal(out: &mut Vec<u8>, n: usize)
    ensures
        final(out)@ == old(out)@ + decimal(n as nat),
    decreases n,
{
    if n < 10 {
        let digit: u8 = 0x30u8 + n as u8;
        out.push(digit);
    } else {
        push_decimal(out, n / 10);
        let digit: u8 = 0x30u8 + (n % 10) as u8;
        out.push(digit);
    }
}

/// Appends the literal of one variable.
pub fn push_literal(out: &mut Vec<u8>, variable: usize, value: bool)
    ensures
        final(out)@ == old(out)@ + literal_text(variable as nat, value),
{
    if !value {
        out.push(0x2du8);
    }
    push_decimal(out, variable);
    out.push(0x20u8);
}

/// A number in decimal is made of digits only, at least one, and begins
/// with `0` only if it is a single digit.
pub proof fn lemma_decimal_is_plain(n: nat)
    ensures
        decimal(n).len() >= 1,
        forall|i: int| 0 <= i < decimal(n).len() ==> 0x30 <= #[trigger] decimal(n)[i] <= 0x39,
        n >= 10 ==> decimal(n)[0] != 0x30,
        n < 10 ==> decimal(n) == seq![(0x30 + n) as u8],
    decreases n,
{
    if n >= 10 {
        lemma_decimal_is_plain(n / 10);
    }
}

/// A session that was given up leaves with a code that is not zero and
/// stands for no answer.
pub proof fn lemma_failure_code_is_free(status: RawStatus)
    ensures
        EXIT_FAILURE != 0,
        EXIT_FAILURE != status.spec_exit_code(),
{
}

/// The result channel begins with the word of the answer and a line feed,
/// and with the word of no other answer.
pub proof fn lemma_text_begins_with_one_token(outcome: SolverOutcome, other: RawStatus)
    ensures
        begins_with(outcome.text(), outcome.spec_status().token() + newline()),
        begins_with(outcome.text(), other.token()) <==> other == outcome.spec_status(),
{
    let text = outcome.text();
    match outcome {
        SolverOutcome::Satisfiable(_) => {
            assert(text.subrange(0, 4) == token_sat() + newline());
            assert(text.subrange(0, 3) == token_sat());
        },
        SolverOutcome::Unsatisfiable => {
            assert(text.subrange(0, 6) == token_unsat() + newline());
            assert(text.subrange(0, 5) == token_unsat());
        },
        SolverOutcome::Unknown => {
            assert(text.subrange(0, 8) == token_unknown() + newline());
            assert(text.subrange(0, 7) == token_unknown());
        },
    }
}

} // verus!
