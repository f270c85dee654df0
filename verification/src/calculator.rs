use vstd::arithmetic::div_mod::{lemma_div_decreases, lemma_div_pos_is_pos};
use vstd::prelude::*;

verus! {

// ---------------------------------------------------------------------------
// A standalone arithmetic-history exercise: a calculator over i64 with
// overflow protection that keeps a record of every successful operation.
// ---------------------------------------------------------------------------

/// The three operations the calculator supports.
#[derive(Clone, Copy)]
pub enum OperationType {
    Addition,
    Subtraction,
    Multiplication,
}

/// The exact mathematical result of an operation, unbounded.
pub open spec fn spec_result(op: OperationType, x: i64, y: i64) -> int {
    match op {
        OperationType::Addition => x + y,
        OperationType::Subtraction => x - y,
        OperationType::Multiplication => x * y,
    }
}

/// The printed sign of an operation.
pub open spec fn spec_sign(op: OperationType) -> Seq<char> {
    match op {
        OperationType::Addition => "+"@,
        OperationType::Subtraction => "-"@,
        OperationType::Multiplication => "*"@,
    }
}

impl OperationType {
    /// The string representation of the operation sign.
    pub fn get_sign(&self) -> (r: &str)
        ensures
            r@ == spec_sign(*self),
    {
        match self {
            OperationType::Addition => "+",
            OperationType::Subtraction => "-",
            OperationType::Multiplication => "*",
        }
    }

    /// Performs the operation on two numbers with overflow protection:
    /// the exact result where it fits an i64, None where it does not.
    pub fn perform(&self, x: i64, y: i64) -> (r: Option<i64>)
        ensures
            r matches Some(v) ==> v == spec_result(*self, x, y),
            r is Some <==> i64::MIN <= spec_result(*self, x, y) <= i64::MAX,
    {
        match self {
            OperationType::Addition => x.checked_add(y),
            OperationType::Subtraction => x.checked_sub(y),
            OperationType::Multiplication => x.checked_mul(y),
        }
    }
}

/// One recorded calculation: the two operands and the operation.
#[derive(Clone, Copy)]
pub struct Operation {
    pub first_num: i64,
    pub second_num: i64,
    pub operation_type: OperationType,
}

/// An operation whose exact result fits an i64; only such operations
/// enter the history.
pub open spec fn op_in_range(op: Operation) -> bool {
    i64::MIN <= spec_result(op.operation_type, op.first_num, op.second_num) <= i64::MAX
}

impl Operation {
    /// Records an operation from its parts.
    pub fn new(first_num: i64, second_num: i64, operation_type: OperationType) -> (r: Self)
        ensures
            r.first_num == first_num,
            r.second_num == second_num,
            r.operation_type == operation_type,
    {
        Self { first_num, second_num, operation_type }
    }
}

/// The calculator: a history of every operation that succeeded.
pub struct Calculator {
    pub history: Vec<Operation>,
}

// ---------------------------------------------------------------------------
// The decimal rendering of the history.
// ---------------------------------------------------------------------------

/// The decimal digit character for a value below ten.
pub open spec fn digit_char(d: int) -> char {
    if d == 0 {
        '0'
    } else if d == 1 {
        '1'
    } else if d == 2 {
        '2'
    } else if d == 3 {
        '3'
    } else if d == 4 {
        '4'
    } else if d == 5 {
        '5'
    } else if d == 6 {
        '6'
    } else if d == 7 {
        '7'
    } else if d == 8 {
        '8'
    } else {
        '9'
    }
}

/// The decimal digits of a nonnegative value, most significant first.
pub open spec fn dec_nat(n: int) -> Seq<char>
    recommends
        0 <= n,
    decreases n,
    via dec_nat_decreases
{
    if n < 10 {
        seq![digit_char(n)]
    } else {
        dec_nat(n / 10).push(digit_char(n % 10))
    }
}

#[via_fn]
proof fn dec_nat_decreases(n: int) {
    if n >= 10 {
        lemma_div_pos_is_pos(n, 10);
        lemma_div_decreases(n, 10);
    }
}

/// The decimal rendering of a value: a minus sign ahead of the digits
/// where it is negative.
pub open spec fn dec_int(n: int) -> Seq<char> {
    if n < 0 {
        seq!['-'] + dec_nat(-n)
    } else {
        dec_nat(n)
    }
}

/// Relies on i64's ToString: the decimal rendering of the value, minus
/// sign first where negative.
#[verifier::external_body]
fn i64_to_string(x: i64) -> (r: String)
    ensures
        r@ == dec_int(x as int),
{
    x.to_string()
}

/// Relies on usize's ToString: the decimal rendering of the value.
#[verifier::external_body]
fn usize_to_string(x: usize) -> (r: String)
    ensures
        r@ == dec_nat(x as int),
{
    x.to_string()
}

/// One line of the rendered history:
/// "index: first_num sign second_num = result", newline-terminated.
pub open spec fn line_of(i: int, op: Operation) -> Seq<char> {
    dec_nat(i) + ": "@ + dec_int(op.first_num as int) + " "@ + spec_sign(op.operation_type) + " "@
        + dec_int(op.second_num as int) + " = "@ + dec_int(
        spec_result(op.operation_type, op.first_num, op.second_num),
    ) + "\n"@
}

/// The rendering of the first `n` history entries, in order.
pub open spec fn history_string_to(h: Seq<Operation>, n: int) -> Seq<char>
    decreases n,
{
    if n <= 0 {
        Seq::empty()
    } else {
        history_string_to(h, n - 1) + line_of(n - 1, h[n - 1])
    }
}

/// The rendering of a whole history.
pub open spec fn history_string(h: Seq<Operation>) -> Seq<char> {
    history_string_to(h, h.len() as int)
}

impl Calculator {
    /// Every recorded operation succeeded, so its result fits an i64.
    pub open spec fn wf(&self) -> bool {
        forall|i: int| 0 <= i < self.history@.len() ==> #[trigger] op_in_range(self.history@[i])
    }

    /// A calculator with an empty history.
    pub fn new() -> (r: Self)
        ensures
            r.wf(),
            r.history@.len() == 0,
    {
        Self { history: Vec::new() }
    }

    /// Adds the two numbers; a successful operation enters the history,
    /// an overflowing one returns None and records nothing.
    pub fn addition(&mut self, x: i64, y: i64) -> (r: Option<i64>)
        requires
            old(self).wf(),
        ensures
            final(self).wf(),
            r is Some <==> i64::MIN <= spec_result(OperationType::Addition, x, y) <= i64::MAX,
            r matches Some(v) ==> v == spec_result(OperationType::Addition, x, y) && final(self).history@ == old(self).history@.push(
                Operation { first_num: x, second_num: y, operation_type: OperationType::Addition },
            ),
            r is None ==> final(self).history@ == old(self).history@,
    {
        let result = OperationType::Addition.perform(x, y);
        if result.is_some() {
            self.history.push(Operation::new(x, y, OperationType::Addition));
        }
        result
    }

    /// Subtracts the second number from the first; a successful operation
    /// enters the history, an overflowing one returns None and records
    /// nothing.
    pub fn subtraction(&mut self, x: i64, y: i64) -> (r: Option<i64>)
        requires
            old(self).wf(),
        ensures
            final(self).wf(),
            r is Some <==> i64::MIN <= spec_result(OperationType::Subtraction, x, y) <= i64::MAX,
            r matches Some(v) ==> v == spec_result(OperationType::Subtraction, x, y) && final(self).history@ == old(self).history@.push(
                Operation {
                    first_num: x,
                    second_num: y,
                    operation_type: OperationType::Subtraction,
                },
            ),
            r is None ==> final(self).history@ == old(self).history@,
    {
        let result = OperationType::Subtraction.perform(x, y);
        if result.is_some() {
            self.history.push(Operation::new(x, y, OperationType::Subtraction));
        }
        result
    }

    /// Multiplies the two numbers; a successful operation enters the
    /// history, an overflowing one returns None and records nothing.
    pub fn multiplication(&mut self, x: i64, y: i64) -> (r: Option<i64>)
        requires
            old(self).wf(),
        ensures
            final(self).wf(),
            r is Some <==> i64::MIN <= spec_result(OperationType::Multiplication, x, y)
                <= i64::MAX,
            r matches Some(v) ==> v == spec_result(OperationType::Multiplication, x, y) && final(self).history@ == old(self).history@.push(
                Operation {
                    first_num: x,
                    second_num: y,
                    operation_type: OperationType::Multiplication,
                },
            ),
            r is None ==> final(self).history@ == old(self).history@,
    {
        let result = OperationType::Multiplication.perform(x, y);
        if result.is_some() {
            self.history.push(Operation::new(x, y, OperationType::Multiplication));
        }
        result
    }

    /// Renders the history, one numbered line per recorded operation:
    /// "index: first_num sign second_num = result\n".
    pub fn show_history(&self) -> (r: String)
        requires
            self.wf(),
        ensures
            r@ == history_string(self.history@),
    {
        let mut result = String::new();
        let mut i: usize = 0;
        while i < self.history.len()
            invariant
                self.wf(),
                0 <= i <= self.history@.len(),
                result@ == history_string_to(self.history@, i as int),
            decreases self.history@.len() - i,
        {
            let op = self.history[i];
            let mut line = usize_to_string(i);
            line.append(": ");
            let first_s = i64_to_string(op.first_num);
            line.append(first_s.as_str());
            line.append(" ");
            line.append(op.operation_type.get_sign());
            line.append(" ");
            let second_s = i64_to_string(op.second_num);
            line.append(second_s.as_str());
            line.append(" = ");
            proof {
                assert(op_in_range(self.history@[i as int]));
            }
            let value = op.operation_type.perform(op.first_num, op.second_num).unwrap();
            let value_s = i64_to_string(value);
            line.append(value_s.as_str());
            line.append("\n");
            result.append(line.as_str());
            i += 1;
        }
        result
    }

    /// Repeats a recorded operation: its result again, and one more entry
    /// in the history. None where the index lies past the history or the
    /// history is empty.
    pub fn repeat(&mut self, operation_index: usize) -> (r: Option<i64>)
        requires
            old(self).wf(),
            old(self).history@.len() == 0 || operation_index != old(self).history@.len(),
        ensures
            final(self).wf(),
            old(self).history@.len() == 0 || operation_index > old(self).history@.len() ==> r
                is None && final(self).history@ == old(self).history@,
            0 < old(self).history@.len() && operation_index < old(self).history@.len() ==> ({
                let op = old(self).history@[operation_index as int];
                &&& r matches Some(v) && v == spec_result(
                    op.operation_type,
                    op.first_num,
                    op.second_num,
                )
                &&& final(self).history@ == old(self).history@.push(op)
            }),
    {
        if operation_index > self.history.len() || self.history.is_empty() {
            return None;
        }
        let r_op = self.history[operation_index];
        proof {
            assert(op_in_range(self.history@[operation_index as int]));
        }
        let res = r_op.operation_type.perform(r_op.first_num, r_op.second_num).unwrap();
        self.history.push(Operation::new(r_op.first_num, r_op.second_num, r_op.operation_type));
        Some(res)
    }

    /// Clears all operations from the history.
    pub fn clear_history(&mut self)
        ensures
            final(self).wf(),
            final(self).history@.len() == 0,
    {
        self.history.clear();
    }
}

} // verus!
