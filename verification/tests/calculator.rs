use keyed_ledger::calculator::Calculator;

#[test]
fn addition_records_and_returns() {
    let mut calc = Calculator::new();
    assert_eq!(calc.addition(5, 3), Some(8));
    assert_eq!(calc.history.len(), 1);
}

#[test]
fn addition_overflow_records_nothing() {
    let mut calc = Calculator::new();
    assert_eq!(calc.addition(i64::MAX, 1), None);
    assert_eq!(calc.history.len(), 0);
}

#[test]
fn subtraction_records_and_returns() {
    let mut calc = Calculator::new();
    assert_eq!(calc.subtraction(10, 2), Some(8));
    assert_eq!(calc.subtraction(2, 10), Some(-8));
    assert_eq!(calc.history.len(), 2);
}

#[test]
fn subtraction_overflow_records_nothing() {
    let mut calc = Calculator::new();
    assert_eq!(calc.subtraction(i64::MIN, 1), None);
    assert_eq!(calc.history.len(), 0);
}

#[test]
fn multiplication_records_and_returns() {
    let mut calc = Calculator::new();
    assert_eq!(calc.multiplication(6, 7), Some(42));
    assert_eq!(calc.history.len(), 1);
}

#[test]
fn multiplication_overflow_records_nothing() {
    let mut calc = Calculator::new();
    assert_eq!(calc.multiplication(i64::MAX, 2), None);
    assert_eq!(calc.history.len(), 0);
}

#[test]
fn show_history_formats_each_line() {
    let mut calc = Calculator::new();
    calc.addition(5, 3);
    calc.subtraction(10, 2);
    assert_eq!(calc.show_history(), "0: 5 + 3 = 8\n1: 10 - 2 = 8\n");
}

#[test]
fn show_history_renders_negatives() {
    let mut calc = Calculator::new();
    calc.subtraction(2, 10);
    calc.multiplication(-4, 5);
    assert_eq!(calc.show_history(), "0: 2 - 10 = -8\n1: -4 * 5 = -20\n");
}

#[test]
fn show_history_of_empty_history_is_empty() {
    let calc = Calculator::new();
    assert_eq!(calc.show_history(), "");
}

#[test]
fn repeat_replays_an_entry() {
    let mut calc = Calculator::new();
    calc.addition(5, 3);
    assert_eq!(calc.repeat(0), Some(8));
    assert_eq!(calc.history.len(), 2);
}

#[test]
fn repeat_of_empty_history_is_none() {
    let mut calc = Calculator::new();
    assert_eq!(calc.repeat(0), None);
    assert_eq!(calc.history.len(), 0);
}

#[test]
fn repeat_past_the_end_is_none() {
    let mut calc = Calculator::new();
    calc.addition(1, 2);
    assert_eq!(calc.repeat(5), None);
    assert_eq!(calc.history.len(), 1);
}

#[test]
fn clear_history_empties_the_record() {
    let mut calc = Calculator::new();
    calc.addition(1, 2);
    calc.multiplication(3, 4);
    calc.clear_history();
    assert_eq!(calc.history.len(), 0);
    assert_eq!(calc.show_history(), "");
}
