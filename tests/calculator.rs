use termcalc::calc::{Action, CalcMode, Effect, Operation, OperationType, SystemVars};
use termcalc::eval::evaluate;
use termcalc::format::{format_number, Formatted, DISPLAY_WIDTH, OPERAND_WIDTH};
use termcalc::input::{map_click, map_key, InputEvent, Key, Modifiers, MouseKind};
use termcalc::text::{add_point, backspace, contains_char, is_this_num_empty, toggle_sign};

fn step(acc: f64, op: &Operation) -> Result<f64, String> {
    let n: f64 = op.number.parse().map_err(|e: std::num::ParseFloatError| e.to_string())?;
    Ok(match op.operation_type {
        OperationType::Empty => acc,
        OperationType::Add => acc + n,
        OperationType::Subtract => acc - n,
        OperationType::Multiply => acc * n,
        OperationType::Divide => acc / n,
    })
}

fn seed_of(text: &str) -> Result<f64, String> {
    if text.is_empty() {
        Ok(0.0)
    } else {
        text.parse::<f64>().map_err(|e| e.to_string())
    }
}

fn op(kind: OperationType, number: &str) -> Operation {
    Operation { operation_type: kind, number: number.to_string() }
}

fn shown(f: Formatted) -> String {
    match f {
        Formatted::Plain(s) => s,
        Formatted::Scientific { text, precision } => {
            format!("{:.*e}", precision, text.parse::<f64>().unwrap())
        }
    }
}

/// Feeds one action and, on a commit, evaluates with f64 arithmetic.
fn press(vars: &mut SystemVars, action: Action) -> Effect {
    let effect = vars.handle_press(action);
    if effect == Effect::Evaluate {
        let outcome = seed_of(&vars.ans)
            .and_then(|seed| evaluate(seed, &vars.pending_operations, &step))
            .map(|v| v.to_string());
        vars.execute_operation(outcome).unwrap();
        return Effect::ShowNumber;
    }
    effect
}

fn type_keys(vars: &mut SystemVars, keys: &str) {
    for c in keys.chars() {
        let action = map_key(Key::Char(c), Modifiers::Plain).unwrap();
        press(vars, action);
    }
}

fn display(vars: &SystemVars) -> String {
    shown(format_number(vars.ans.clone(), DISPLAY_WIDTH))
}

#[test]
fn digits_concatenate_in_order() {
    let mut vars = SystemVars::new();
    type_keys(&mut vars, "40213");
    assert_eq!(vars.ans, "40213");
    assert_eq!(vars.calc_mode, CalcMode::EnteringNumber);
}

#[test]
fn second_decimal_point_is_ignored() {
    let mut vars = SystemVars::new();
    type_keys(&mut vars, "3.");
    assert_eq!(vars.handle_press(Action::DecimalPoint), Effect::Nothing);
    assert_eq!(vars.ans, "3.");
    type_keys(&mut vars, "5.");
    assert_eq!(vars.ans, "3.5");
}

#[test]
fn decimal_point_needs_a_number() {
    let mut s = String::new();
    add_point(&mut s);
    assert_eq!(s, "");
    let mut s = "-".to_string();
    add_point(&mut s);
    assert_eq!(s, "-");
    let mut s = "12".to_string();
    add_point(&mut s);
    assert_eq!(s, "12.");
}

#[test]
fn toggle_sign_twice_restores_buffer() {
    let mut vars = SystemVars::new();
    type_keys(&mut vars, "42");
    vars.handle_press(Action::ToggleSign);
    assert_eq!(vars.ans, "-42");
    vars.handle_press(Action::ToggleSign);
    assert_eq!(vars.ans, "42");
    let mut s = String::new();
    toggle_sign(&mut s);
    assert_eq!(s, "-");
    toggle_sign(&mut s);
    assert_eq!(s, "");
}

#[test]
fn evaluation_is_left_to_right() {
    let ops = vec![op(OperationType::Add, "3"), op(OperationType::Multiply, "4")];
    assert_eq!(evaluate(2.0, &ops, &step), Ok(20.0));
    let mut vars = SystemVars::new();
    type_keys(&mut vars, "2+3*4=");
    assert_eq!(display(&vars), "20");
}

#[test]
fn evaluation_stops_at_first_bad_operand() {
    let ops = vec![op(OperationType::Add, "1"), op(OperationType::Add, "x"), op(OperationType::Add, "y")];
    let r = evaluate(2.0, &ops, &step);
    assert!(r.is_err());
    let empty: Vec<Operation> = Vec::new();
    assert_eq!(evaluate(7.5, &empty, &step), Ok(7.5));
}

#[test]
fn format_keeps_text_that_fits() {
    for text in ["", "0", "-12.5", "1234567890123456789"] {
        match format_number(text.to_string(), DISPLAY_WIDTH) {
            Formatted::Plain(s) => assert_eq!(s, text),
            _ => panic!("text that fits was reformatted"),
        }
    }
}

#[test]
fn format_long_text_goes_scientific() {
    let long = "12345678901234567890".to_string();
    match format_number(long.clone(), DISPLAY_WIDTH) {
        Formatted::Scientific { text, precision } => {
            assert_eq!(text, long);
            assert_eq!(precision, 12);
        }
        _ => panic!("long text was not reformatted"),
    }
    let out = shown(format_number(long, DISPLAY_WIDTH));
    assert_eq!(out, "1.234567890123e19");
    assert!(out.len() <= DISPLAY_WIDTH);
    match format_number("123456789012345678".to_string(), OPERAND_WIDTH) {
        Formatted::Scientific { precision, .. } => assert_eq!(precision, 10),
        _ => panic!("operand text was not reformatted"),
    }
}

#[test]
fn division_by_zero_is_shown() {
    let mut vars = SystemVars::new();
    type_keys(&mut vars, "1/0=");
    assert_eq!(display(&vars), "inf");
    assert_eq!(vars.calc_mode, CalcMode::ShowingAns);
    let mut vars = SystemVars::new();
    type_keys(&mut vars, "0/0=");
    assert_eq!(display(&vars), "NaN");
}

#[test]
fn seven_plus_three() {
    let mut vars = SystemVars::new();
    type_keys(&mut vars, "7+3");
    assert_eq!(press(&mut vars, Action::Commit), Effect::ShowNumber);
    assert_eq!(display(&vars), "10");
    assert!(vars.pending_operations.is_empty());
}

#[test]
fn five_times_two_plus_one() {
    let mut vars = SystemVars::new();
    type_keys(&mut vars, "5*2+1");
    press(&mut vars, Action::Commit);
    assert_eq!(display(&vars), "11");
}

#[test]
fn clear_then_commit_does_nothing() {
    let mut vars = SystemVars::new();
    type_keys(&mut vars, "1");
    assert_eq!(vars.handle_press(Action::Clear), Effect::ClearDisplay);
    assert_eq!(vars.handle_press(Action::Commit), Effect::Nothing);
    assert_eq!(vars.ans, "");
    assert_eq!(vars.calc_mode, CalcMode::EnteringNumber);
    assert!(vars.pending_operations.is_empty());
}

#[test]
fn click_on_nine_equals_key_nine() {
    let mut by_mouse = SystemVars::new();
    let mut by_key = SystemVars::new();
    let event = InputEvent::Mouse { kind: MouseKind::LeftUp, row: 5, column: 15 };
    let a = by_mouse.map_event(event).unwrap();
    let b = by_key
        .map_event(InputEvent::Key { code: Key::Char('9'), modifiers: Modifiers::Plain })
        .unwrap();
    assert_eq!(a, b);
    assert_eq!(by_mouse.cursor_position, (5, 15));
    by_mouse.handle_press(a);
    by_key.handle_press(b);
    assert_eq!(by_mouse.ans, by_key.ans);
    assert_eq!(by_mouse.ans, "9");
    for column in 13..=17 {
        assert_eq!(map_click(5, column), Some(Action::Digit('9')));
    }
}

#[test]
fn click_grid_and_dead_zones() {
    assert_eq!(map_click(3, 1), Some(Action::Clear));
    assert_eq!(map_click(3, 9), Some(Action::ToggleSign));
    assert_eq!(map_click(3, 17), Some(Action::Backspace));
    assert_eq!(map_click(3, 21), Some(Action::Operator(OperationType::Divide)));
    assert_eq!(map_click(7, 19), Some(Action::Operator(OperationType::Add)));
    assert_eq!(map_click(9, 20), Some(Action::Operator(OperationType::Subtract)));
    assert_eq!(map_click(11, 6), Some(Action::Digit('0')));
    assert_eq!(map_click(11, 15), Some(Action::DecimalPoint));
    assert_eq!(map_click(11, 20), Some(Action::Commit));
    assert_eq!(map_click(13, 22), Some(Action::Quit));
    assert_eq!(map_click(5, 6), None);
    assert_eq!(map_click(4, 3), None);
    assert_eq!(map_click(1, 3), None);
    let mut vars = SystemVars::new();
    let ev = InputEvent::Mouse { kind: MouseKind::Other, row: 5, column: 15 };
    assert_eq!(vars.map_event(ev), None);
    assert_eq!(vars.cursor_position, (0, 0));
}

#[test]
fn keys_map_to_actions() {
    assert_eq!(map_key(Key::Char('='), Modifiers::Plain), Some(Action::Commit));
    assert_eq!(map_key(Key::Enter, Modifiers::Plain), Some(Action::Commit));
    assert_eq!(map_key(Key::Esc, Modifiers::Plain), Some(Action::Clear));
    assert_eq!(map_key(Key::Tab, Modifiers::Plain), Some(Action::ToggleSign));
    assert_eq!(map_key(Key::Backspace, Modifiers::Plain), Some(Action::Backspace));
    assert_eq!(map_key(Key::Char('/'), Modifiers::Plain), Some(Action::Operator(OperationType::Divide)));
    assert_eq!(map_key(Key::Char('c'), Modifiers::Control), Some(Action::Quit));
    assert_eq!(map_key(Key::Char('c'), Modifiers::Plain), None);
    assert_eq!(map_key(Key::Char('7'), Modifiers::Control), None);
    assert_eq!(map_key(Key::Char('x'), Modifiers::Plain), None);
    assert_eq!(map_key(Key::Other, Modifiers::Plain), None);
    assert_eq!(map_key(Key::Char('5'), Modifiers::Other), None);
}

#[test]
fn operator_needs_a_number() {
    let mut vars = SystemVars::new();
    assert_eq!(vars.handle_press(Action::Operator(OperationType::Add)), Effect::Nothing);
    assert_eq!(vars.calc_mode, CalcMode::EnteringNumber);
    type_keys(&mut vars, "8+");
    assert_eq!(vars.calc_mode, CalcMode::EnteringOperation);
    assert_eq!(vars.handle_press(Action::Operator(OperationType::Multiply)), Effect::Nothing);
    assert_eq!(vars.current_operation.operation_type, OperationType::Add);
    assert_eq!(vars.handle_press(Action::Commit), Effect::Nothing);
    type_keys(&mut vars, "2");
    assert_eq!(vars.handle_press(Action::Operator(OperationType::Empty)), Effect::Nothing);
    assert_eq!(vars.current_operation.number, "2");
}

#[test]
fn backspace_edits_active_buffer() {
    let mut vars = SystemVars::new();
    assert_eq!(vars.handle_press(Action::Backspace), Effect::Nothing);
    type_keys(&mut vars, "12+34");
    assert_eq!(vars.handle_press(Action::Backspace), Effect::ShowOperation);
    assert_eq!(vars.current_operation.number, "3");
    assert_eq!(vars.ans, "12");
    let mut s = "ab".to_string();
    backspace(&mut s);
    assert_eq!(s, "a");
}

#[test]
fn showing_answer_ignores_edits() {
    let mut vars = SystemVars::new();
    type_keys(&mut vars, "6-1=");
    assert_eq!(vars.ans, "5");
    assert_eq!(vars.handle_press(Action::Digit('4')), Effect::Nothing);
    assert_eq!(vars.handle_press(Action::ToggleSign), Effect::Nothing);
    assert_eq!(vars.handle_press(Action::Backspace), Effect::Nothing);
    assert_eq!(vars.handle_press(Action::Commit), Effect::Nothing);
    type_keys(&mut vars, "*3=");
    assert_eq!(display(&vars), "15");
}

#[test]
fn failed_evaluation_is_rolled_back() {
    let mut vars = SystemVars::new();
    type_keys(&mut vars, "4+5");
    assert_eq!(vars.handle_press(Action::Commit), Effect::Evaluate);
    assert_eq!(vars.pending_operations.len(), 1);
    let r = vars.execute_operation(Err("bad number".to_string()));
    assert_eq!(r, Err("bad number".to_string()));
    assert!(vars.pending_operations.is_empty());
    assert_eq!(vars.current_operation.number, "5");
    assert_eq!(vars.current_operation.operation_type, OperationType::Add);
    assert_eq!(vars.calc_mode, CalcMode::EnteringOperation);
    assert_eq!(vars.ans, "4");
}

#[test]
fn try_push_opp_queues_only_numbers() {
    let mut vars = SystemVars::new();
    assert!(!vars.try_push_opp());
    vars.current_operation = op(OperationType::Subtract, "-");
    assert!(!vars.try_push_opp());
    vars.current_operation = op(OperationType::Subtract, "-2");
    assert!(vars.try_push_opp());
    assert_eq!(vars.pending_operations.len(), 1);
    assert_eq!(vars.pending_operations[0].number, "-2");
    assert_eq!(vars.current_operation.number, "");
    assert_eq!(vars.current_operation.operation_type, OperationType::Empty);
}

#[test]
fn empty_and_contains_checks() {
    assert!(is_this_num_empty(&String::new()));
    assert!(is_this_num_empty(&"-".to_string()));
    assert!(!is_this_num_empty(&"-1".to_string()));
    assert!(!is_this_num_empty(&"0".to_string()));
    assert!(contains_char(&"1.5".to_string(), '.'));
    assert!(!contains_char(&"15".to_string(), '.'));
}

#[test]
fn operator_glyphs() {
    assert_eq!(OperationType::Empty.glyph(), ' ');
    assert_eq!(OperationType::Add.glyph(), '+');
    assert_eq!(OperationType::Subtract.glyph(), '-');
    assert_eq!(OperationType::Multiply.glyph(), '\u{d7}');
    assert_eq!(OperationType::Divide.glyph(), '\u{f7}');
}
