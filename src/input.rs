use vstd::prelude::*;

use crate::calc::{Action, CalcView, OperationType, SystemVars};

verus! {

/// A key as the calculator sees it.
#[derive(Clone, Copy, Debug, PartialEq, Eq, Structural)]
pub enum Key {
    Char(char),
    Esc,
    Tab,
    Backspace,
    Enter,
    Other,
}

/// The modifier keys held with a key.
#[derive(Clone, Copy, Debug, PartialEq, Eq, Structural)]
pub enum Modifiers {
    Plain,
    Control,
    Other,
}

/// The kind of a mouse event; only the release of the left button counts.
#[derive(Clone, Copy, Debug, PartialEq, Eq, Structural)]
pub enum MouseKind {
    LeftUp,
    Other,
}

/// One input event from the terminal.
#[derive(Clone, Copy, Debug, PartialEq, Eq, Structural)]
pub enum InputEvent {
    Key { code: Key, modifiers: Modifiers },
    Mouse { kind: MouseKind, row: u16, column: u16 },
    Other,
}

pub open spec fn is_digit(c: char) -> bool {
    '0' <= c <= '9'
}

/// The action a key press stands for, if any.
pub open spec fn key_action(code: Key, modifiers: Modifiers) -> Option<Action> {
    match modifiers {
        Modifiers::Plain => match code {
            Key::Char(c) => if is_digit(c) {
                Some(Action::Digit(c))
            } else if c == '.' {
                Some(Action::DecimalPoint)
            } else if c == '+' {
                Some(Action::Operator(OperationType::Add))
            } else if c == '-' {
                Some(Action::Operator(OperationType::Subtract))
            } else if c == '*' {
                Some(Action::Operator(OperationType::Multiply))
            } else if c == '/' {
                Some(Action::Operator(OperationType::Divide))
            } else if c == '=' {
                Some(Action::Commit)
            } else {
                None
            },
            Key::Esc => Some(Action::Clear),
            Key::Tab => Some(Action::ToggleSign),
            Key::Backspace => Some(Action::Backspace),
            Key::Enter => Some(Action::Commit),
            Key::Other => None,
        },
        Modifiers::Control => if code == Key::Char('c') {
            Some(Action::Quit)
        } else {
            None
        },
        Modifiers::Other => None,
    }
}

/// Which of the panel's four button columns a screen column falls in.
pub open spec fn button_column(column: int) -> Option<int> {
    if 1 <= column <= 5 {
        Some(0)
    } else if 7 <= column <= 11 {
        Some(1)
    } else if 13 <= column <= 17 {
        Some(2)
    } else if 19 <= column <= 21 {
        Some(3)
    } else {
        None
    }
}

/// The labels of the panel's first four button rows, left to right.
pub open spec fn grid_action(row: int, col: int) -> Action {
    if row == 3 {
        if col == 0 {
            Action::Clear
        } else if col == 1 {
            Action::ToggleSign
        } else if col == 2 {
            Action::Backspace
        } else {
            Action::Operator(OperationType::Divide)
        }
    } else {
        let digits: Seq<char> = if row == 5 {
            seq!['7', '8', '9']
        } else if row == 7 {
            seq!['4', '5', '6']
        } else {
            seq!['1', '2', '3']
        };
        let op = if row == 5 {
            OperationType::Multiply
        } else if row == 7 {
            OperationType::Add
        } else {
            OperationType::Subtract
        };
        if col < 3 {
            Action::Digit(digits[col])
        } else {
            Action::Operator(op)
        }
    }
}

/// The action of a left click at a screen cell: the button drawn there, or
/// nothing outside every button.
pub open spec fn click_action(row: int, column: int) -> Option<Action> {
    if row == 3 || row == 5 || row == 7 || row == 9 {
        match button_column(column) {
            Some(col) => Some(grid_action(row, col)),
            None => None,
        }
    } else if row == 11 {
        if 1 <= column <= 11 {
            Some(Action::Digit('0'))
        } else if 13 <= column <= 17 {
            Some(Action::DecimalPoint)
        } else if 19 <= column <= 21 {
            Some(Action::Commit)
        } else {
            None
        }
    } else if row == 13 && 20 <= column <= 23 {
        Some(Action::Quit)
    } else {
        None
    }
}

/// Maps a key press to its action.
pub fn map_key(code: Key, modifiers: Modifiers) -> (r: Option<Action>)
    ensures
        r == key_action(code, modifiers),
{
    match modifiers {
        Modifiers::Plain => match code {
            Key::Char(c) => {
                if '0' <= c && c <= '9' {
                    Some(Action::Digit(c))
                } else {
                    match c {
                        '.' => Some(Action::DecimalPoint),
                        '+' => Some(Action::Operator(OperationType::Add)),
                        '-' => Some(Action::Operator(OperationType::Subtract)),
                        '*' => Some(Action::Operator(OperationType::Multiply)),
                        '/' => Some(Action::Operator(OperationType::Divide)),
                        '=' => Some(Action::Commit),
                        _ => None,
                    }
                }
            },
            Key::Esc => Some(Action::Clear),
            Key::Tab => Some(Action::ToggleSign),
            Key::Backspace => Some(Action::Backspace),
            Key::Enter => Some(Action::Commit),
            Key::Other => None,
        },
        Modifiers::Control => match code {
            Key::Char('c') => Some(Action::Quit),
            _ => None,
        },
        Modifiers::Other => None,
    }
}

/// Maps a left click at (`row`, `column`) to the action of the button drawn there.
pub fn map_click(row: u16, column: u16) -> (r: Option<Action>)
    ensures
        r == click_action(row as int, column as int),
{
    let col: u8 = if 1 <= column && column <= 5 {
        0
    } else if 7 <= column && column <= 11 {
        1
    } else if 13 <= column && column <= 17 {
        2
    } else if 19 <= column && column <= 21 {
        3
    } else {
        4
    };
    match row {
        3 => match col {
            0 => Some(Action::Clear),
            1 => Some(Action::ToggleSign),
            2 => Some(Action::Backspace),
            3 => Some(Action::Operator(OperationType::Divide)),
            _ => None,
        },
        5 => match col {
            0 => Some(Action::Digit('7')),
            1 => Some(Action::Digit('8')),
            2 => Some(Action::Digit('9')),
            3 => Some(Action::Operator(OperationType::Multiply)),
            _ => None,
        },
        7 => match col {
            0 => Some(Action::Digit('4')),
            1 => Some(Action::Digit('5')),
            2 => Some(Action::Digit('6')),
            3 => Some(Action::Operator(OperationType::Add)),
            _ => None,
        },
        9 => match col {
            0 => Some(Action::Digit('1')),
            1 => Some(Action::Digit('2')),
            2 => Some(Action::Digit('3')),
            3 => Some(Action::Operator(OperationType::Subtract)),
            _ => None,
        },
        11 => {
            if 1 <= column && column <= 11 {
                Some(Action::Digit('0'))
            } else if col == 2 {
                Some(Action::DecimalPoint)
            } else if col == 3 {
                Some(Action::Commit)
            } else {
                None
            }
        },
        13 => {
            if 20 <= column && column <= 23 {
                Some(Action::Quit)
            } else {
                None
            }
        },
        _ => None,
    }
}

/// The action an input event stands for, if any.
pub open spec fn event_action(event: InputEvent) -> Option<Action> {
    match event {
        InputEvent::Key { code, modifiers } => key_action(code, modifiers),
        InputEvent::Mouse { kind, row, column } => if kind == MouseKind::LeftUp {
            click_action(row as int, column as int)
        } else {
            None
        },
        InputEvent::Other => None,
    }
}

impl SystemVars {
    /// Maps an input event to its action. A left-button release also records
    /// where the pointer was; nothing else about the state changes.
    pub fn map_event(&mut self, event: InputEvent) -> (r: Option<Action>)
        ensures
            r == event_action(event),
            final(self)@ == (match event {
                InputEvent::Mouse { kind: MouseKind::LeftUp, row, column } => CalcView {
                    cursor: (row, column),
                    ..old(self)@
                },
                _ => old(self)@,
            }),
    {
        match event {
            InputEvent::Key { code, modifiers } => map_key(code, modifiers),
            InputEvent::Mouse { kind, row, column } => {
                match kind {
                    MouseKind::LeftUp => {
                        self.cursor_position = (row, column);
                        map_click(self.cursor_position.0, self.cursor_position.1)
                    },
                    MouseKind::Other => None,
                }
            },
            InputEvent::Other => None,
        }
    }
}

/// A click anywhere on the "9" button does what typing 9 does.
pub proof fn lemma_click_nine_is_key_nine(column: int)
    requires
        13 <= column <= 17,
    ensures
        click_action(5, column) == key_action(Key::Char('9'), Modifiers::Plain),
        click_action(5, column) == Some(Action::Digit('9')),
{
}

} // verus!
