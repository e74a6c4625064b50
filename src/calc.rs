use vstd::prelude::*;

use crate::text::{
    add_point, append_char, backspace, backspaced, is_this_num_empty, num_empty, toggle_sign,
    toggled, with_point,
};

verus! {

/// The operator of a pending operation. `Empty` marks the empty operation only.
#[derive(Clone, Copy, Debug, PartialEq, Eq, Structural)]
pub enum OperationType {
    Empty,
    Add,
    Subtract,
    Multiply,
    Divide,
}

impl OperationType {
    /// The character shown in front of an operand while it is typed.
    pub fn glyph(self) -> (r: char)
        ensures
            r == glyph_of(self),
    {
        match self {
            OperationType::Empty => ' ',
            OperationType::Add => '+',
            OperationType::Subtract => '-',
            OperationType::Multiply => '\u{d7}',
            OperationType::Divide => '\u{f7}',
        }
    }
}

pub open spec fn glyph_of(op: OperationType) -> char {
    match op {
        OperationType::Empty => ' ',
        OperationType::Add => '+',
        OperationType::Subtract => '-',
        OperationType::Multiply => '\u{d7}',
        OperationType::Divide => '\u{f7}',
    }
}

/// One binary operation: an operator and its right-hand operand as typed.
#[derive(Debug)]
pub struct Operation {
    pub operation_type: OperationType,
    pub number: String,
}

/// An operation as a pair of operator and operand text.
pub type OpView = (OperationType, Seq<char>);

impl View for Operation {
    type V = OpView;

    open spec fn view(&self) -> OpView {
        (self.operation_type, self.number@)
    }
}

pub open spec fn empty_op() -> OpView {
    (OperationType::Empty, Seq::empty())
}

impl Operation {
    /// The empty operation: no operator and no operand.
    pub fn empty() -> (r: Operation)
        ensures
            r@ == empty_op(),
    {
        Operation { operation_type: OperationType::Empty, number: String::new() }
    }
}

/// Which buffer the keys edit.
#[derive(Clone, Copy, Debug, PartialEq, Eq, Structural)]
pub enum CalcMode {
    EnteringNumber,
    EnteringOperation,
    ShowingAns,
}

/// A logical calculator action, whatever input produced it.
#[derive(Clone, Copy, Debug, PartialEq, Eq, Structural)]
pub enum Action {
    Digit(char),
    DecimalPoint,
    Operator(OperationType),
    Clear,
    ToggleSign,
    Backspace,
    Commit,
    Quit,
}

/// What the host has to do after an action.
#[derive(Clone, Copy, Debug, PartialEq, Eq, Structural)]
pub enum Effect {
    /// Nothing changed.
    Nothing,
    /// Show the accumulator.
    ShowNumber,
    /// Show the current operation, glyph first.
    ShowOperation,
    /// Blank the display.
    ClearDisplay,
    /// Evaluate the accumulator against the pending queue and hand the
    /// outcome to `execute_operation`.
    Evaluate,
    /// Leave the session.
    Quit,
}

/// The whole calculator state.
#[derive(Debug)]
pub struct SystemVars {
    pub cursor_position: (u16, u16),
    pub ans: String,
    pub pending_operations: Vec<Operation>,
    pub current_operation: Operation,
    pub calc_mode: CalcMode,
}

/// The calculator state as mathematical values.
pub struct CalcView {
    pub cursor: (u16, u16),
    pub ans: Seq<char>,
    pub pending: Seq<OpView>,
    pub current: OpView,
    pub mode: CalcMode,
}

pub open spec fn ops_view(ops: Seq<Operation>) -> Seq<OpView> {
    ops.map_values(|o: Operation| o@)
}

impl View for SystemVars {
    type V = CalcView;

    open spec fn view(&self) -> CalcView {
        CalcView {
            cursor: self.cursor_position,
            ans: self.ans@,
            pending: ops_view(self.pending_operations@),
            current: self.current_operation@,
            mode: self.calc_mode,
        }
    }
}

/// The state a session starts in, and returns to on Clear.
pub open spec fn initial_view(cursor: (u16, u16)) -> CalcView {
    CalcView {
        cursor: cursor,
        ans: Seq::empty(),
        pending: Seq::empty(),
        current: empty_op(),
        mode: CalcMode::EnteringNumber,
    }
}

/// An operation that may stand in the queue: it has an operator and an operand.
pub open spec fn queued_ok(o: OpView) -> bool {
    o.0 != OperationType::Empty && !num_empty(o.1)
}

/// A well-formed state: queued operations have an operator and an operand,
/// an operation is in progress exactly in EnteringOperation mode, and
/// nothing is queued outside that mode.
pub open spec fn wf_view(s: CalcView) -> bool {
    &&& forall|i: int| 0 <= i < s.pending.len() ==> queued_ok(#[trigger] s.pending[i])
    &&& s.mode == CalcMode::EnteringOperation ==> s.current.0 != OperationType::Empty
    &&& s.mode != CalcMode::EnteringOperation ==> s.current == empty_op() && s.pending.len() == 0
}

/// What one action does to the state, and what the host must do next.
pub open spec fn press(s: CalcView, a: Action) -> (CalcView, Effect) {
    match a {
        Action::Digit(c) => match s.mode {
            CalcMode::EnteringNumber => (CalcView { ans: s.ans.push(c), ..s }, Effect::ShowNumber),
            CalcMode::EnteringOperation => (
                CalcView { current: (s.current.0, s.current.1.push(c)), ..s },
                Effect::ShowOperation,
            ),
            CalcMode::ShowingAns => (s, Effect::Nothing),
        },
        Action::DecimalPoint => match s.mode {
            CalcMode::EnteringNumber => if with_point(s.ans) != s.ans {
                (CalcView { ans: with_point(s.ans), ..s }, Effect::ShowNumber)
            } else {
                (s, Effect::Nothing)
            },
            CalcMode::EnteringOperation => if with_point(s.current.1) != s.current.1 {
                (
                    CalcView { current: (s.current.0, with_point(s.current.1)), ..s },
                    Effect::ShowOperation,
                )
            } else {
                (s, Effect::Nothing)
            },
            CalcMode::ShowingAns => (s, Effect::Nothing),
        },
        Action::Operator(k) => if k == OperationType::Empty {
            (s, Effect::Nothing)
        } else if s.mode == CalcMode::EnteringOperation {
            if num_empty(s.current.1) {
                (s, Effect::Nothing)
            } else {
                (
                    CalcView {
                        pending: s.pending.push(s.current),
                        current: (k, Seq::empty()),
                        ..s
                    },
                    Effect::ShowOperation,
                )
            }
        } else if num_empty(s.ans) {
            (s, Effect::Nothing)
        } else {
            (
                CalcView {
                    mode: CalcMode::EnteringOperation,
                    current: (k, s.current.1),
                    ..s
                },
                Effect::ShowOperation,
            )
        },
        Action::Clear => (initial_view(s.cursor), Effect::ClearDisplay),
        Action::ToggleSign => match s.mode {
            CalcMode::EnteringNumber => (CalcView { ans: toggled(s.ans), ..s }, Effect::ShowNumber),
            CalcMode::EnteringOperation => (
                CalcView { current: (s.current.0, toggled(s.current.1)), ..s },
                Effect::ShowOperation,
            ),
            CalcMode::ShowingAns => (s, Effect::Nothing),
        },
        Action::Backspace => match s.mode {
            CalcMode::EnteringNumber => if s.ans.len() > 0 {
                (CalcView { ans: backspaced(s.ans), ..s }, Effect::ShowNumber)
            } else {
                (s, Effect::Nothing)
            },
            CalcMode::EnteringOperation => if s.current.1.len() > 0 {
                (
                    CalcView { current: (s.current.0, backspaced(s.current.1)), ..s },
                    Effect::ShowOperation,
                )
            } else {
                (s, Effect::Nothing)
            },
            CalcMode::ShowingAns => (s, Effect::Nothing),
        },
        Action::Commit => if num_empty(s.current.1) {
            (s, Effect::Nothing)
        } else {
            (
                CalcView { pending: s.pending.push(s.current), current: empty_op(), ..s },
                Effect::Evaluate,
            )
        },
        Action::Quit => (s, Effect::Quit),
    }
}

proof fn lemma_ops_view_push(ops: Seq<Operation>, o: Operation)
    ensures
        ops_view(ops.push(o)) == ops_view(ops).push(o@),
{
    assert(ops_view(ops.push(o)) =~= ops_view(ops).push(o@));
}

proof fn lemma_ops_view_drop_last(ops: Seq<Operation>)
    requires
        ops.len() > 0,
    ensures
        ops_view(ops.drop_last()) == ops_view(ops).drop_last(),
{
    assert(ops_view(ops.drop_last()) =~= ops_view(ops).drop_last());
}

/// The state between a Commit and its evaluation: the operand just finished
/// sits last in the queue and no operation is in progress.
pub open spec fn committing_view(s: CalcView) -> bool {
    &&& s.mode == CalcMode::EnteringOperation
    &&& s.current == empty_op()
    &&& s.pending.len() > 0
    &&& forall|i: int| 0 <= i < s.pending.len() ==> queued_ok(#[trigger] s.pending[i])
}

/// Every action keeps the state well-formed, but a Commit that asks for an
/// evaluation, which leaves the state committing until the outcome is applied.
pub proof fn lemma_press_keeps_wf(s: CalcView, a: Action)
    requires
        wf_view(s),
    ensures
        press(s, a).1 == Effect::Evaluate ==> committing_view(press(s, a).0),
        press(s, a).1 != Effect::Evaluate ==> wf_view(press(s, a).0),
{
    let t = press(s, a).0;
    assert forall|i: int| 0 <= i < t.pending.len() implies queued_ok(#[trigger] t.pending[i]) by {
        if i < s.pending.len() {
            assert(t.pending[i] == s.pending[i]);
        }
    }
}

impl SystemVars {
    /// A fresh session: all buffers empty, entering the first number.
    pub fn new() -> (r: SystemVars)
        ensures
            r@ == initial_view((0, 0)),
            wf_view(r@),
    {
        let r = SystemVars {
            cursor_position: (0, 0),
            ans: String::new(),
            pending_operations: Vec::new(),
            current_operation: Operation::empty(),
            calc_mode: CalcMode::EnteringNumber,
        };
        assert(r@.pending =~= Seq::<OpView>::empty());
        r
    }

    /// Queues the operation in progress, unless its operand is empty.
    pub fn try_push_opp(&mut self) -> (r: bool)
        ensures
            r == !num_empty(old(self)@.current.1),
            r ==> final(self)@ == (CalcView {
                pending: old(self)@.pending.push(old(self)@.current),
                current: empty_op(),
                ..old(self)@
            }),
            !r ==> final(self)@ == old(self)@,
    {
        if is_this_num_empty(&self.current_operation.number) {
            return false;
        }
        let mut op = Operation::empty();
        std::mem::swap(&mut op, &mut self.current_operation);
        proof {
            lemma_ops_view_push(self.pending_operations@, op);
        }
        self.pending_operations.push(op);
        true
    }

    /// Applies the outcome of evaluating a committed queue. On success the
    /// result becomes the accumulator, the queue is emptied and the answer is
    /// shown. On failure the commit is undone: the last queued operation goes
    /// back to being the operation in progress, and the error is passed on.
    pub fn execute_operation(&mut self, outcome: Result<String, String>) -> (r: Result<(), String>)
        ensures
            outcome is Ok ==> r is Ok && final(self)@ == (CalcView {
                ans: outcome->Ok_0@,
                pending: Seq::empty(),
                current: empty_op(),
                mode: CalcMode::ShowingAns,
                ..old(self)@
            }),
            outcome is Err && old(self)@.pending.len() > 0 ==> r == Err::<(), String>(outcome->Err_0)
                && final(self)@ == (CalcView {
                pending: old(self)@.pending.drop_last(),
                current: old(self)@.pending.last(),
                ..old(self)@
            }),
            outcome is Err && old(self)@.pending.len() == 0 ==> r == Err::<(), String>(outcome->Err_0)
                && final(self)@ == old(self)@,
            committing_view(old(self)@) ==> wf_view(final(self)@),
    {
        match outcome {
            Ok(t) => {
                self.ans = t;
                self.pending_operations = Vec::new();
                self.current_operation = Operation::empty();
                self.calc_mode = CalcMode::ShowingAns;
                assert(self@.pending =~= Seq::<OpView>::empty());
                Ok(())
            },
            Err(e) => {
                proof {
                    if self.pending_operations@.len() > 0 {
                        lemma_ops_view_drop_last(self.pending_operations@);
                    }
                }
                let ghost s0 = self@;
                match self.pending_operations.pop() {
                    Some(op) => {
                        self.current_operation = op;
                        proof {
                            if committing_view(s0) {
                                let t = self@;
                                assert forall|i: int| 0 <= i < t.pending.len() implies queued_ok(
                                    #[trigger] t.pending[i],
                                ) by {
                                    assert(t.pending[i] == s0.pending[i]);
                                }
                                assert(t.current == s0.pending[s0.pending.len() - 1]);
                            }
                        }
                    },
                    None => {},
                }
                Err(e)
            },
        }
    }

    /// Applies one action and says what the host must show or do next.
    pub fn handle_press(&mut self, action: Action) -> (r: Effect)
        ensures
            (final(self)@, r) == press(old(self)@, action),
            wf_view(old(self)@) && r == Effect::Evaluate ==> committing_view(final(self)@),
            wf_view(old(self)@) && r != Effect::Evaluate ==> wf_view(final(self)@),
    {
        proof {
            if wf_view(self@) {
                lemma_press_keeps_wf(self@, action);
            }
        }
        match action {
            Action::Digit(c) => match self.calc_mode {
                CalcMode::EnteringNumber => {
                    append_char(&mut self.ans, c);
                    Effect::ShowNumber
                },
                CalcMode::EnteringOperation => {
                    append_char(&mut self.current_operation.number, c);
                    Effect::ShowOperation
                },
                CalcMode::ShowingAns => Effect::Nothing,
            },
            Action::DecimalPoint => match self.calc_mode {
                CalcMode::EnteringNumber => {
                    if crate::text::contains_char(&self.ans, '.') || is_this_num_empty(&self.ans) {
                        Effect::Nothing
                    } else {
                        add_point(&mut self.ans);
                        Effect::ShowNumber
                    }
                },
                CalcMode::EnteringOperation => {
                    if crate::text::contains_char(&self.current_operation.number, '.')
                        || is_this_num_empty(&self.current_operation.number) {
                        Effect::Nothing
                    } else {
                        add_point(&mut self.current_operation.number);
                        Effect::ShowOperation
                    }
                },
                CalcMode::ShowingAns => Effect::Nothing,
            },
            Action::Operator(k) => {
                if k == OperationType::Empty {
                    return Effect::Nothing;
                }
                match self.calc_mode {
                    CalcMode::EnteringOperation => {
                        if !self.try_push_opp() {
                            return Effect::Nothing;
                        }
                    },
                    _ => {
                        if is_this_num_empty(&self.ans) {
                            return Effect::Nothing;
                        }
                        self.calc_mode = CalcMode::EnteringOperation;
                    },
                }
                self.current_operation.operation_type = k;
                Effect::ShowOperation
            },
            Action::Clear => {
                self.pending_operations = Vec::new();
                self.ans = String::new();
                self.current_operation = Operation::empty();
                self.calc_mode = CalcMode::EnteringNumber;
                assert(self@.pending =~= Seq::<OpView>::empty());
                Effect::ClearDisplay
            },
            Action::ToggleSign => match self.calc_mode {
                CalcMode::EnteringNumber => {
                    toggle_sign(&mut self.ans);
                    Effect::ShowNumber
                },
                CalcMode::EnteringOperation => {
                    toggle_sign(&mut self.current_operation.number);
                    Effect::ShowOperation
                },
                CalcMode::ShowingAns => Effect::Nothing,
            },
            Action::Backspace => match self.calc_mode {
                CalcMode::EnteringNumber => {
                    if self.ans.as_str().unicode_len() == 0 {
                        Effect::Nothing
                    } else {
                        backspace(&mut self.ans);
                        Effect::ShowNumber
                    }
                },
                CalcMode::EnteringOperation => {
                    if self.current_operation.number.as_str().unicode_len() == 0 {
                        Effect::Nothing
                    } else {
                        backspace(&mut self.current_operation.number);
                        Effect::ShowOperation
                    }
                },
                CalcMode::ShowingAns => Effect::Nothing,
            },
            Action::Commit => {
                if self.try_push_opp() {
                    Effect::Evaluate
                } else {
                    Effect::Nothing
                }
            },
            Action::Quit => Effect::Quit,
        }
    }
}

} // verus!

verus! {

/// The state after typing the given characters as digits, in order.
pub open spec fn type_digits(s: CalcView, ds: Seq<char>) -> CalcView
    decreases ds.len(),
{
    if ds.len() == 0 {
        s
    } else {
        type_digits(press(s, Action::Digit(ds[0])).0, ds.subrange(1, ds.len() as int))
    }
}

/// Typing digits while entering a number appends them to the accumulator in
/// the order typed, and stays in that mode.
pub proof fn lemma_digits_concatenate(s: CalcView, ds: Seq<char>)
    requires
        s.mode == CalcMode::EnteringNumber,
    ensures
        type_digits(s, ds) == (CalcView { ans: s.ans + ds, ..s }),
    decreases ds.len(),
{
    if ds.len() == 0 {
        assert(s.ans + ds =~= s.ans);
    } else {
        let s1 = press(s, Action::Digit(ds[0])).0;
        let rest = ds.subrange(1, ds.len() as int);
        lemma_digits_concatenate(s1, rest);
        assert(s1.ans + rest =~= s.ans + ds);
    }
}

/// A second decimal point, typed right after a first attempt, changes nothing.
pub proof fn lemma_point_twice(s: CalcView)
    ensures
        press(press(s, Action::DecimalPoint).0, Action::DecimalPoint).0 == press(
            s,
            Action::DecimalPoint,
        ).0,
        press(press(s, Action::DecimalPoint).0, Action::DecimalPoint).1 == Effect::Nothing,
{
    crate::text::lemma_point_idempotent(s.ans);
    crate::text::lemma_point_idempotent(s.current.1);
}

/// Toggling the sign twice in a row gives back the state it started from, when
/// the buffer being edited does not begin with two minus signs.
pub proof fn lemma_toggle_twice(s: CalcView)
    requires
        s.mode == CalcMode::EnteringNumber ==> !(s.ans.len() >= 2 && s.ans[0] == '-' && s.ans[1]
            == '-'),
        s.mode == CalcMode::EnteringOperation ==> !(s.current.1.len() >= 2 && s.current.1[0]
            == '-' && s.current.1[1] == '-'),
    ensures
        press(press(s, Action::ToggleSign).0, Action::ToggleSign).0 == s,
{
    if s.mode == CalcMode::EnteringNumber {
        crate::text::lemma_toggle_involution(s.ans);
    } else if s.mode == CalcMode::EnteringOperation {
        crate::text::lemma_toggle_involution(s.current.1);
    }
}

/// After a Clear, a Commit has nothing to evaluate: the state stays cleared
/// and nothing is shown.
pub proof fn lemma_clear_then_commit(s: CalcView)
    ensures
        press(press(s, Action::Clear).0, Action::Commit) == (initial_view(s.cursor), Effect::Nothing),
{
}

} // verus!
