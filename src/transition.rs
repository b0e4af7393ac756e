//! The transition table: from a state and an incoming scalar to the next
//! state and the action to perform.
use vstd::prelude::*;

verus! {

/// The states of the machine.
#[derive(Clone, Copy, PartialEq, Eq, Debug, Structural)]
pub enum State {
    Literal,
    Escape,
    EscapeIntermediate,
    CtrlStart,
    CtrlParam,
    CtrlIntermediate,
    CtrlMalformed,
    DevCtrlStart,
    DevCtrlParam,
    DevCtrlIntermediate,
    DevCtrlPassthru,
    DevCtrlMalformed,
    OsCmd,
    IgnoreUntilSt,
}

/// What the machine does with a scalar, besides changing state.
#[derive(Clone, Copy, PartialEq, Eq, Debug, Structural)]
pub enum Action {
    Ignore,
    Print,
    Execute,
    Collect,
    Param,
    Clear,
    Hook,
    Put,
    OscStart,
    OscPut,
    OscEnd,
    Unhook,
    CsiDispatch,
    EscDispatch,
    Error,
}

/// The outcome of classifying one scalar.
///
/// `Stay` performs only its action. `Enter` is a transition, even into the
/// state the machine is already in: the exit action of the old state and the
/// entry action of the new one run around the main action.
#[derive(Clone, Copy, PartialEq, Eq, Debug, Structural)]
pub enum Transition {
    Stay(Action),
    Enter(State, Action),
}

impl Transition {
    /// The main action of the transition.
    pub open spec fn action(self) -> Action {
        match self {
            Transition::Stay(a) => a,
            Transition::Enter(_, a) => a,
        }
    }
}

/// C0 controls that are handled within a state: U+0000..U+0017, U+0019 and
/// U+001C..U+001F (CAN, SUB and ESC act the same in every state).
pub open spec fn is_c0_ctrl(v: u32) -> bool {
    v <= 0x17 || v == 0x19 || (0x1c <= v <= 0x1f)
}

pub open spec fn in_range(v: u32, lo: u32, hi: u32) -> bool {
    lo <= v <= hi
}

/// The transitions that apply in every state.
pub open spec fn universal_transition(v: u32) -> Option<Transition> {
    if v == 0x18 || v == 0x1a || in_range(v, 0x80, 0x8f) || in_range(v, 0x91, 0x97) || v == 0x99
        || v == 0x9a {
        Some(Transition::Enter(State::Literal, Action::Execute))
    } else if v == 0x9c {
        Some(Transition::Enter(State::Literal, Action::Ignore))
    } else if v == 0x1b {
        Some(Transition::Enter(State::Escape, Action::Ignore))
    } else if v == 0x98 || v == 0x9e || v == 0x9f {
        Some(Transition::Enter(State::IgnoreUntilSt, Action::Ignore))
    } else if v == 0x90 {
        Some(Transition::Enter(State::DevCtrlStart, Action::Ignore))
    } else if v == 0x9d {
        Some(Transition::Enter(State::OsCmd, Action::Ignore))
    } else if v == 0x9b {
        Some(Transition::Enter(State::CtrlStart, Action::Ignore))
    } else {
        None
    }
}

/// The transition for a scalar that is not universal, by state. Scalars that
/// a state does not name are errors, which return the machine to `Literal`.
pub open spec fn state_transition(s: State, v: u32) -> Transition {
    let error = Transition::Enter(State::Literal, Action::Error);
    match s {
        State::Literal => {
            if is_c0_ctrl(v) {
                Transition::Stay(Action::Execute)
            } else {
                Transition::Stay(Action::Print)
            }
        },
        State::Escape => {
            if is_c0_ctrl(v) {
                Transition::Stay(Action::Execute)
            } else if v == 0x7f {
                Transition::Stay(Action::Ignore)
            } else if in_range(v, 0x20, 0x2f) {
                Transition::Enter(State::EscapeIntermediate, Action::Collect)
            } else if in_range(v, 0x30, 0x4f) || in_range(v, 0x51, 0x57) || v == 0x59 || v == 0x5a
                || v == 0x5c || in_range(v, 0x60, 0x7e) {
                Transition::Enter(State::Literal, Action::EscDispatch)
            } else if v == 0x5b {
                Transition::Enter(State::CtrlStart, Action::Ignore)
            } else if v == 0x5d {
                Transition::Enter(State::OsCmd, Action::Ignore)
            } else if v == 0x50 {
                Transition::Enter(State::DevCtrlStart, Action::Ignore)
            } else if v == 0x58 || v == 0x5e || v == 0x5f {
                Transition::Enter(State::IgnoreUntilSt, Action::Ignore)
            } else {
                error
            }
        },
        State::EscapeIntermediate => {
            if is_c0_ctrl(v) {
                Transition::Stay(Action::Execute)
            } else if v == 0x7f {
                Transition::Stay(Action::Ignore)
            } else if in_range(v, 0x20, 0x2f) {
                Transition::Stay(Action::Collect)
            } else if in_range(v, 0x30, 0x7e) {
                Transition::Enter(State::Literal, Action::EscDispatch)
            } else {
                error
            }
        },
        State::CtrlStart => {
            if is_c0_ctrl(v) {
                Transition::Stay(Action::Execute)
            } else if v == 0x7f {
                Transition::Stay(Action::Ignore)
            } else if in_range(v, 0x20, 0x2f) {
                Transition::Enter(State::CtrlIntermediate, Action::Collect)
            } else if v == 0x3a {
                Transition::Enter(State::CtrlMalformed, Action::Ignore)
            } else if in_range(v, 0x30, 0x39) || v == 0x3b {
                Transition::Enter(State::CtrlParam, Action::Param)
            } else if in_range(v, 0x3c, 0x3f) {
                Transition::Enter(State::CtrlParam, Action::Collect)
            } else if in_range(v, 0x40, 0x7e) {
                Transition::Enter(State::Literal, Action::CsiDispatch)
            } else {
                error
            }
        },
        State::CtrlParam => {
            if is_c0_ctrl(v) {
                Transition::Stay(Action::Execute)
            } else if in_range(v, 0x30, 0x39) || v == 0x3b {
                Transition::Stay(Action::Param)
            } else if v == 0x7f {
                Transition::Stay(Action::Ignore)
            } else if v == 0x3a || in_range(v, 0x3c, 0x3f) {
                Transition::Enter(State::CtrlMalformed, Action::Ignore)
            } else if in_range(v, 0x20, 0x2f) {
                Transition::Enter(State::CtrlIntermediate, Action::Collect)
            } else if in_range(v, 0x40, 0x7e) {
                Transition::Enter(State::Literal, Action::CsiDispatch)
            } else {
                error
            }
        },
        State::CtrlIntermediate => {
            if is_c0_ctrl(v) {
                Transition::Stay(Action::Execute)
            } else if in_range(v, 0x20, 0x2f) {
                Transition::Stay(Action::Collect)
            } else if v == 0x7f {
                Transition::Stay(Action::Ignore)
            } else if v == 0x3a || in_range(v, 0x3c, 0x3f) {
                Transition::Enter(State::CtrlMalformed, Action::Ignore)
            } else if in_range(v, 0x40, 0x7e) {
                Transition::Enter(State::Literal, Action::CsiDispatch)
            } else {
                error
            }
        },
        State::CtrlMalformed => {
            if is_c0_ctrl(v) {
                Transition::Stay(Action::Execute)
            } else if in_range(v, 0x20, 0x3f) || v == 0x7f {
                Transition::Stay(Action::Ignore)
            } else if in_range(v, 0x40, 0x7e) {
                Transition::Enter(State::Literal, Action::Ignore)
            } else {
                error
            }
        },
        State::DevCtrlStart => {
            if is_c0_ctrl(v) || v == 0x7f {
                Transition::Stay(Action::Ignore)
            } else if v == 0x3a {
                Transition::Enter(State::DevCtrlMalformed, Action::Ignore)
            } else if in_range(v, 0x20, 0x2f) {
                Transition::Enter(State::DevCtrlIntermediate, Action::Collect)
            } else if in_range(v, 0x30, 0x39) || v == 0x3b {
                Transition::Enter(State::DevCtrlParam, Action::Param)
            } else if in_range(v, 0x3c, 0x3f) {
                Transition::Enter(State::DevCtrlParam, Action::Collect)
            } else if in_range(v, 0x40, 0x7e) {
                Transition::Enter(State::DevCtrlPassthru, Action::Ignore)
            } else {
                error
            }
        },
        State::DevCtrlParam => {
            if is_c0_ctrl(v) || v == 0x7f {
                Transition::Stay(Action::Ignore)
            } else if in_range(v, 0x30, 0x39) || v == 0x3b {
                Transition::Stay(Action::Param)
            } else if v == 0x3a || in_range(v, 0x3c, 0x3f) {
                Transition::Enter(State::DevCtrlMalformed, Action::Ignore)
            } else if in_range(v, 0x20, 0x2f) {
                Transition::Enter(State::DevCtrlIntermediate, Action::Collect)
            } else if in_range(v, 0x40, 0x7e) {
                Transition::Enter(State::DevCtrlPassthru, Action::Ignore)
            } else {
                error
            }
        },
        State::DevCtrlIntermediate => {
            if is_c0_ctrl(v) || v == 0x7f {
                Transition::Stay(Action::Ignore)
            } else if in_range(v, 0x20, 0x2f) {
                Transition::Stay(Action::Collect)
            } else if in_range(v, 0x30, 0x3f) {
                Transition::Enter(State::DevCtrlMalformed, Action::Ignore)
            } else if in_range(v, 0x40, 0x7e) {
                Transition::Enter(State::DevCtrlPassthru, Action::Ignore)
            } else {
                error
            }
        },
        State::DevCtrlPassthru => {
            if is_c0_ctrl(v) || in_range(v, 0x20, 0x7e) {
                Transition::Stay(Action::Put)
            } else if v == 0x7f {
                Transition::Stay(Action::Ignore)
            } else {
                error
            }
        },
        State::DevCtrlMalformed => {
            if is_c0_ctrl(v) || in_range(v, 0x20, 0x7f) {
                Transition::Stay(Action::Ignore)
            } else {
                error
            }
        },
        State::OsCmd => {
            if is_c0_ctrl(v) {
                Transition::Stay(Action::Ignore)
            } else if in_range(v, 0x20, 0x7f) {
                Transition::Stay(Action::OscPut)
            } else {
                error
            }
        },
        State::IgnoreUntilSt => {
            if is_c0_ctrl(v) || in_range(v, 0x20, 0x7f) {
                Transition::Stay(Action::Ignore)
            } else {
                error
            }
        },
    }
}

/// The transition for scalar `c` in state `s`: a universal one if `c` has
/// one, and otherwise the state's own.
pub open spec fn transition(s: State, c: char) -> Transition {
    match universal_transition(c as u32) {
        Some(t) => t,
        None => state_transition(s, c as u32),
    }
}

/// The action that runs on entering a state, if any.
pub open spec fn entry_action(s: State) -> Option<Action> {
    match s {
        State::Escape | State::CtrlStart | State::DevCtrlStart => Some(Action::Clear),
        State::OsCmd => Some(Action::OscStart),
        State::DevCtrlPassthru => Some(Action::Hook),
        _ => None,
    }
}

/// The action that runs on leaving a state, if any.
pub open spec fn exit_action(s: State) -> Option<Action> {
    match s {
        State::OsCmd => Some(Action::OscEnd),
        State::DevCtrlPassthru => Some(Action::Unhook),
        _ => None,
    }
}

/// Classifies the scalar `c` arriving in state `state`.
pub fn next_transition(state: State, c: char) -> (t: Transition)
    ensures
        t == transition(state, c),
{
    let v = c as u32;
    match v {
        0x18 | 0x1a | 0x80..=0x8f | 0x91..=0x97 | 0x99 | 0x9a => {
            return Transition::Enter(State::Literal, Action::Execute);
        },
        0x9c => {
            return Transition::Enter(State::Literal, Action::Ignore);
        },
        0x1b => {
            return Transition::Enter(State::Escape, Action::Ignore);
        },
        0x98 | 0x9e | 0x9f => {
            return Transition::Enter(State::IgnoreUntilSt, Action::Ignore);
        },
        0x90 => {
            return Transition::Enter(State::DevCtrlStart, Action::Ignore);
        },
        0x9d => {
            return Transition::Enter(State::OsCmd, Action::Ignore);
        },
        0x9b => {
            return Transition::Enter(State::CtrlStart, Action::Ignore);
        },
        _ => {},
    }
    let error = Transition::Enter(State::Literal, Action::Error);
    match state {
        State::Literal => match v {
            0x00..=0x17 | 0x19 | 0x1c..=0x1f => Transition::Stay(Action::Execute),
            _ => Transition::Stay(Action::Print),
        },
        State::Escape => match v {
            0x00..=0x17 | 0x19 | 0x1c..=0x1f => Transition::Stay(Action::Execute),
            0x7f => Transition::Stay(Action::Ignore),
            0x20..=0x2f => Transition::Enter(State::EscapeIntermediate, Action::Collect),
            0x30..=0x4f | 0x51..=0x57 | 0x59 | 0x5a | 0x5c | 0x60..=0x7e => {
                Transition::Enter(State::Literal, Action::EscDispatch)
            },
            0x5b => Transition::Enter(State::CtrlStart, Action::Ignore),
            0x5d => Transition::Enter(State::OsCmd, Action::Ignore),
            0x50 => Transition::Enter(State::DevCtrlStart, Action::Ignore),
            0x58 | 0x5e | 0x5f => Transition::Enter(State::IgnoreUntilSt, Action::Ignore),
            _ => error,
        },
        State::EscapeIntermediate => match v {
            0x00..=0x17 | 0x19 | 0x1c..=0x1f => Transition::Stay(Action::Execute),
            0x7f => Transition::Stay(Action::Ignore),
            0x20..=0x2f => Transition::Stay(Action::Collect),
            0x30..=0x7e => Transition::Enter(State::Literal, Action::EscDispatch),
            _ => error,
        },
        State::CtrlStart => match v {
            0x00..=0x17 | 0x19 | 0x1c..=0x1f => Transition::Stay(Action::Execute),
            0x7f => Transition::Stay(Action::Ignore),
            0x20..=0x2f => Transition::Enter(State::CtrlIntermediate, Action::Collect),
            0x3a => Transition::Enter(State::CtrlMalformed, Action::Ignore),
            0x30..=0x39 | 0x3b => Transition::Enter(State::CtrlParam, Action::Param),
            0x3c..=0x3f => Transition::Enter(State::CtrlParam, Action::Collect),
            0x40..=0x7e => Transition::Enter(State::Literal, Action::CsiDispatch),
            _ => error,
        },
        State::CtrlParam => match v {
            0x00..=0x17 | 0x19 | 0x1c..=0x1f => Transition::Stay(Action::Execute),
            0x30..=0x39 | 0x3b => Transition::Stay(Action::Param),
            0x7f => Transition::Stay(Action::Ignore),
            0x3a | 0x3c..=0x3f => Transition::Enter(State::CtrlMalformed, Action::Ignore),
            0x20..=0x2f => Transition::Enter(State::CtrlIntermediate, Action::Collect),
            0x40..=0x7e => Transition::Enter(State::Literal, Action::CsiDispatch),
            _ => error,
        },
        State::CtrlIntermediate => match v {
            0x00..=0x17 | 0x19 | 0x1c..=0x1f => Transition::Stay(Action::Execute),
            0x20..=0x2f => Transition::Stay(Action::Collect),
            0x7f => Transition::Stay(Action::Ignore),
            0x3a | 0x3c..=0x3f => Transition::Enter(State::CtrlMalformed, Action::Ignore),
            0x40..=0x7e => Transition::Enter(State::Literal, Action::CsiDispatch),
            _ => error,
        },
        State::CtrlMalformed => match v {
            0x00..=0x17 | 0x19 | 0x1c..=0x1f => Transition::Stay(Action::Execute),
            0x20..=0x3f | 0x7f => Transition::Stay(Action::Ignore),
            0x40..=0x7e => Transition::Enter(State::Literal, Action::Ignore),
            _ => error,
        },
        State::DevCtrlStart => match v {
            0x00..=0x17 | 0x19 | 0x1c..=0x1f | 0x7f => Transition::Stay(Action::Ignore),
            0x3a => Transition::Enter(State::DevCtrlMalformed, Action::Ignore),
            0x20..=0x2f => Transition::Enter(State::DevCtrlIntermediate, Action::Collect),
            0x30..=0x39 | 0x3b => Transition::Enter(State::DevCtrlParam, Action::Param),
            0x3c..=0x3f => Transition::Enter(State::DevCtrlParam, Action::Collect),
            0x40..=0x7e => Transition::Enter(State::DevCtrlPassthru, Action::Ignore),
            _ => error,
        },
        State::DevCtrlParam => match v {
            0x00..=0x17 | 0x19 | 0x1c..=0x1f | 0x7f => Transition::Stay(Action::Ignore),
            0x30..=0x39 | 0x3b => Transition::Stay(Action::Param),
            0x3a | 0x3c..=0x3f => Transition::Enter(State::DevCtrlMalformed, Action::Ignore),
            0x20..=0x2f => Transition::Enter(State::DevCtrlIntermediate, Action::Collect),
            0x40..=0x7e => Transition::Enter(State::DevCtrlPassthru, Action::Ignore),
            _ => error,
        },
        State::DevCtrlIntermediate => match v {
            0x00..=0x17 | 0x19 | 0x1c..=0x1f | 0x7f => Transition::Stay(Action::Ignore),
            0x20..=0x2f => Transition::Stay(Action::Collect),
            0x30..=0x3f => Transition::Enter(State::DevCtrlMalformed, Action::Ignore),
            0x40..=0x7e => Transition::Enter(State::DevCtrlPassthru, Action::Ignore),
            _ => error,
        },
        State::DevCtrlPassthru => match v {
            0x00..=0x17 | 0x19 | 0x1c..=0x1f | 0x20..=0x7e => Transition::Stay(Action::Put),
            0x7f => Transition::Stay(Action::Ignore),
            _ => error,
        },
        State::DevCtrlMalformed => match v {
            0x00..=0x17 | 0x19 | 0x1c..=0x1f | 0x20..=0x7f => Transition::Stay(Action::Ignore),
            _ => error,
        },
        State::OsCmd => match v {
            0x00..=0x17 | 0x19 | 0x1c..=0x1f => Transition::Stay(Action::Ignore),
            0x20..=0x7f => Transition::Stay(Action::OscPut),
            _ => error,
        },
        State::IgnoreUntilSt => match v {
            0x00..=0x17 | 0x19 | 0x1c..=0x1f | 0x20..=0x7f => Transition::Stay(Action::Ignore),
            _ => error,
        },
    }
}

/// The action that runs on entering `state`, if any.
pub fn state_entry_action(state: State) -> (r: Option<Action>)
    ensures
        r == entry_action(state),
{
    match state {
        State::Escape => Some(Action::Clear),
        State::CtrlStart => Some(Action::Clear),
        State::DevCtrlStart => Some(Action::Clear),
        State::OsCmd => Some(Action::OscStart),
        State::DevCtrlPassthru => Some(Action::Hook),
        _ => None,
    }
}

/// The action that runs on leaving `state`, if any.
pub fn state_exit_action(state: State) -> (r: Option<Action>)
    ensures
        r == exit_action(state),
{
    match state {
        State::OsCmd => Some(Action::OscEnd),
        State::DevCtrlPassthru => Some(Action::Unhook),
        _ => None,
    }
}

} // verus!

verus! {

/// The shape of every transition: which actions can occur where.
pub proof fn lemma_transition_shape(s: State, c: char)
    ensures
        match transition(s, c) {
            Transition::Stay(a) => {
                &&& a == Action::Ignore || a == Action::Print || a == Action::Execute || a
                    == Action::Collect || a == Action::Param || a == Action::Put || a
                    == Action::OscPut
                &&& a == Action::Print ==> s == State::Literal
                &&& a == Action::Put ==> s == State::DevCtrlPassthru
                &&& a == Action::OscPut ==> s == State::OsCmd
            },
            Transition::Enter(t, a) => {
                &&& a == Action::Ignore || a == Action::Execute || a == Action::Collect || a
                    == Action::Param || a == Action::CsiDispatch || a == Action::EscDispatch || a
                    == Action::Error
                &&& entry_action(t) is Some ==> a == Action::Ignore
                &&& a == Action::Error ==> t == State::Literal
            },
        },
        transition(s, c).action() == Action::Param ==> (c as u32 == 0x3b || 0x30 <= c as u32
            <= 0x39),
{
}

} // verus!
