//! The machine: its state, its buffers, and what one scalar does to them.
use vstd::prelude::*;
use crate::event::{EventView, VtEvent, VtEvents, MAX_EVENTS};
use crate::intermediates::{
    no_intermediates, push_intermediate, IntermediatesView, VtIntermediates, MAX_INTERMEDIATES,
};
use crate::params::{with_param_byte, VtParams, MAX_PARAMS};
use crate::scalar::{event_byte, scalar_event_byte};
use crate::transition::{
    entry_action, exit_action, lemma_transition_shape, next_transition, state_entry_action,
    state_exit_action, transition, Action, State, Transition,
};

verus! {

/// The mathematical form of a [`VtMachine`].
pub struct MachineView {
    pub state: State,
    pub params: Seq<u16>,
    pub intermediates: IntermediatesView,
    /// Whether the last event emitted was a `Print`.
    pub in_print_run: bool,
}

/// A fresh machine: `Literal`, empty buffers, no print run.
pub open spec fn initial_view() -> MachineView {
    MachineView {
        state: State::Literal,
        params: Seq::empty(),
        intermediates: no_intermediates(),
        in_print_run: false,
    }
}

/// What holds of every machine: the buffers are within their bounds, and a
/// print run is open only in `Literal`.
pub open spec fn view_wf(m: MachineView) -> bool {
    &&& m.params.len() <= MAX_PARAMS
    &&& m.intermediates.chars.len() <= MAX_INTERMEDIATES
    &&& m.in_print_run ==> m.state == State::Literal
}

/// The machine after the buffer effects of action `a` for scalar `c`, with
/// the print-run flag set by `Print` and cleared by any other action.
pub open spec fn after_action(m: MachineView, a: Action, c: char) -> MachineView {
    let m1 = match a {
        Action::Collect => MachineView {
            intermediates: push_intermediate(m.intermediates, event_byte(c)),
            ..m
        },
        Action::Param => MachineView { params: with_param_byte(m.params, event_byte(c)), ..m },
        Action::Clear | Action::Error => MachineView {
            params: Seq::empty(),
            intermediates: no_intermediates(),
            ..m
        },
        _ => m,
    };
    MachineView { in_print_run: a == Action::Print, ..m1 }
}

/// The `PrintEnd` that action `a` emits first: one exactly when `a` is not
/// `Print` and a print run is open.
pub open spec fn run_end_events(m: MachineView, a: Action) -> Seq<EventView> {
    if a != Action::Print && m.in_print_run {
        seq![EventView::PrintEnd]
    } else {
        Seq::empty()
    }
}

/// The event that action `a` reports for scalar `c`, if any, with the
/// buffers of `m`.
pub open spec fn action_events(m: MachineView, a: Action, c: char) -> Seq<EventView> {
    let b = event_byte(c);
    match a {
        Action::Print => seq![EventView::Print(c)],
        Action::Execute => seq![EventView::ExecuteCtrl(b)],
        Action::Hook => seq![
            EventView::DcsStart { cmd: b, params: m.params, intermediates: m.intermediates },
        ],
        Action::Put => seq![EventView::DcsChar(c)],
        Action::OscStart => seq![EventView::OscStart(b)],
        Action::OscPut => seq![EventView::OscChar(c)],
        Action::OscEnd => seq![EventView::OscEnd(b)],
        Action::Unhook => seq![EventView::DcsEnd(b)],
        Action::CsiDispatch => seq![
            EventView::DispatchCsi { cmd: b, params: m.params, intermediates: m.intermediates },
        ],
        Action::EscDispatch => seq![
            EventView::DispatchEsc { cmd: b, intermediates: m.intermediates },
        ],
        Action::Error => seq![EventView::Error(c)],
        _ => Seq::empty(),
    }
}

/// The events of an optional action.
pub open spec fn opt_action_events(m: MachineView, a: Option<Action>, c: char) -> Seq<EventView> {
    match a {
        Some(a) => action_events(m, a, c),
        None => Seq::empty(),
    }
}

/// What one scalar does: the next machine and the events, in order.
///
/// A `Stay` runs its action alone. An `Enter` reports the old state's exit
/// event, switches state, runs the entry action and then the main action,
/// and reports the main event and then the entry event.
#[verifier::opaque]
pub open spec fn step(m: MachineView, c: char) -> (MachineView, Seq<EventView>) {
    match transition(m.state, c) {
        Transition::Stay(a) => {
            let m1 = after_action(m, a, c);
            (m1, run_end_events(m, a) + action_events(m1, a, c))
        },
        Transition::Enter(s, a) => {
            let exit = opt_action_events(m, exit_action(m.state), c);
            let m1 = MachineView { state: s, ..m };
            let entry = entry_action(s);
            let (m2, entry_end) = match entry {
                Some(x) => (after_action(m1, x, c), run_end_events(m1, x)),
                None => (m1, Seq::empty()),
            };
            let m3 = after_action(m2, a, c);
            (
                m3,
                exit + entry_end + run_end_events(m2, a) + action_events(m3, a, c)
                    + opt_action_events(m3, entry, c),
            )
        },
    }
}

/// What the end of the stream does: the print run, if open, ends, and the
/// machine starts afresh.
pub open spec fn end_of_stream(m: MachineView) -> (MachineView, Seq<EventView>) {
    (
        initial_view(),
        if m.in_print_run {
            seq![EventView::PrintEnd]
        } else {
            Seq::empty()
        },
    )
}

/// What a stream of scalars does: the machine after each of them in turn,
/// and all of their events, in order.
pub open spec fn feed(m: MachineView, cs: Seq<char>) -> (MachineView, Seq<EventView>)
    decreases cs.len(),
{
    if cs.len() == 0 {
        (m, Seq::empty())
    } else {
        let (m1, e1) = feed(m, cs.drop_last());
        let (m2, e2) = step(m1, cs.last());
        (m2, e1 + e2)
    }
}

/// The views of a sequence of events.
pub open spec fn events_view(es: Seq<VtEvent>) -> Seq<EventView> {
    es.map_values(|e: VtEvent| e@)
}

/// Virtual terminal state machine.
///
/// Takes Unicode scalar values and translates them into low-level events
/// for a higher-level terminal emulator to interpret. It does not support
/// legacy character sets.
pub struct VtMachine {
    state: State,
    intermediates: VtIntermediates,
    params: VtParams,
    in_literal_chunk: bool,
}

impl View for VtMachine {
    type V = MachineView;

    closed spec fn view(&self) -> MachineView {
        MachineView {
            state: self.state,
            params: self.params@,
            intermediates: self.intermediates@,
            in_print_run: self.in_literal_chunk,
        }
    }
}

impl VtMachine {
    /// The machine's internal invariant.
    pub closed spec fn wf(&self) -> bool {
        &&& self.params.wf()
        &&& self.intermediates.wf()
        &&& view_wf(self@)
    }

    /// Constructs a new [`VtMachine`].
    pub fn new() -> (r: Self)
        ensures
            r.wf(),
            r@ == initial_view(),
    {
        VtMachine {
            state: State::Literal,
            intermediates: VtIntermediates::new(),
            params: VtParams::new(),
            in_literal_chunk: false,
        }
    }

    /// Returns the machine's current state.
    pub fn state(&self) -> (r: State)
        ensures
            r == self@.state,
    {
        self.state
    }

    /// Consumes a single Unicode scalar value, returning the events that it
    /// causes, in order.
    pub fn write_char(&mut self, c: char) -> (r: VtEvents)
        requires
            old(self).wf(),
        ensures
            final(self).wf(),
            view_wf(final(self)@),
            r.wf(),
            (final(self)@, r@) == step(old(self)@, c),
    {
        let b = scalar_event_byte(c);
        proof {
            lemma_transition_shape(self.state, c);
        }
        match next_transition(self.state, c) {
            Transition::Stay(a) => self.just_action(a, c, b),
            Transition::Enter(s, a) => self.change_state(s, a, c, b),
        }
    }

    /// Consumes a single Unicode scalar value given as a [`u8char::u8char`],
    /// returning the events that it causes, in order.
    pub fn write_u8char(&mut self, c: u8char::u8char) -> (r: VtEvents)
        requires
            old(self).wf(),
        ensures
            final(self).wf(),
            r.wf(),
            exists|ch: char| (final(self)@, r@) == step(old(self)@, ch),
    {
        let ch = c.to_char();
        self.write_char(ch)
    }

    /// Consumes every scalar of `s` in order, returning all of the events
    /// that they cause.
    pub fn write_str(&mut self, s: &str) -> (r: Vec<VtEvent>)
        requires
            old(self).wf(),
        ensures
            final(self).wf(),
            (final(self)@, events_view(r@)) == feed(old(self)@, s@),
    {
        let ghost start = self@;
        let mut out: Vec<VtEvent> = Vec::new();
        assert(s@.take(0) =~= Seq::<char>::empty());
        assert(events_view(out@) =~= Seq::<EventView>::empty());
        for ch in it: s.chars()
            invariant
                it.seq() == s@,
                self.wf(),
                (self@, events_view(out@)) == feed(start, s@.take(it.index() as int)),
        {
            let ghost i = it.index() as int;
            let ghost before = events_view(out@);
            let events = self.write_char(ch);
            let evs = events.as_slice();
            let n = events.len();
            let mut j: usize = 0;
            while j < n
                invariant
                    n == evs@.len(),
                    evs@ == events.items(),
                    j <= n,
                    events_view(out@) == before + events_view(evs@.take(j as int)),
                decreases n - j,
            {
                let ghost prev = out@;
                let e = evs[j];
                out.push(e);
                assert(events_view(out@) =~= events_view(prev).push(e@));
                assert(evs@.take(j + 1) =~= evs@.take(j as int).push(e));
                assert(events_view(evs@.take(j + 1)) =~= events_view(evs@.take(j as int)).push(
                    e@,
                ));
                j = j + 1;
            }
            assert(evs@.take(n as int) =~= evs@);
            assert(s@.take(i + 1).drop_last() =~= s@.take(i));
        }
        assert(s@.take(s@.len() as int) =~= s@);
        out
    }

    /// Tells the machine that no more input is expected. A print run that is
    /// still open ends here.
    ///
    /// The machine can still be used afterwards: the next scalar written is
    /// treated as the first of a new stream.
    pub fn write_end(&mut self) -> (r: VtEvents)
        requires
            old(self).wf(),
        ensures
            final(self).wf(),
            r.wf(),
            (final(self)@, r@) == end_of_stream(old(self)@),
    {
        self.state = State::Literal;
        self.intermediates.clear();
        self.params.clear();
        let mut events = VtEvents::new();
        if self.in_literal_chunk {
            self.in_literal_chunk = false;
            events.push(VtEvent::PrintEnd);
        }
        assert(events@ =~= end_of_stream(old(self)@).1);
        events
    }

    /// Performs the buffer effects of action `a` for scalar `c` (whose event
    /// byte is `b`), ending an open print run first unless `a` prints.
    fn action(&mut self, a: Action, c: char, b: u8, events: &mut VtEvents)
        requires
            old(self).params.wf(),
            old(self).intermediates.wf(),
            old(events).wf(),
            old(events)@.len() < MAX_EVENTS,
            b == event_byte(c),
            a == Action::Param ==> (b == 0x3b || 0x30 <= b <= 0x39),
        ensures
            final(self).params.wf(),
            final(self).intermediates.wf(),
            final(self)@ == after_action(old(self)@, a, c),
            final(events).wf(),
            final(events)@ == old(events)@ + run_end_events(old(self)@, a),
    {
        match a {
            Action::Collect => self.intermediates.push(b),
            Action::Param => self.params.push_param_byte(b),
            Action::Clear | Action::Error => {
                self.intermediates.clear();
                self.params.clear();
            },
            _ => {},
        }
        let ghost before = *events;
        if a == Action::Print {
            self.in_literal_chunk = true;
        } else if self.in_literal_chunk {
            self.in_literal_chunk = false;
            events.push(VtEvent::PrintEnd);
        }
        assert(events@ =~= before@ + run_end_events(old(self)@, a));
    }

    /// Reports the event of action `a` for scalar `c` (whose event byte is
    /// `b`), if it has one.
    fn action_event(&self, a: Action, c: char, b: u8, events: &mut VtEvents)
        requires
            self.params.wf(),
            self.intermediates.wf(),
            old(events).wf(),
            old(events)@.len() < MAX_EVENTS,
            b == event_byte(c),
        ensures
            final(events).wf(),
            final(events)@ == old(events)@ + action_events(self@, a, c),
    {
        let ghost before = *events;
        match a {
            Action::Print => events.push(VtEvent::Print(c)),
            Action::Execute => events.push(VtEvent::ExecuteCtrl(b)),
            Action::Hook => events.push(
                VtEvent::DcsStart { cmd: b, params: self.params, intermediates: self.intermediates },
            ),
            Action::Put => events.push(VtEvent::DcsChar(c)),
            Action::OscStart => events.push(VtEvent::OscStart(b)),
            Action::OscPut => events.push(VtEvent::OscChar(c)),
            Action::OscEnd => events.push(VtEvent::OscEnd(b)),
            Action::Unhook => events.push(VtEvent::DcsEnd(b)),
            Action::CsiDispatch => events.push(
                VtEvent::DispatchCsi {
                    cmd: b,
                    params: self.params,
                    intermediates: self.intermediates,
                },
            ),
            Action::EscDispatch => events.push(
                VtEvent::DispatchEsc { cmd: b, intermediates: self.intermediates },
            ),
            Action::Error => events.push(VtEvent::Error(c)),
            _ => {},
        }
        assert(events@ =~= before@ + action_events(self@, a, c));
    }

    /// Runs action `a` without a change of state.
    fn just_action(&mut self, a: Action, c: char, b: u8) -> (r: VtEvents)
        requires
            old(self).wf(),
            b == event_byte(c),
            transition(old(self).state, c) == Transition::Stay(a),
            a == Action::Print ==> old(self).state == State::Literal,
            a == Action::Param ==> (b == 0x3b || 0x30 <= b <= 0x39),
        ensures
            final(self).wf(),
            r.wf(),
            (final(self)@, r@) == step(old(self)@, c),
    {
        let mut events = VtEvents::new();
        self.action(a, c, b, &mut events);
        self.action_event(a, c, b, &mut events);
        reveal(step);
        assert(events@ =~= step(old(self)@, c).1);
        events
    }

    /// Moves to `state` through action `a`, with the exit action of the old
    /// state and the entry action of the new one.
    fn change_state(&mut self, state: State, a: Action, c: char, b: u8) -> (r: VtEvents)
        requires
            old(self).wf(),
            b == event_byte(c),
            transition(old(self).state, c) == Transition::Enter(state, a),
            a != Action::Print,
            entry_action(state) is Some ==> a == Action::Ignore,
            a == Action::Param ==> (b == 0x3b || 0x30 <= b <= 0x39),
        ensures
            final(self).wf(),
            r.wf(),
            (final(self)@, r@) == step(old(self)@, c),
    {
        let mut events = VtEvents::new();
        if let Some(x) = state_exit_action(self.state) {
            self.action_event(x, c, b, &mut events);
        }
        self.state = state;
        let entry = state_entry_action(state);
        if let Some(x) = entry {
            self.action(x, c, b, &mut events);
        }
        self.action(a, c, b, &mut events);
        self.action_event(a, c, b, &mut events);
        if let Some(x) = entry {
            self.action_event(x, c, b, &mut events);
        }
        reveal(step);
        assert(events@ =~= step(old(self)@, c).1);
        events
    }
}

} // verus!
