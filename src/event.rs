//! The events that the machine reports.
use vstd::prelude::*;
use crate::intermediates::{IntermediatesView, VtIntermediates};
use crate::params::VtParams;

verus! {

/// An event from [`crate::VtMachine`].
///
/// Events that carry parameters or intermediates hold copies of the
/// machine's buffers as they were when the event was dispatched.
#[non_exhaustive]
#[derive(Clone, Copy, PartialEq, Eq, Debug)]
pub enum VtEvent {
    /// Print a literal character at the current cursor position.
    Print(char),
    /// Emitted at the end of a series of consecutive [`VtEvent::Print`]
    /// events before any other event, so that a terminal that segments
    /// grapheme clusters can treat it as the end of the text.
    PrintEnd,
    /// Execute an appropriate action for the given control character.
    ExecuteCtrl(u8),
    /// Execute a control sequence that began with the control sequence
    /// introducer and ended with `cmd`.
    DispatchCsi { cmd: u8, params: VtParams, intermediates: VtIntermediates },
    /// Execute an escape sequence that ended with `cmd`.
    DispatchEsc { cmd: u8, intermediates: VtIntermediates },
    /// The beginning of a device control string; zero or more
    /// [`VtEvent::DcsChar`] and then one [`VtEvent::DcsEnd`] follow.
    DcsStart { cmd: u8, params: VtParams, intermediates: VtIntermediates },
    /// A character of the data of a device control string.
    DcsChar(char),
    /// The end of a device control string, with the byte that ended it.
    DcsEnd(u8),
    /// The beginning of an operating system command; zero or more
    /// [`VtEvent::OscChar`] and then one [`VtEvent::OscEnd`] follow.
    OscStart(u8),
    /// A character of an operating system command.
    OscChar(char),
    /// The end of an operating system command, with the byte that ended it.
    OscEnd(u8),
    /// A character that is not expected in the machine's current state.
    Error(char),
}

impl VtEvent {
    /// The buffers that the event carries are well formed.
    pub open spec fn wf(&self) -> bool {
        match *self {
            VtEvent::DispatchCsi { params, intermediates, .. } => params.wf() && intermediates.wf(),
            VtEvent::DcsStart { params, intermediates, .. } => params.wf() && intermediates.wf(),
            VtEvent::DispatchEsc { intermediates, .. } => intermediates.wf(),
            _ => true,
        }
    }
}

/// The mathematical form of a [`VtEvent`]: buffers are given by their
/// contents.
pub enum EventView {
    Print(char),
    PrintEnd,
    ExecuteCtrl(u8),
    DispatchCsi { cmd: u8, params: Seq<u16>, intermediates: IntermediatesView },
    DispatchEsc { cmd: u8, intermediates: IntermediatesView },
    DcsStart { cmd: u8, params: Seq<u16>, intermediates: IntermediatesView },
    DcsChar(char),
    DcsEnd(u8),
    OscStart(u8),
    OscChar(char),
    OscEnd(u8),
    Error(char),
}

impl View for VtEvent {
    type V = EventView;

    open spec fn view(&self) -> EventView {
        match *self {
            VtEvent::Print(c) => EventView::Print(c),
            VtEvent::PrintEnd => EventView::PrintEnd,
            VtEvent::ExecuteCtrl(b) => EventView::ExecuteCtrl(b),
            VtEvent::DispatchCsi { cmd, params, intermediates } => EventView::DispatchCsi {
                cmd,
                params: params@,
                intermediates: intermediates@,
            },
            VtEvent::DispatchEsc { cmd, intermediates } => EventView::DispatchEsc {
                cmd,
                intermediates: intermediates@,
            },
            VtEvent::DcsStart { cmd, params, intermediates } => EventView::DcsStart {
                cmd,
                params: params@,
                intermediates: intermediates@,
            },
            VtEvent::DcsChar(c) => EventView::DcsChar(c),
            VtEvent::DcsEnd(b) => EventView::DcsEnd(b),
            VtEvent::OscStart(b) => EventView::OscStart(b),
            VtEvent::OscChar(c) => EventView::OscChar(c),
            VtEvent::OscEnd(b) => EventView::OscEnd(b),
            VtEvent::Error(c) => EventView::Error(c),
        }
    }
}

/// The number of events that one scalar can cause at most: an exit event,
/// two print-run ends, a main event and an entry event.
pub const MAX_EVENTS: usize = 5;

/// The events caused by one scalar, in order, held without allocation.
pub struct VtEvents {
    buf: [VtEvent; 5],
    len: usize,
}

impl View for VtEvents {
    type V = Seq<EventView>;

    open spec fn view(&self) -> Seq<EventView> {
        self.items().map_values(|e: VtEvent| e@)
    }
}

impl VtEvents {
    /// The events held, in order.
    pub closed spec fn items(&self) -> Seq<VtEvent> {
        self.buf@.subrange(0, self.len as int)
    }

    pub closed spec fn wf(&self) -> bool {
        &&& self.len <= MAX_EVENTS
        &&& forall|i: int| 0 <= i < self.len ==> (#[trigger] self.buf@[i]).wf()
    }

    /// An empty sequence of events.
    pub fn new() -> (r: Self)
        ensures
            r.wf(),
            r.items() == Seq::<VtEvent>::empty(),
            r@ == Seq::<EventView>::empty(),
    {
        let r = VtEvents { buf: [VtEvent::PrintEnd; 5], len: 0 };
        assert(r.items() =~= Seq::<VtEvent>::empty());
        assert(r@ =~= Seq::<EventView>::empty());
        r
    }

    /// Appends an event.
    pub fn push(&mut self, e: VtEvent)
        requires
            old(self).wf(),
            old(self).items().len() < MAX_EVENTS,
            e.wf(),
        ensures
            final(self).wf(),
            final(self).items() == old(self).items().push(e),
            final(self)@ == old(self)@.push(e@),
    {
        let i = self.len;
        self.buf[i] = e;
        self.len = i + 1;
        assert(self.items() =~= old(self).items().push(e));
        assert(self@ =~= old(self)@.push(e@));
    }

    /// Returns the number of events.
    pub fn len(&self) -> (r: usize)
        requires
            self.wf(),
        ensures
            r == self.items().len(),
    {
        self.len
    }

    /// Returns true if there are no events.
    pub fn is_empty(&self) -> (r: bool)
        requires
            self.wf(),
        ensures
            r == (self.items().len() == 0),
    {
        self.len == 0
    }

    /// Returns the event at `i`, if there is one.
    pub fn get(&self, i: usize) -> (r: Option<VtEvent>)
        requires
            self.wf(),
        ensures
            r == (if i < self.items().len() { Some(self.items()[i as int]) } else { None }),
            r matches Some(e) ==> e.wf(),
    {
        if i < self.len {
            Some(self.buf[i])
        } else {
            None
        }
    }

    /// Returns the events as a slice, in order.
    pub fn as_slice(&self) -> (r: &[VtEvent])
        requires
            self.wf(),
        ensures
            r@ == self.items(),
            forall|i: int| 0 <= i < r@.len() ==> (#[trigger] r@[i]).wf(),
    {
        vstd::slice::slice_subrange(self.buf.as_slice(), 0, self.len)
    }
}

} // verus!
