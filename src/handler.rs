//! The callback surface: a handler with one method per kind of event.
use vstd::prelude::*;
use crate::event::{VtEvent, VtEvents};
use crate::intermediates::VtIntermediates;
use crate::machine::{step, view_wf, VtMachine};
use crate::params::VtParams;

verus! {

/// Implementations that process the events of a [`VtMachine`] through one
/// method per kind of event.
///
/// All of the provided methods do nothing.
pub trait VtHandler {
    /// Emits a character at the current cursor position.
    fn print(&mut self, c: char) {
    }

    /// Marks the end of a run of [`VtHandler::print`] calls, before any
    /// other call.
    fn print_end(&mut self) {
    }

    /// Executes an individual C0 or C1 control character.
    fn execute_ctrl(&mut self, c: u8) {
    }

    /// Executes a control sequence that began with the control sequence
    /// introducer and ended with `cmd`.
    fn dispatch_csi(&mut self, cmd: u8, params: &VtParams, intermediates: &VtIntermediates) {
    }

    /// Executes an escape sequence that ended with `cmd`.
    fn dispatch_esc(&mut self, cmd: u8, intermediates: &VtIntermediates) {
    }

    /// Handles a character that is not valid in the machine's current state.
    fn error(&mut self, c: char) {
    }

    /// Handles the beginning of a device control string; zero or more calls
    /// to [`VtHandler::dcs_char`] and then one to [`VtHandler::dcs_end`]
    /// follow.
    fn dcs_start(&mut self, cmd: u8, params: &VtParams, intermediates: &VtIntermediates) {
    }

    /// Handles a character of the data of a device control string.
    fn dcs_char(&mut self, c: char) {
    }

    /// Handles the end of a device control string.
    fn dcs_end(&mut self, c: u8) {
    }

    /// Handles the beginning of an operating system command; zero or more
    /// calls to [`VtHandler::osc_char`] and then one to
    /// [`VtHandler::osc_end`] follow.
    fn osc_start(&mut self, c: u8) {
    }

    /// Handles a character of an operating system command.
    fn osc_char(&mut self, c: char) {
    }

    /// Handles the end of an operating system command.
    fn osc_end(&mut self, c: u8) {
    }
}

/// Calls the method of `handler` that matches `event`.
fn handle_event<H: VtHandler>(event: &VtEvent, handler: &mut H) {
    match event {
        VtEvent::Print(c) => handler.print(*c),
        VtEvent::PrintEnd => handler.print_end(),
        VtEvent::ExecuteCtrl(b) => handler.execute_ctrl(*b),
        VtEvent::DispatchCsi { cmd, params, intermediates } => handler.dispatch_csi(
            *cmd,
            params,
            intermediates,
        ),
        VtEvent::DispatchEsc { cmd, intermediates } => handler.dispatch_esc(*cmd, intermediates),
        VtEvent::DcsStart { cmd, params, intermediates } => handler.dcs_start(
            *cmd,
            params,
            intermediates,
        ),
        VtEvent::DcsChar(c) => handler.dcs_char(*c),
        VtEvent::DcsEnd(b) => handler.dcs_end(*b),
        VtEvent::OscStart(b) => handler.osc_start(*b),
        VtEvent::OscChar(c) => handler.osc_char(*c),
        VtEvent::OscEnd(b) => handler.osc_end(*b),
        VtEvent::Error(c) => handler.error(*c),
    }
}

impl VtEvents {
    /// Delivers the events to `handler`, in order.
    pub fn dispatch<H: VtHandler>(&self, handler: &mut H)
        requires
            self.wf(),
    {
        let evs = self.as_slice();
        let n = self.len();
        let mut i: usize = 0;
        while i < n
            invariant
                n == evs@.len(),
                i <= n,
            decreases n - i,
        {
            handle_event(&evs[i], handler);
            i = i + 1;
        }
    }
}

impl VtMachine {
    /// Consumes a single Unicode scalar value and delivers the events that it
    /// causes to `handler`, in order.
    pub fn write_char_to<H: VtHandler>(&mut self, c: char, handler: &mut H)
        requires
            old(self).wf(),
        ensures
            final(self).wf(),
            view_wf(final(self)@),
            final(self)@ == step(old(self)@, c).0,
    {
        let events = self.write_char(c);
        events.dispatch(handler);
    }

    /// Tells the machine that no more input is expected, delivering the
    /// final events to `handler`.
    pub fn write_end_to<H: VtHandler>(&mut self, handler: &mut H)
        requires
            old(self).wf(),
        ensures
            final(self).wf(),
            final(self)@ == crate::machine::initial_view(),
    {
        let events = self.write_end();
        events.dispatch(handler);
    }
}

} // verus!
