//! The process-scoped destination of summary events. It is configured once;
//! events it accepts wait in it until the host writes them out.

use vstd::prelude::*;
use crate::span::SummaryEvent;

verus! {

#[derive(Clone, Copy, Debug, PartialEq, Eq, Structural)]
pub enum Severity {
    Info,
    Error,
}

#[derive(Clone, Copy, Debug, PartialEq, Eq, Structural)]
pub enum Destination {
    /// Events are written to the output stream.
    Stream,
    /// Events are dropped, for silent runs.
    Discard,
}

#[derive(Clone, Copy, Debug, PartialEq, Eq, Structural)]
pub enum SinkMisuse {
    AlreadyInitialized,
}

/// The abstract state of a sink.
pub struct SinkState {
    pub initialized: bool,
    pub min_severity: Severity,
    pub destination: Destination,
    pub pending: Seq<SummaryEvent>,
}

pub open spec fn severity_rank(s: Severity) -> int {
    match s {
        Severity::Info => 0,
        Severity::Error => 1,
    }
}

/// Whether a sink in state `s` keeps an event of severity `sev`.
pub open spec fn accepts(s: SinkState, sev: Severity) -> bool {
    s.initialized && s.destination == Destination::Stream && severity_rank(sev) >= severity_rank(
        s.min_severity,
    )
}

pub struct ObservabilitySink {
    initialized: bool,
    min_severity: Severity,
    destination: Destination,
    pending: Vec<SummaryEvent>,
}

impl View for ObservabilitySink {
    type V = SinkState;

    closed spec fn view(&self) -> SinkState {
        SinkState {
            initialized: self.initialized,
            min_severity: self.min_severity,
            destination: self.destination,
            pending: self.pending@,
        }
    }
}

impl ObservabilitySink {
    /// A sink not yet configured: it drops every event.
    pub fn new() -> (r: Self)
        ensures
            !r@.initialized,
            r@.pending.len() == 0,
    {
        ObservabilitySink {
            initialized: false,
            min_severity: Severity::Info,
            destination: Destination::Discard,
            pending: Vec::new(),
        }
    }

    /// Configures the sink. Only the first call takes effect; a later one is
    /// reported and changes nothing.
    pub fn init(&mut self, min_severity: Severity, destination: Destination) -> (r: Result<(), SinkMisuse>)
        ensures
            old(self)@.initialized ==> r == Err::<(), SinkMisuse>(SinkMisuse::AlreadyInitialized)
                && final(self)@ == old(self)@,
            !old(self)@.initialized ==> r is Ok && final(self)@ == (SinkState {
                initialized: true,
                min_severity,
                destination,
                pending: old(self)@.pending,
            }),
    {
        if self.initialized {
            Err(SinkMisuse::AlreadyInitialized)
        } else {
            self.initialized = true;
            self.min_severity = min_severity;
            self.destination = destination;
            Ok(())
        }
    }

    pub fn is_initialized(&self) -> (r: bool)
        ensures
            r == self@.initialized,
    {
        self.initialized
    }

    /// Hands an event to the sink; returns whether it was kept.
    pub fn emit(&mut self, event: SummaryEvent) -> (r: bool)
        ensures
            r == accepts(old(self)@, event.severity),
            final(self)@ == (SinkState {
                pending: if r { old(self)@.pending.push(event) } else { old(self)@.pending },
                ..old(self)@
            }),
    {
        let keep = self.initialized && match self.destination {
            Destination::Stream => true,
            Destination::Discard => false,
        } && match (event.severity, self.min_severity) {
            (Severity::Info, Severity::Error) => false,
            _ => true,
        };
        if keep {
            self.pending.push(event);
        }
        keep
    }

    /// Takes out the events kept so far, oldest first.
    pub fn drain(&mut self) -> (r: Vec<SummaryEvent>)
        ensures
            r@ == old(self)@.pending,
            final(self)@ == (SinkState { pending: Seq::empty(), ..old(self)@ }),
    {
        let mut out: Vec<SummaryEvent> = Vec::new();
        std::mem::swap(&mut out, &mut self.pending);
        out
    }
}

} // verus!
