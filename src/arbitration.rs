//! Choosing why a running pipeline shuts down.
//!
//! On each wake-up the arbitration loop looks at four sources: the explicit
//! stop notification, the external signal channel, the stream of crash reports
//! from the topology, and whether every input has been exhausted. The explicit
//! stop always wins. Among the other three the tie-break is fixed: the external
//! signal, then a crash report, then input exhaustion. The first decision ends
//! the loop with exactly one cause, which selects the terminal protocol.
use vstd::prelude::*;

verus! {

/// What the external signal channel delivered on this wake-up.
pub enum ExternalSignal<E> {
    /// A shutdown request, with the error that prompted it, if any.
    Shutdown(Option<E>),
    /// Terminate without draining.
    Quit,
    /// The subscription fell behind and this many signals were dropped.
    Lagged(u64),
    /// Every sender of the signal channel is gone.
    Closed,
    /// A signal that does not concern shutdown (a configuration reload).
    Other,
}

/// What the topology's crash stream delivered on this wake-up.
pub enum CrashEvent<E> {
    /// A component failed with this error.
    Report(E),
    /// The crash stream ended.
    Ended,
}

/// The sources that are ready on one wake-up of the arbitration loop.
pub struct Wakeup<E> {
    /// `stop` has notified the loop.
    pub stop_requested: bool,
    /// The external signal channel, if it delivered something.
    pub signal: Option<ExternalSignal<E>>,
    /// The crash stream, if it delivered something.
    pub crash: Option<CrashEvent<E>>,
    /// The topology reports at least one configured input.
    pub has_sources: bool,
    /// The topology reports that all of its inputs have finished.
    pub sources_finished: bool,
}

/// Why a shutdown episode was started.
pub enum ShutdownCause<E> {
    /// `stop` was called.
    Explicit,
    /// The external signal channel asked to quit without draining.
    Quit,
    /// The external signal channel asked for a shutdown, or closed.
    External(Option<E>),
    /// The topology reported a crash, or its crash stream ended.
    Crash(Option<E>),
    /// Every input of the topology has been exhausted.
    Completed,
}

/// The outcome of one wake-up.
pub enum Arbitration<E> {
    /// Nothing decides yet: keep waiting.
    Wait,
    /// Nothing decides yet, and the signal subscription dropped this many
    /// signals: report it and keep waiting.
    Overflowed(u64),
    /// Shut down for this cause.
    Decided(ShutdownCause<E>),
    /// Both process-wide streams ended with nothing else ready. They never end
    /// on their own, so this is a broken invariant rather than a shutdown path.
    StreamsEnded,
}

/// How a shutdown episode ends the topology.
#[derive(PartialEq, Eq, Structural, Clone, Copy, Debug)]
pub enum TerminalProtocol {
    /// Run the topology's graceful stop, which a second external signal may
    /// cut short.
    Graceful,
    /// Terminate at once, without draining.
    Immediate,
}

/// Whether "all inputs exhausted" is ready: immediately for a topology without
/// inputs, otherwise once the topology reports that all of them finished.
pub open spec fn inputs_exhausted<E>(w: Wakeup<E>) -> bool {
    !w.has_sources || w.sources_finished
}

/// The cause an external signal decides, if it decides one.
pub open spec fn signal_cause<E>(s: ExternalSignal<E>) -> Option<ShutdownCause<E>> {
    match s {
        ExternalSignal::Shutdown(e) => Some(ShutdownCause::External(e)),
        ExternalSignal::Quit => Some(ShutdownCause::Quit),
        ExternalSignal::Closed => Some(ShutdownCause::External(None)),
        _ => None,
    }
}

/// The cause a crash event decides.
pub open spec fn crash_cause<E>(c: CrashEvent<E>) -> ShutdownCause<E> {
    match c {
        CrashEvent::Report(e) => ShutdownCause::Crash(Some(e)),
        CrashEvent::Ended => ShutdownCause::Crash(None),
    }
}

/// Both process-wide streams have ended and nothing else is ready.
pub open spec fn streams_ended_alone<E>(w: Wakeup<E>) -> bool {
    &&& !w.stop_requested
    &&& w.signal matches Some(ExternalSignal::Closed)
    &&& w.crash matches Some(CrashEvent::Ended)
    &&& !inputs_exhausted(w)
}

fn cause_of_signal<E>(s: ExternalSignal<E>) -> (r: Option<ShutdownCause<E>>)
    ensures
        r == signal_cause(s),
{
    match s {
        ExternalSignal::Shutdown(e) => Some(ShutdownCause::External(e)),
        ExternalSignal::Quit => Some(ShutdownCause::Quit),
        ExternalSignal::Closed => Some(ShutdownCause::External(None)),
        _ => None,
    }
}

/// What one wake-up decides: the explicit stop first; then the broken
/// invariant of both streams ending alone; then the external signal, a crash
/// event and input exhaustion, in that order; otherwise keep waiting, reporting
/// dropped signals.
pub open spec fn decision<E>(w: Wakeup<E>) -> Arbitration<E> {
    if w.stop_requested {
        Arbitration::Decided(ShutdownCause::Explicit)
    } else if streams_ended_alone(w) {
        Arbitration::StreamsEnded
    } else if w.signal is Some && signal_cause(w.signal->Some_0) is Some {
        Arbitration::Decided(signal_cause(w.signal->Some_0)->Some_0)
    } else if w.crash is Some {
        Arbitration::Decided(crash_cause(w.crash->Some_0))
    } else if inputs_exhausted(w) {
        Arbitration::Decided(ShutdownCause::Completed)
    } else {
        match w.signal {
            Some(ExternalSignal::Lagged(n)) => Arbitration::Overflowed(n),
            _ => Arbitration::Wait,
        }
    }
}

/// Decides what one wake-up of the arbitration loop does.
pub fn arbitrate<E>(w: Wakeup<E>) -> (r: Arbitration<E>)
    ensures
        r == decision(w),
{
    if w.stop_requested {
        return Arbitration::Decided(ShutdownCause::Explicit);
    }
    let exhausted = !w.has_sources || w.sources_finished;
    let crash_ended = match &w.crash {
        Some(CrashEvent::Ended) => true,
        _ => false,
    };
    let mut lagged: Option<u64> = None;
    match w.signal {
        Some(ExternalSignal::Closed) => {
            if crash_ended && !exhausted {
                return Arbitration::StreamsEnded;
            }
        },
        Some(ExternalSignal::Lagged(n)) => {
            lagged = Some(n);
        },
        _ => {},
    }
    match w.signal {
        Some(s) => match cause_of_signal(s) {
            Some(cause) => {
                return Arbitration::Decided(cause);
            },
            None => {},
        },
        None => {},
    }
    match w.crash {
        Some(CrashEvent::Report(e)) => Arbitration::Decided(ShutdownCause::Crash(Some(e))),
        Some(CrashEvent::Ended) => Arbitration::Decided(ShutdownCause::Crash(None)),
        None => {
            if exhausted {
                Arbitration::Decided(ShutdownCause::Completed)
            } else {
                match lagged {
                    Some(n) => Arbitration::Overflowed(n),
                    None => Arbitration::Wait,
                }
            }
        },
    }
}

/// The terminal protocol for a cause: quitting skips the graceful stop, every
/// other cause drains.
pub open spec fn protocol_for<E>(cause: ShutdownCause<E>) -> TerminalProtocol {
    if cause is Quit {
        TerminalProtocol::Immediate
    } else {
        TerminalProtocol::Graceful
    }
}

/// The terminal protocol that a shutdown for `cause` runs.
pub fn terminal_protocol<E>(cause: &ShutdownCause<E>) -> (r: TerminalProtocol)
    ensures
        r == protocol_for(*cause),
{
    match cause {
        ShutdownCause::Quit => TerminalProtocol::Immediate,
        _ => TerminalProtocol::Graceful,
    }
}

/// Whether what the signal channel delivers while the graceful stop runs cuts
/// it short: every second arrival does, a dropped-signal notice included. A
/// closed channel is no arrival, and the stop goes on.
pub fn interrupts_graceful_stop<E>(signal: &ExternalSignal<E>) -> (r: bool)
    ensures
        r == !(signal is Closed),
{
    match signal {
        ExternalSignal::Closed => false,
        _ => true,
    }
}

/// An explicit stop wins over every other source that is ready on the same
/// wake-up, whatever they are, crash reports included.
pub proof fn lemma_explicit_stop_preempts<E>(w: Wakeup<E>)
    requires
        w.stop_requested,
    ensures
        decision(w) == Arbitration::<E>::Decided(ShutdownCause::Explicit),
        protocol_for(ShutdownCause::<E>::Explicit) == TerminalProtocol::Graceful,
{
}

/// A topology without inputs never leaves the arbitration loop waiting: its
/// first wake-up decides a cause, the explicit stop when one was requested and
/// natural completion when nothing else is ready.
pub proof fn lemma_no_inputs_decides_at_once<E>(w: Wakeup<E>)
    requires
        !w.has_sources,
    ensures
        decision(w) is Decided,
        w.stop_requested ==> decision(w) == Arbitration::<E>::Decided(ShutdownCause::Explicit),
        !w.stop_requested && w.signal is None && w.crash is None ==> decision(w) == Arbitration::<E>::Decided(
            ShutdownCause::Completed,
        ),
{
}

} // verus!
