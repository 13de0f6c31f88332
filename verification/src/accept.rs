//! The accept loop of the file server and the signal that stops it.
//!
//! The loop is a state machine. Its driver performs what the current phase
//! asks for (bind, accept, look at the signal, rest) and reports what came of
//! it; the machine answers with the next phase. One delivery that was written
//! out in full fires the signal, and the loop stops when it next looks.

use vstd::prelude::*;
use crate::http::{index_name, lossy_text, ok_response, request_path, root_path};
use crate::serve::{
    endpoint_of, law_root_serves_index, plan_for_bytes, request_window, response_bytes,
    well_formed, RequestPlan, Response, StaticServer,
};

verus! {

/// The signal after a connection ended, having been `set` or not before: it
/// is set when it was, or when a successful response was written in full.
pub open spec fn recorded(set: bool, success: bool, written: bool) -> bool {
    set || (success && written)
}

/// A notification that can be fired any number of times and is then set for
/// good.
#[derive(Clone, Copy, Debug)]
pub struct ShutdownSignal {
    fired: bool,
}

impl ShutdownSignal {
    /// Whether the signal has been fired.
    pub closed spec fn view(&self) -> bool {
        self.fired
    }

    /// A signal that has not been fired.
    pub fn new() -> (r: ShutdownSignal)
        ensures
            !r@,
    {
        ShutdownSignal { fired: false }
    }

    /// Fires the signal. Firing a signal that is already set changes nothing.
    pub fn fire(&mut self)
        ensures
            final(self)@ == recorded(old(self)@, true, true),
    {
        self.fired = true;
    }

    /// Notes how a connection ended: the signal fires when a successful
    /// response was written out in full, and is otherwise left as it was.
    pub fn record(&mut self, success: bool, written: bool)
        ensures
            final(self)@ == recorded(old(self)@, success, written),
    {
        if success && written {
            self.fired = true;
        }
    }

    /// Whether the signal has been fired.
    pub fn is_fired(&self) -> (r: bool)
        ensures
            r == self@,
    {
        self.fired
    }
}

/// Which step of the loop failed.
#[derive(Clone, Copy, Debug, PartialEq, Eq, Structural)]
pub enum ServeFailure {
    /// The listener could not be bound.
    Bind,
    /// The listener could not be made non-blocking.
    Nonblocking,
    /// Accepting a connection failed for a reason other than none waiting.
    Accept,
}

/// Where the accept loop stands.
#[derive(Clone, Copy, Debug, PartialEq, Eq, Structural)]
pub enum ServePhase {
    /// The listener is yet to be bound.
    Binding,
    /// The next thing to do is to try to accept a connection.
    Accepting,
    /// The next thing to do is to look at the signal; `idle` tells that the
    /// accept before it found no connection waiting.
    Polling { idle: bool },
    /// The next thing to do is to rest for `POLL_INTERVAL_MS`.
    Resting,
    /// The signal was seen: the loop has ended in success.
    Stopped,
    /// The loop has ended in failure.
    Failed { failure: ServeFailure },
}

/// What the driver reports.
#[derive(Clone, Copy, Debug, PartialEq, Eq, Structural)]
pub enum ServeEvent {
    /// The listener is bound and non-blocking.
    Bound,
    /// Binding failed.
    BindFailed,
    /// Making the listener non-blocking failed.
    NonblockingFailed,
    /// A connection was accepted and handed to a handler.
    Accepted,
    /// No connection was waiting.
    WouldBlock,
    /// Accepting failed.
    AcceptFailed,
    /// The signal was found set.
    SignalSeen,
    /// The signal was found not set.
    SignalClear,
    /// The rest is over.
    Rested,
}

/// What the driver is to do next.
#[derive(Clone, Copy, Debug, PartialEq, Eq, Structural)]
pub enum ServeAction {
    /// Bind the listener and make it non-blocking.
    Bind,
    /// Try once to accept a connection, without blocking.
    Accept,
    /// Look whether the signal is set.
    Poll,
    /// Rest for `POLL_INTERVAL_MS`.
    Rest,
    /// Return success to the caller.
    Finish,
    /// Return the failure to the caller.
    Fail { failure: ServeFailure },
}

/// The phase that follows `phase` on `event`. An event that the phase does
/// not wait for leaves it as it is; the two final phases are left by nothing.
pub open spec fn next_phase(phase: ServePhase, event: ServeEvent) -> ServePhase {
    match (phase, event) {
        (ServePhase::Binding, ServeEvent::Bound) => ServePhase::Accepting,
        (ServePhase::Binding, ServeEvent::BindFailed) => ServePhase::Failed {
            failure: ServeFailure::Bind,
        },
        (ServePhase::Binding, ServeEvent::NonblockingFailed) => ServePhase::Failed {
            failure: ServeFailure::Nonblocking,
        },
        (ServePhase::Accepting, ServeEvent::Accepted) => ServePhase::Polling { idle: false },
        (ServePhase::Accepting, ServeEvent::WouldBlock) => ServePhase::Polling { idle: true },
        (ServePhase::Accepting, ServeEvent::AcceptFailed) => ServePhase::Failed {
            failure: ServeFailure::Accept,
        },
        (ServePhase::Polling { idle }, ServeEvent::SignalSeen) => ServePhase::Stopped,
        (ServePhase::Polling { idle }, ServeEvent::SignalClear) => if idle {
            ServePhase::Resting
        } else {
            ServePhase::Accepting
        },
        (ServePhase::Resting, ServeEvent::Rested) => ServePhase::Accepting,
        _ => phase,
    }
}

/// What a phase asks of the driver.
pub open spec fn action_of(phase: ServePhase) -> ServeAction {
    match phase {
        ServePhase::Binding => ServeAction::Bind,
        ServePhase::Accepting => ServeAction::Accept,
        ServePhase::Polling { idle } => ServeAction::Poll,
        ServePhase::Resting => ServeAction::Rest,
        ServePhase::Stopped => ServeAction::Finish,
        ServePhase::Failed { failure } => ServeAction::Fail { failure },
    }
}

/// What the driver reports after looking at a signal.
pub open spec fn poll_event(fired: bool) -> ServeEvent {
    if fired {
        ServeEvent::SignalSeen
    } else {
        ServeEvent::SignalClear
    }
}

/// The state of one run of the accept loop.
#[derive(Debug)]
pub struct ServeLoop {
    endpoint: String,
    phase: ServePhase,
}

impl ServeLoop {
    /// The phase the loop is in.
    pub closed spec fn phase(&self) -> ServePhase {
        self.phase
    }

    /// The text the listener binds to.
    pub closed spec fn endpoint_text(&self) -> Seq<char> {
        self.endpoint@
    }

    /// The text the listener binds to.
    pub fn endpoint(&self) -> (r: &str)
        ensures
            r@ == self.endpoint_text(),
    {
        self.endpoint.as_str()
    }

    /// The phase the loop is in.
    pub fn current(&self) -> (r: ServePhase)
        ensures
            r == self.phase(),
    {
        self.phase
    }

    /// What the driver is to do next.
    pub fn action(&self) -> (r: ServeAction)
        ensures
            r == action_of(self.phase()),
    {
        match self.phase {
            ServePhase::Binding => ServeAction::Bind,
            ServePhase::Accepting => ServeAction::Accept,
            ServePhase::Polling { idle } => ServeAction::Poll,
            ServePhase::Resting => ServeAction::Rest,
            ServePhase::Stopped => ServeAction::Finish,
            ServePhase::Failed { failure } => ServeAction::Fail { failure },
        }
    }

    /// Takes in what the driver reports and says what to do next.
    pub fn step(&mut self, event: ServeEvent) -> (r: ServeAction)
        ensures
            final(self).phase() == next_phase(old(self).phase(), event),
            final(self).endpoint_text() == old(self).endpoint_text(),
            r == action_of(final(self).phase()),
    {
        let next = match self.phase {
            ServePhase::Binding => match event {
                ServeEvent::Bound => ServePhase::Accepting,
                ServeEvent::BindFailed => ServePhase::Failed { failure: ServeFailure::Bind },
                ServeEvent::NonblockingFailed => ServePhase::Failed {
                    failure: ServeFailure::Nonblocking,
                },
                _ => self.phase,
            },
            ServePhase::Accepting => match event {
                ServeEvent::Accepted => ServePhase::Polling { idle: false },
                ServeEvent::WouldBlock => ServePhase::Polling { idle: true },
                ServeEvent::AcceptFailed => ServePhase::Failed { failure: ServeFailure::Accept },
                _ => self.phase,
            },
            ServePhase::Polling { idle } => match event {
                ServeEvent::SignalSeen => ServePhase::Stopped,
                ServeEvent::SignalClear => if idle {
                    ServePhase::Resting
                } else {
                    ServePhase::Accepting
                },
                _ => self.phase,
            },
            ServePhase::Resting => match event {
                ServeEvent::Rested => ServePhase::Accepting,
                _ => self.phase,
            },
            ServePhase::Stopped => self.phase,
            ServePhase::Failed { failure } => self.phase,
        };
        self.phase = next;
        self.action()
    }

    /// Reports what looking at `signal` found.
    pub fn poll(&mut self, signal: &ShutdownSignal) -> (r: ServeAction)
        ensures
            final(self).phase() == next_phase(old(self).phase(), poll_event(signal@)),
            final(self).endpoint_text() == old(self).endpoint_text(),
            r == action_of(final(self).phase()),
    {
        if signal.is_fired() {
            self.step(ServeEvent::SignalSeen)
        } else {
            self.step(ServeEvent::SignalClear)
        }
    }
}

impl StaticServer {
    /// Starts a run of the accept loop: nothing is bound yet, and the first
    /// thing asked of the driver is to bind `host:port`.
    pub fn serve(&self) -> (r: ServeLoop)
        ensures
            r.phase() == ServePhase::Binding,
            r.endpoint_text() == endpoint_of(self@.host, self@.port),
    {
        ServeLoop { endpoint: self.endpoint(), phase: ServePhase::Binding }
    }
}

/// Notes on `signal` how a connection ended: it fires when `response` is a
/// delivery and was written out in full.
pub fn conclude(signal: &mut ShutdownSignal, response: &Response, written: bool)
    ensures
        final(signal)@ == recorded(old(signal)@, response.success, written),
{
    signal.record(response.success, written);
}

/// One connection as the loop's driver sees it when connections are handled
/// one at a time: what was read from it, what reading the planned file gave,
/// and whether the response could be written out in full.
pub ghost struct Exchange {
    pub received: Seq<u8>,
    pub contents: Option<Seq<u8>>,
    pub written: bool,
}

/// Whether an exchange ends in a delivery that fires the signal.
pub open spec fn exchange_served(files: Seq<(Seq<char>, Seq<char>)>, x: Exchange) -> bool {
    plan_for_bytes(files, x.received) is Deliver && x.contents is Some && x.written
}

/// What is written back in an exchange: nothing where nothing was read, the
/// not-found response where the path names no entry, and else the response
/// that reading the entry's file leads to.
pub open spec fn exchange_reply(files: Seq<(Seq<char>, Seq<char>)>, x: Exchange) -> Option<
    Seq<u8>,
> {
    match plan_for_bytes(files, x.received) {
        RequestPlan::Ignore => None,
        RequestPlan::NotFound => Some(response_bytes(None)),
        RequestPlan::Deliver { entry } => Some(response_bytes(x.contents)),
    }
}

/// How many of the waiting connections a loop in `phase` accepts when each
/// one is handled to its end before the loop looks at the signal.
pub open spec fn accepted_count(
    files: Seq<(Seq<char>, Seq<char>)>,
    waiting: Seq<Exchange>,
    phase: ServePhase,
    fired: bool,
) -> nat
    decreases waiting.len(),
{
    if waiting.len() == 0 || action_of(phase) != ServeAction::Accept {
        0
    } else {
        let polling = next_phase(phase, ServeEvent::Accepted);
        let fired_now = fired || exchange_served(files, waiting[0]);
        let after = next_phase(polling, poll_event(fired_now));
        1 + accepted_count(files, waiting.drop_first(), after, fired_now)
    }
}

/// The phase in which that loop is left once it has accepted what it accepts
/// of the waiting connections.
pub open spec fn phase_after_all(
    files: Seq<(Seq<char>, Seq<char>)>,
    waiting: Seq<Exchange>,
    phase: ServePhase,
    fired: bool,
) -> ServePhase
    decreases waiting.len(),
{
    if waiting.len() == 0 || action_of(phase) != ServeAction::Accept {
        phase
    } else {
        let polling = next_phase(phase, ServeEvent::Accepted);
        let fired_now = fired || exchange_served(files, waiting[0]);
        let after = next_phase(polling, poll_event(fired_now));
        phase_after_all(files, waiting.drop_first(), after, fired_now)
    }
}

/// A connection that asks for the root path of a well-formed mapping is
/// answered with the file of the entry named `index` where there is such an
/// entry and its file could be read, and with the not-found response
/// otherwise.
pub proof fn law_root_request_is_answered(files: Seq<(Seq<char>, Seq<char>)>, x: Exchange)
    requires
        well_formed(files),
        files.len() <= usize::MAX,
        x.received.len() > 0,
        request_path(lossy_text(request_window(x.received))) == root_path(),
    ensures
        exchange_reply(files, x) == Some(
            if x.contents is Some && exists|i: int|
                0 <= i < files.len() && (#[trigger] files[i]).0 == index_name() {
                ok_response(x.contents->0)
            } else {
                response_bytes(None)
            },
        ),
{
    law_root_serves_index(files, lossy_text(request_window(x.received)));
}

/// Accepting and looking at the signal take turns, so neither keeps the
/// other waiting: whatever an accept comes to, short of failing, the signal
/// is looked at next; and when the signal is not set, the next accept
/// follows at once after a connection and after one rest otherwise.
pub proof fn law_accept_and_poll_alternate(idle: bool)
    ensures
        action_of(next_phase(ServePhase::Accepting, ServeEvent::Accepted)) == ServeAction::Poll,
        action_of(next_phase(ServePhase::Accepting, ServeEvent::WouldBlock)) == ServeAction::Poll,
        action_of(next_phase(ServePhase::Polling { idle: false }, ServeEvent::SignalClear))
            == ServeAction::Accept,
        action_of(next_phase(ServePhase::Polling { idle: true }, ServeEvent::SignalClear))
            == ServeAction::Rest,
        action_of(next_phase(ServePhase::Resting, ServeEvent::Rested)) == ServeAction::Accept,
        action_of(next_phase(ServePhase::Polling { idle }, ServeEvent::SignalSeen))
            == ServeAction::Finish,
{
}

/// The phase after a run of reports.
pub open spec fn phase_run(phase: ServePhase, events: Seq<ServeEvent>) -> ServePhase
    decreases events.len(),
{
    if events.len() == 0 {
        phase
    } else {
        next_phase(phase_run(phase, events.drop_last()), events.last())
    }
}

/// How many connections are accepted along a run of reports: how often a
/// loop that was accepting is told of a connection.
pub open spec fn accepts_along(phase: ServePhase, events: Seq<ServeEvent>) -> nat
    decreases events.len(),
{
    if events.len() == 0 {
        0
    } else {
        let earlier = accepts_along(phase, events.drop_last());
        if phase_run(phase, events.drop_last()) == ServePhase::Accepting && events.last()
            == ServeEvent::Accepted {
            earlier + 1
        } else {
            earlier
        }
    }
}

/// However connections are handled, once the signal is set the loop accepts
/// one more connection at most: whatever is reported to it from then on,
/// with every look at the signal finding it set, it is told of one
/// connection at most and stops at its next look. A loop that was about to
/// look at the signal accepts none.
pub proof fn law_one_accept_after_the_signal(phase: ServePhase, events: Seq<ServeEvent>)
    requires
        forall|i: int| 0 <= i < events.len() ==> #[trigger] events[i] != ServeEvent::SignalClear,
    ensures
        accepts_along(phase, events) <= 1,
        phase is Polling || phase is Stopped || phase is Failed ==> accepts_along(phase, events)
            == 0,
        accepts_along(phase, events) == 1 ==> phase_run(phase, events) is Polling || phase_run(
            phase,
            events,
        ) is Stopped,
        phase is Polling ==> phase_run(phase, events) is Polling || phase_run(phase, events)
            is Stopped,
        phase is Stopped || phase is Failed ==> phase_run(phase, events) == phase,
    decreases events.len(),
{
    if events.len() > 0 {
        let earlier = events.drop_last();
        assert forall|i: int| 0 <= i < earlier.len() implies #[trigger] earlier[i]
            != ServeEvent::SignalClear by {
            assert(earlier[i] == events[i]);
        }
        law_one_accept_after_the_signal(phase, earlier);
        assert(events.last() == events[events.len() - 1]);
    }
}

/// Once the loop has stopped or failed, no event makes it accept again.
pub proof fn law_final_phases_absorb(phase: ServePhase, event: ServeEvent)
    requires
        phase is Stopped || phase is Failed,
    ensures
        next_phase(phase, event) == phase,
        action_of(next_phase(phase, event)) != ServeAction::Accept,
{
}

/// Firing the signal twice is firing it once: the signal is set after the
/// first firing and the second changes nothing, a loop that looks at it
/// stops as it would after one firing, and a loop that has stopped is not
/// moved by being told of the signal again.
pub proof fn law_signal_is_idempotent(phase: ServePhase, set: bool)
    ensures
        recorded(set, true, true),
        recorded(recorded(set, true, true), true, true) == recorded(set, true, true),
        next_phase(phase, poll_event(recorded(recorded(set, true, true), true, true)))
            == next_phase(phase, poll_event(recorded(set, true, true))),
        phase is Polling ==> next_phase(phase, poll_event(recorded(set, true, true)))
            == ServePhase::Stopped,
        next_phase(next_phase(phase, ServeEvent::SignalSeen), ServeEvent::SignalSeen)
            == next_phase(phase, ServeEvent::SignalSeen),
{
}

/// With connections handled one at a time, a loop that is accepting and
/// whose signal is not set accepts every waiting connection up to and
/// including the first that ends in a delivery, and none after it. So at most
/// one delivery is ever made, and it is a success response; every connection
/// accepted before it that sent anything is answered, with the not-found
/// response or with a success response that could not be written out; and
/// none is accepted once the delivery is complete. The loop ends stopped
/// exactly when there was a delivery, and is still accepting otherwise.
pub proof fn law_single_delivery(files: Seq<(Seq<char>, Seq<char>)>, waiting: Seq<Exchange>)
    ensures
        ({
            let n = accepted_count(files, waiting, ServePhase::Accepting, false);
            &&& n <= waiting.len()
            &&& forall|i: int| 0 <= i < n - 1 ==> !exchange_served(files, #[trigger] waiting[i])
            &&& n < waiting.len() ==> n >= 1 && exchange_served(files, waiting[n - 1])
            &&& phase_after_all(files, waiting, ServePhase::Accepting, false) == (if n >= 1
                && exchange_served(files, waiting[n - 1]) {
                ServePhase::Stopped
            } else {
                ServePhase::Accepting
            })
            &&& forall|i: int|
                0 <= i < n && (#[trigger] waiting[i]).received.len() > 0 ==> exchange_reply(
                    files,
                    waiting[i],
                ) is Some
            &&& forall|i: int|
                0 <= i < n && exchange_served(files, #[trigger] waiting[i]) ==> exchange_reply(
                    files,
                    waiting[i],
                ) == Some(ok_response(waiting[i].contents->0))
        }),
    decreases waiting.len(),
{
    if waiting.len() > 0 {
        let rest = waiting.drop_first();
        if exchange_served(files, waiting[0]) {
            assert(accepted_count(files, rest, ServePhase::Stopped, true) == 0);
            assert(phase_after_all(files, rest, ServePhase::Stopped, true) == ServePhase::Stopped);
        } else {
            law_single_delivery(files, rest);
            let m = accepted_count(files, rest, ServePhase::Accepting, false);
            assert forall|i: int| 0 <= i < m + 1 - 1 implies !exchange_served(
                files,
                #[trigger] waiting[i],
            ) by {
                if i > 0 {
                    assert(waiting[i] == rest[i - 1]);
                }
            }
            if m < rest.len() {
                assert(waiting[m as int] == rest[m - 1]);
            }
        }
    }
}

} // verus!
