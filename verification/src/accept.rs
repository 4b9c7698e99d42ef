//! The connection acceptor: from an accepted transport to a running
//! protocol session, with a bounded handshake time.
//!
//! The handshake, the optional deadline timer, the handler factory and the
//! dispatcher loop are all asynchronous work of the layers around this
//! crate.  What this module holds is the acceptor's decisions: a state
//! machine consumed one outcome at a time, answering with the single next
//! action.  A handshake error rejects the connection with that error; a
//! deadline firing first closes it silently with success, so a slow client
//! cannot poison the error channel; a handler construction failure is the
//! connection's error and the dispatcher is never started; the dispatcher's
//! own result is the connection's result, unchanged.

use vstd::prelude::*;

use crate::router::SlotPoll;

verus! {

/// A whole number of seconds, as keepalive and disconnect timeouts are
/// configured.
#[derive(Clone, Copy, Debug, PartialEq, Eq, Structural)]
pub struct Seconds(pub u16);

/// What a successful handshake hands over: the validated stream, the
/// negotiated codec, the session state, and the keepalive interval.  It is
/// consumed whole; the acceptor retains nothing of it after handoff.
pub struct HandshakeOutcome<Io, Codec, St> {
    pub io: Io,
    pub codec: Codec,
    pub session: St,
    pub keepalive: Seconds,
}

/// Everything a dispatcher run is configured with: stream, codec, the
/// constructed handler, the negotiated keepalive as its idle-read timeout,
/// and the acceptor's disconnect grace period.
pub struct DispatcherStart<Io, Codec, H> {
    pub io: Io,
    pub codec: Codec,
    pub handler: H,
    pub keepalive_timeout: Seconds,
    pub disconnect_timeout: Seconds,
}

/// One asynchronous outcome reported to the acceptor by its driver.
pub enum AcceptEvent<Io, Codec, St, H, E> {
    /// The handshake resolved, before any deadline fired.
    HandshakeDone(Result<HandshakeOutcome<Io, Codec, St>, E>),
    /// The deadline fired before the handshake resolved.
    DeadlineReached,
    /// The per-connection handler factory resolved.
    HandlerReady(Result<H, E>),
    /// The dispatcher loop ended.
    DispatcherDone(Result<(), E>),
}

/// The single action the acceptor asks its driver to perform next.
pub enum AcceptAction<Io, Codec, St, H, E> {
    /// Invoke the handler factory on the negotiated session state.
    BuildHandler(St),
    /// Start the dispatcher loop with this configuration.
    RunDispatcher(DispatcherStart<Io, Codec, H>),
    /// The connection is over; this is its result.
    Complete(Result<(), E>),
}

/// Where one accept run stands.
pub enum AcceptPhase<Io, Codec> {
    /// Awaiting the handshake (and, if configured, the deadline).
    AwaitingHandshake,
    /// Handshake done; awaiting the handler factory.  The stream, codec and
    /// keepalive are parked here until handoff.
    AwaitingHandler { io: Io, codec: Codec, keepalive: Seconds },
    /// Handler built and handed off; awaiting the dispatcher loop.
    Dispatching,
    /// Completed; no further event is accepted.
    Finished,
}

/// One connection's accept run: the per-connection state machine created by
/// `MqttHandler::call`.
pub struct AcceptFut<Io, Codec> {
    pub has_deadline: bool,
    pub disconnect_timeout: Seconds,
    pub phase: AcceptPhase<Io, Codec>,
}

impl<Io, Codec> AcceptFut<Io, Codec> {
    /// Which events can occur where the run stands: handshake and deadline
    /// outcomes only while awaiting the handshake — and a deadline only
    /// when one was configured — a factory outcome only while awaiting the
    /// handler, a dispatcher outcome only while dispatching, and nothing
    /// once finished.
    pub open spec fn accepts<St, H, E>(self, ev: AcceptEvent<Io, Codec, St, H, E>) -> bool {
        match ev {
            AcceptEvent::HandshakeDone(_) => self.phase is AwaitingHandshake,
            AcceptEvent::DeadlineReached => self.phase is AwaitingHandshake && self.has_deadline,
            AcceptEvent::HandlerReady(_) => self.phase is AwaitingHandler,
            AcceptEvent::DispatcherDone(_) => self.phase is Dispatching,
        }
    }

    /// The transition relation of one accept run, one event at a time.
    ///
    /// - A handshake error finishes the run with that error; no handler is
    ///   built.
    /// - A handshake success parks stream, codec and keepalive and asks for
    ///   the handler to be built from the session state.
    /// - The deadline firing first finishes the run with success: a
    ///   too-slow handshake is an ordinary disconnect, not an error.
    /// - A handler construction failure finishes the run with that error;
    ///   the dispatcher is never started.
    /// - A handler construction success hands stream, codec and handler to
    ///   the dispatcher, configured with the negotiated keepalive and the
    ///   acceptor's disconnect timeout.
    /// - The dispatcher's result, success or error, is the run's result,
    ///   unchanged.
    pub open spec fn step_spec<St, H, E>(self, ev: AcceptEvent<Io, Codec, St, H, E>) -> (
        AcceptFut<Io, Codec>,
        AcceptAction<Io, Codec, St, H, E>,
    ) {
        match ev {
            AcceptEvent::HandshakeDone(res) => match res {
                Ok(hs) => (
                    AcceptFut {
                        phase: AcceptPhase::AwaitingHandler {
                            io: hs.io,
                            codec: hs.codec,
                            keepalive: hs.keepalive,
                        },
                        ..self
                    },
                    AcceptAction::BuildHandler(hs.session),
                ),
                Err(e) => (
                    AcceptFut { phase: AcceptPhase::Finished, ..self },
                    AcceptAction::Complete(Err(e)),
                ),
            },
            AcceptEvent::DeadlineReached => (
                AcceptFut { phase: AcceptPhase::Finished, ..self },
                AcceptAction::Complete(Ok(())),
            ),
            AcceptEvent::HandlerReady(res) => match res {
                Ok(handler) => match self.phase {
                    AcceptPhase::AwaitingHandler { io, codec, keepalive } => (
                        AcceptFut { phase: AcceptPhase::Dispatching, ..self },
                        AcceptAction::RunDispatcher(
                            DispatcherStart {
                                io,
                                codec,
                                handler,
                                keepalive_timeout: keepalive,
                                disconnect_timeout: self.disconnect_timeout,
                            },
                        ),
                    ),
                    _ => vstd::pervasive::arbitrary(),
                },
                Err(e) => (
                    AcceptFut { phase: AcceptPhase::Finished, ..self },
                    AcceptAction::Complete(Err(e)),
                ),
            },
            AcceptEvent::DispatcherDone(res) => (
                AcceptFut { phase: AcceptPhase::Finished, ..self },
                AcceptAction::Complete(res),
            ),
        }
    }

    /// Consumes one event and returns the advanced run together with the
    /// next action for the driver.
    pub fn step<St, H, E>(self, ev: AcceptEvent<Io, Codec, St, H, E>) -> (r: (
        AcceptFut<Io, Codec>,
        AcceptAction<Io, Codec, St, H, E>,
    ))
        requires
            self.accepts(ev),
        ensures
            r == self.step_spec(ev),
    {
        let AcceptFut { has_deadline, disconnect_timeout, phase } = self;
        match ev {
            AcceptEvent::HandshakeDone(res) => match res {
                Ok(hs) => (
                    AcceptFut {
                        has_deadline,
                        disconnect_timeout,
                        phase: AcceptPhase::AwaitingHandler {
                            io: hs.io,
                            codec: hs.codec,
                            keepalive: hs.keepalive,
                        },
                    },
                    AcceptAction::BuildHandler(hs.session),
                ),
                Err(e) => (
                    AcceptFut { has_deadline, disconnect_timeout, phase: AcceptPhase::Finished },
                    AcceptAction::Complete(Err(e)),
                ),
            },
            AcceptEvent::DeadlineReached => (
                AcceptFut { has_deadline, disconnect_timeout, phase: AcceptPhase::Finished },
                AcceptAction::Complete(Ok(())),
            ),
            AcceptEvent::HandlerReady(res) => match res {
                Ok(handler) => match phase {
                    AcceptPhase::AwaitingHandler { io, codec, keepalive } => (
                        AcceptFut {
                            has_deadline,
                            disconnect_timeout,
                            phase: AcceptPhase::Dispatching,
                        },
                        AcceptAction::RunDispatcher(
                            DispatcherStart {
                                io,
                                codec,
                                handler,
                                keepalive_timeout: keepalive,
                                disconnect_timeout,
                            },
                        ),
                    ),
                    _ => vstd::pervasive::unreached(),
                },
                Err(e) => (
                    AcceptFut { has_deadline, disconnect_timeout, phase: AcceptPhase::Finished },
                    AcceptAction::Complete(Err(e)),
                ),
            },
            AcceptEvent::DispatcherDone(res) => (
                AcceptFut { has_deadline, disconnect_timeout, phase: AcceptPhase::Finished },
                AcceptAction::Complete(res),
            ),
        }
    }
}

/// The configured server: the connect service, the shared per-connection
/// handler factory, and the disconnect grace period, as handed to every
/// connection.
pub struct MqttServer<C, T> {
    pub connect: C,
    pub handler: std::rc::Rc<T>,
    pub disconnect_timeout: Seconds,
}

impl<C, T> MqttServer<C, T> {
    pub fn new(connect: C, service: T, disconnect_timeout: Seconds) -> (r: MqttServer<C, T>)
        ensures
            r.connect == connect,
            r.handler == service,
            r.disconnect_timeout == disconnect_timeout,
    {
        MqttServer { connect, handler: std::rc::Rc::new(service), disconnect_timeout }
    }

    /// Builds the per-listener connection service from the awaited outcome
    /// of the connect service factory: an error there is the listener's
    /// error; otherwise the handler factory and the disconnect timeout are
    /// shared into the new service.
    pub fn create_service<Cs, E>(&self, connect: Result<Cs, E>) -> (r: Result<
        MqttHandler<Cs, T>,
        E,
    >)
        ensures
            match connect {
                Ok(c) => r matches Ok(h) && h.connect == c && h.handler == self.handler
                    && h.disconnect_timeout == self.disconnect_timeout,
                Err(e) => r == Err::<MqttHandler<Cs, T>, E>(e),
            },
    {
        match connect {
            Ok(c) => Ok(
                MqttHandler {
                    connect: c,
                    handler: self.handler.clone(),
                    disconnect_timeout: self.disconnect_timeout,
                },
            ),
            Err(e) => Err(e),
        }
    }
}

/// The per-listener connection service: one constructed connect service,
/// the shared handler factory, and the disconnect grace period.
pub struct MqttHandler<Cs, T> {
    pub connect: Cs,
    pub handler: std::rc::Rc<T>,
    pub disconnect_timeout: Seconds,
}

impl<Cs, T> MqttHandler<Cs, T> {
    /// Readiness delegates transparently to the inner connect service; the
    /// acceptor carries no readiness state of its own.
    pub fn poll_ready<E>(&self, connect_poll: SlotPoll<E>) -> (r: SlotPoll<E>)
        ensures
            r == connect_poll,
    {
        connect_poll
    }

    /// Starts one connection's accept run.  The driver then calls the
    /// connect service on the transport and, when a deadline is given,
    /// races it against the deadline timer, reporting whichever resolves
    /// first to `AcceptFut::step`.
    pub fn call<Io, Codec>(&self, has_deadline: bool) -> (fut: AcceptFut<Io, Codec>)
        ensures
            fut.has_deadline == has_deadline,
            fut.disconnect_timeout == self.disconnect_timeout,
            fut.phase is AwaitingHandshake,
    {
        AcceptFut {
            has_deadline,
            disconnect_timeout: self.disconnect_timeout,
            phase: AcceptPhase::AwaitingHandshake,
        }
    }
}

/// Law: given no deadline, the acceptor waits for the handshake no matter
/// how long it takes — in the handshake phase of a deadline-free run, the
/// handshake's own completion is the only event there is.
pub proof fn lemma_no_deadline_waits<Io, Codec, St, H, E>(
    m: AcceptFut<Io, Codec>,
    ev: AcceptEvent<Io, Codec, St, H, E>,
)
    requires
        !m.has_deadline,
        m.phase is AwaitingHandshake,
        m.accepts(ev),
    ensures
        ev is HandshakeDone,
{
}

/// Law: when the deadline fires before the handshake completes, the run
/// finishes at once with success; the one action is completion — no
/// handler is built, no dispatcher started — and the finished run accepts
/// no further event, so no handler-level effect can ever follow.
pub proof fn lemma_deadline_swallowed<Io, Codec, St, H, E>(m: AcceptFut<Io, Codec>)
    requires
        m.phase is AwaitingHandshake,
        m.has_deadline,
    ensures
        ({
            let (m2, act) = m.step_spec::<St, H, E>(AcceptEvent::DeadlineReached);
            &&& act == AcceptAction::<Io, Codec, St, H, E>::Complete(Ok(()))
            &&& m2.phase is Finished
            &&& forall|ev2: AcceptEvent<Io, Codec, St, H, E>| !m2.accepts(ev2)
        }),
{
}

/// Law: when the handshake succeeds but handler construction fails with
/// error `e`, the run resolves to that error and the dispatcher is never
/// invoked: the first step asks only for the handler, the second only
/// completes, and the finished run accepts no further event.
pub proof fn lemma_handler_failure_propagates<Io, Codec, St, H, E>(
    m: AcceptFut<Io, Codec>,
    hs: HandshakeOutcome<Io, Codec, St>,
    e: E,
)
    requires
        m.phase is AwaitingHandshake,
    ensures
        ({
            let (m2, act1) = m.step_spec::<St, H, E>(AcceptEvent::HandshakeDone(Ok(hs)));
            let (m3, act2) = m2.step_spec::<St, H, E>(AcceptEvent::HandlerReady(Err(e)));
            &&& act1 == AcceptAction::<Io, Codec, St, H, E>::BuildHandler(hs.session)
            &&& act2 == AcceptAction::<Io, Codec, St, H, E>::Complete(Err(e))
            &&& m3.phase is Finished
            &&& forall|ev2: AcceptEvent<Io, Codec, St, H, E>| !m3.accepts(ev2)
        }),
{
}

} // verus!
