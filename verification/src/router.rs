//! Publish routing: a builder of `(pattern, handler factory)` bindings, the
//! immutable compiled table shared by all sessions, the two-phase per-session
//! slot construction, and the per-publish dispatch decision.
//!
//! Handler factories and handler slots are asynchronous services of the
//! protocol layer above, so this crate carries them as opaque values: `F` is
//! a handler factory, `H` a constructed per-session handler slot, `E` the
//! shared error type.  The driver invokes the factories and polls the slots;
//! every decision about their outcomes is taken here, under contract.

use vstd::prelude::*;

use crate::scan::{first_where, lemma_first_where_at, lemma_first_where_is};
use crate::topic::{filter_compiles, filter_matches, TopicFilter};

verus! {

/// An inbound application message: a topic and a payload.  The topic is
/// matched exactly as it stands here; dispatch does not rewrite it.
pub struct Publish {
    pub topic: Vec<u8>,
    pub payload: Vec<u8>,
}

impl Publish {
    pub fn new(topic: Vec<u8>, payload: Vec<u8>) -> (p: Publish)
        ensures
            p.topic == topic,
            p.payload == payload,
    {
        Publish { topic, payload }
    }

    /// The topic this message was published to.
    pub fn publish_topic(&self) -> (t: &Vec<u8>)
        ensures
            t == self.topic,
    {
        &self.topic
    }
}

/// The predicate "this filter matches `topic`".
pub open spec fn matches_pred(topic: Seq<u8>) -> spec_fn(TopicFilter) -> bool {
    |f: TopicFilter| filter_matches(f, topic)
}

/// Index of the first registered filter that matches `topic`, if any.
pub open spec fn match_index(filters: Seq<TopicFilter>, topic: Seq<u8>) -> Option<int> {
    first_where(filters, matches_pred(topic))
}

/// The compiled route table: the registered filters, in registration order.
/// Built once by `Router::into_factory` and then shared read-only, behind a
/// reference count, by every session of that factory.
pub struct RouteTable {
    pub filters: Vec<TopicFilter>,
}

impl RouteTable {
    /// The dispatch decision for `topic`: the index of the first matching
    /// filter, or `None` for the default slot.
    pub open spec fn route_spec(&self, topic: Seq<u8>) -> Option<int> {
        match_index(self.filters@, topic)
    }
}

/// Where a publish goes: the handler slot of route `i`, or the default slot.
#[derive(Clone, Copy, Debug, PartialEq, Eq, Structural)]
pub enum Route {
    Matched(usize),
    Fallback,
}

/// Builder of a router configuration: `(pattern, handler factory)` pairs in
/// registration order, and an optional default factory (`None` stands for
/// the built-in acknowledge-and-log handler of the driver).
pub struct Router<F> {
    pub filters: Vec<TopicFilter>,
    pub handlers: Vec<F>,
    pub default: Option<F>,
}

impl<F> Router<F> {
    /// One handler factory per registered filter.
    pub open spec fn wf(&self) -> bool {
        self.filters@.len() == self.handlers@.len()
    }

    /// An empty configuration: no routes, the built-in default.
    pub fn new() -> (r: Router<F>)
        ensures
            r.wf(),
            r.filters@ == Seq::<TopicFilter>::empty(),
            r.handlers@ == Seq::<F>::empty(),
            r.default is None,
    {
        Router { filters: Vec::new(), handlers: Vec::new(), default: None }
    }

    /// Registers `service` for topics matching `pattern`, under the next
    /// route index.
    pub fn resource(self, pattern: &[u8], service: F) -> (r: Router<F>)
        ensures
            r.filters@.len() == self.filters@.len() + 1,
            r.filters@.subrange(0, self.filters@.len() as int) == self.filters@,
            filter_compiles(r.filters@.last(), pattern@),
            r.handlers@ == self.handlers@.push(service),
            r.default == self.default,
            self.wf() ==> r.wf(),
    {
        let mut r = self;
        r.filters.push(TopicFilter::compile(pattern));
        r.handlers.push(service);
        proof {
            assert(r.filters@.subrange(0, r.filters@.len() - 1) =~= self.filters@);
        }
        r
    }

    /// Replaces the default factory, used for topics matching no route.
    pub fn default_resource(self, service: F) -> (r: Router<F>)
        ensures
            r.filters == self.filters,
            r.handlers == self.handlers,
            r.default == Some(service),
            self.wf() ==> r.wf(),
    {
        let mut r = self;
        r.default = Some(service);
        r
    }

    /// Compiles the registered patterns into an immutable, shareable route
    /// table and seals the factory list.  No route can be added afterwards.
    pub fn into_factory(self) -> (f: RouterFactory<F>)
        requires
            self.wf(),
        ensures
            f.wf(),
            f.table.filters == self.filters,
            f.handlers == self.handlers,
            f.default == self.default,
    {
        RouterFactory {
            table: std::rc::Rc::new(RouteTable { filters: self.filters }),
            handlers: self.handlers,
            default: self.default,
        }
    }
}

impl<F> Default for Router<F> {
    /// Same as `Router::new`.
    fn default() -> (r: Router<F>)
        ensures
            r.wf(),
            r.filters@ == Seq::<TopicFilter>::empty(),
            r.handlers@ == Seq::<F>::empty(),
            r.default is None,
    {
        Router::new()
    }
}

/// A sealed router configuration: the compiled table and the factory of
/// each route slot.  One factory serves many concurrent sessions; each
/// session gets its own `RouterService` built through `new_service`.
pub struct RouterFactory<F> {
    pub table: std::rc::Rc<RouteTable>,
    pub handlers: Vec<F>,
    pub default: Option<F>,
}

impl<F> RouterFactory<F> {
    /// One handler factory per compiled filter.
    pub open spec fn wf(&self) -> bool {
        self.table.filters@.len() == self.handlers@.len()
    }

    /// Starts construction of one session's router.  The driver invokes the
    /// default factory first (the built-in one when `default` is `None`),
    /// then all route factories concurrently on clones of the session
    /// context, and reports the outcomes to the returned state machine.
    pub fn new_service<H>(&self) -> (fut: RouterFactoryFut<H>)
        requires
            self.wf(),
        ensures
            fut.wf(),
            fut.table == self.table,
            fut.expected == self.handlers@.len(),
            fut.init is AwaitingDefault,
    {
        RouterFactoryFut {
            table: self.table.clone(),
            expected: self.handlers.len(),
            init: SessionInit::AwaitingDefault,
        }
    }
}

/// Progress of one session's router construction.  The default slot's
/// outcome is consumed first; the route slots' outcomes are consumed as one
/// batch only afterwards, so failure attribution is fixed: a default
/// failure is the session's error whatever the route slots did.
pub enum SessionInit<H> {
    AwaitingDefault,
    AwaitingSlots { default: H },
    Finished,
}

/// The per-session construction state machine handed out by
/// `RouterFactory::new_service`.
pub struct RouterFactoryFut<H> {
    pub table: std::rc::Rc<RouteTable>,
    pub expected: usize,
    pub init: SessionInit<H>,
}

/// The predicate "this slot outcome is a failure".
pub open spec fn err_pred<H, E>() -> spec_fn(Result<H, E>) -> bool {
    |r: Result<H, E>| r is Err
}

/// Index of the first failed slot outcome, if any.
pub open spec fn first_slot_err<H, E>(outcomes: Seq<Result<H, E>>) -> Option<int> {
    first_where(outcomes, err_pred::<H, E>())
}

impl<H> RouterFactoryFut<H> {
    /// As many route slots are expected as the table has filters.
    pub open spec fn wf(&self) -> bool {
        self.expected == self.table.filters@.len()
    }

    /// Consumes the default slot's construction outcome.  A default failure
    /// ends the whole session construction with that error, independent of
    /// the route slots' outcomes.
    pub fn default_ready<E>(&mut self, outcome: Result<H, E>) -> (r: Result<(), E>)
        requires
            old(self).init is AwaitingDefault,
        ensures
            final(self).table == old(self).table,
            final(self).expected == old(self).expected,
            match outcome {
                Ok(h) => r is Ok && final(self).init == (SessionInit::AwaitingSlots {
                    default: h,
                }),
                Err(e) => r == Err::<(), E>(e) && final(self).init is Finished,
            },
    {
        match outcome {
            Ok(h) => {
                self.init = SessionInit::AwaitingSlots { default: h };
                Ok(())
            },
            Err(e) => {
                self.init = SessionInit::Finished;
                Err(e)
            },
        }
    }

    /// Consumes the route slots' construction outcomes, in route order.
    /// Any failure ends the session construction with the first failing
    /// slot's error and discards every successfully constructed slot; only
    /// when the default and every route slot succeeded is a service
    /// returned, holding all slots.
    pub fn slots_ready<E>(self, outcomes: Vec<Result<H, E>>) -> (r: Result<RouterService<H>, E>)
        requires
            self.wf(),
            self.init is AwaitingSlots,
            outcomes@.len() == self.expected,
        ensures
            match first_slot_err(outcomes@) {
                Some(k) => outcomes@[k] matches Err(e) && r == Err::<RouterService<H>, E>(e),
                None => r matches Ok(svc) && {
                    &&& svc.wf()
                    &&& svc.table == self.table
                    &&& (self.init matches SessionInit::AwaitingSlots { default } ==> svc.default
                        == default)
                    &&& svc.handlers@.len() == outcomes@.len()
                    &&& forall|k: int|
                        0 <= k < outcomes@.len() ==> (#[trigger] outcomes@[k] matches Ok(h)
                            && svc.handlers@[k] == h)
                },
            },
    {
        let RouterFactoryFut { table, expected, init } = self;
        let default = match init {
            SessionInit::AwaitingSlots { default } => default,
            _ => vstd::pervasive::unreached(),
        };
        let ghost orig = outcomes@;
        let mut rest = outcomes;
        let mut handlers: Vec<H> = Vec::new();
        proof {
            assert(rest@ =~= orig.subrange(0, orig.len() as int));
        }
        while rest.len() > 0
            invariant
                orig == outcomes@,
                orig.len() == handlers@.len() + rest@.len(),
                rest@ == orig.subrange(handlers@.len() as int, orig.len() as int),
                forall|k: int|
                    0 <= k < handlers@.len() ==> (#[trigger] orig[k] matches Ok(h) && handlers@[k]
                        == h),
            decreases rest@.len(),
        {
            let ghost done = handlers@.len() as int;
            let next = rest.remove(0);
            proof {
                assert(next == orig[done]);
                assert(rest@ =~= orig.subrange(done + 1, orig.len() as int));
            }
            match next {
                Ok(h) => {
                    handlers.push(h);
                },
                Err(e) => {
                    proof {
                        lemma_first_where_is(orig, err_pred::<H, E>(), done);
                    }
                    return Err(e);
                },
            }
        }
        proof {
            lemma_first_where_at(orig, err_pred::<H, E>(), 0);
            match first_slot_err(orig) {
                Some(k) => {
                    assert(orig[k] is Err);
                    assert(!(orig[k] is Err));
                },
                None => {},
            }
        }
        Ok(RouterService { table, handlers, default })
    }
}

/// The error one session's router construction ends with, if any: the
/// default slot's error where the default slot failed, else the first
/// failing route slot's error — exactly what `default_ready` followed by
/// `slots_ready` return.
pub open spec fn session_error<H, E>(
    default_outcome: Result<H, E>,
    slot_outcomes: Seq<Result<H, E>>,
) -> Option<E> {
    match default_outcome {
        Err(e) => Some(e),
        Ok(_) => match first_slot_err(slot_outcomes) {
            Some(k) => match slot_outcomes[k] {
                Err(e) => Some(e),
                Ok(_) => None,
            },
            None => None,
        },
    }
}

/// Law: one session's router construction fails exactly when the default
/// slot or some route slot's construction failed.  The error is the
/// default's whenever the default failed, independent of the route slots'
/// outcomes, and otherwise the first failing route slot's; every
/// successfully constructed slot is discarded in that case.
pub proof fn lemma_construction_fails_iff<H, E>(
    default_outcome: Result<H, E>,
    slot_outcomes: Seq<Result<H, E>>,
)
    ensures
        session_error(default_outcome, slot_outcomes) is Some <==> (default_outcome is Err || (
        exists|j: int| 0 <= j < slot_outcomes.len() && #[trigger] slot_outcomes[j] is Err)),
        default_outcome matches Err(e) ==> session_error(default_outcome, slot_outcomes) == Some(
            e,
        ),
        default_outcome is Ok ==> match first_slot_err(slot_outcomes) {
            Some(k) => slot_outcomes[k] matches Err(e) && session_error(
                default_outcome,
                slot_outcomes,
            ) == Some(e),
            None => session_error(default_outcome, slot_outcomes) is None,
        },
{
    lemma_first_where_at(slot_outcomes, err_pred::<H, E>(), 0);
    match first_slot_err(slot_outcomes) {
        Some(k) => {
            assert(slot_outcomes[k] is Err);
        },
        None => {},
    }
}

/// Law: a publish whose topic matches a registered pattern, with no
/// earlier-registered pattern matching it, is routed to exactly that
/// pattern's slot: `RouterService::call` answers its index, under which
/// `handler_for` names that one slot and no other.
pub proof fn lemma_matching_route_wins(table: RouteTable, topic: Seq<u8>, i: int)
    requires
        0 <= i < table.filters@.len(),
        filter_matches(table.filters@[i], topic),
        forall|j: int| 0 <= j < i ==> !filter_matches(#[trigger] table.filters@[j], topic),
    ensures
        table.route_spec(topic) == Some(i),
{
    lemma_first_where_is(table.filters@, matches_pred(topic), i);
}

/// Law: a publish matching no registered pattern is always routed to the
/// default slot: `call` answers `Route::Fallback`, under which
/// `handler_for` names the default slot.
pub proof fn lemma_unmatched_goes_to_default(table: RouteTable, topic: Seq<u8>)
    requires
        forall|j: int|
            0 <= j < table.filters@.len() ==> !filter_matches(
                #[trigger] table.filters@[j],
                topic,
            ),
    ensures
        table.route_spec(topic) is None,
{
    lemma_first_where_at(table.filters@, matches_pred(topic), 0);
    match table.route_spec(topic) {
        Some(k) => {
            assert(filter_matches(table.filters@[k], topic));
            assert(!filter_matches(table.filters@[k], topic));
        },
        None => {},
    }
}

/// Law: the compiled table cannot change after compilation.  Sessions hold
/// it by shared reference count and only read it: any two sessions whose
/// table is the one compiled value decide every topic alike, however many
/// routers are configured afterwards — a later registration only ever
/// builds a new, separate configuration.
pub proof fn lemma_sessions_share_table<H1, H2>(
    s1: RouterService<H1>,
    s2: RouterService<H2>,
    topic: Seq<u8>,
)
    requires
        s1.table == s2.table,
    ensures
        s1.table.route_spec(topic) == s2.table.route_spec(topic),
{
}

/// One readiness poll outcome of a handler slot, as the driver saw it.
pub enum SlotPoll<E> {
    Ready,
    Pending,
    Failed(E),
}

/// The predicate "this readiness poll outcome is a failure".
pub open spec fn failed_pred<E>() -> spec_fn(SlotPoll<E>) -> bool {
    |p: SlotPoll<E>| p is Failed
}

/// Index of the first slot whose readiness poll failed, if any.
pub open spec fn first_poll_failure<E>(polls: Seq<SlotPoll<E>>) -> Option<int> {
    first_where(polls, failed_pred::<E>())
}

/// One session's router: the shared compiled table and this session's
/// exclusively owned handler slots, one per route, plus the default slot.
pub struct RouterService<H> {
    pub table: std::rc::Rc<RouteTable>,
    pub handlers: Vec<H>,
    pub default: H,
}

impl<H> RouterService<H> {
    /// One handler slot per compiled filter.
    pub open spec fn wf(&self) -> bool {
        self.table.filters@.len() == self.handlers@.len()
    }

    /// The dispatch decision for `req`: the slot of the first registered
    /// filter matching its topic, or the default slot when none matches.
    /// The topic is left exactly as it came in.
    pub fn call(&self, req: &Publish) -> (r: Route)
        ensures
            match r {
                Route::Matched(i) => self.table.route_spec(req.topic@) == Some(i as int) && i
                    < self.table.filters@.len(),
                Route::Fallback => self.table.route_spec(req.topic@) is None,
            },
    {
        let n = self.table.filters.len();
        let mut i: usize = 0;
        while i < n
            invariant
                i <= n,
                n == self.table.filters@.len(),
                forall|j: int|
                    0 <= j < i ==> !filter_matches(#[trigger] self.table.filters@[j], req.topic@),
            decreases n - i,
        {
            if self.table.filters[i].matches(req.topic.as_slice()) {
                proof {
                    lemma_first_where_is(self.table.filters@, matches_pred(req.topic@), i as int);
                }
                return Route::Matched(i);
            }
            i = i + 1;
        }
        proof {
            lemma_first_where_at(self.table.filters@, matches_pred(req.topic@), 0);
            match self.table.route_spec(req.topic@) {
                Some(k) => {
                    assert(filter_matches(self.table.filters@[k], req.topic@));
                    assert(!filter_matches(self.table.filters@[k], req.topic@));
                },
                None => {},
            }
        }
        Route::Fallback
    }

    /// The handler slot a route decision names: exactly one slot receives
    /// each delivered publish.
    pub fn handler_for(&self, r: Route) -> (h: &H)
        requires
            self.wf(),
            r matches Route::Matched(i) ==> i < self.handlers@.len(),
        ensures
            match r {
                Route::Matched(i) => h == self.handlers@[i as int],
                Route::Fallback => h == self.default,
            },
    {
        match r {
            Route::Matched(i) => &self.handlers[i],
            Route::Fallback => &self.default,
        }
    }

    /// Law: each publish is delivered by exactly one invocation of
    /// `deliver`, on the slot of the first matching route — the default
    /// slot when none matches — with the message unchanged, and that
    /// invocation's result is returned unchanged.
    pub fn dispatch<E, F: FnOnce(&H, Publish) -> Result<(), E>>(
        &self,
        req: Publish,
        deliver: F,
    ) -> (r: Result<(), E>)
        requires
            self.wf(),
            forall|h: &H, p: Publish| #[trigger] call_requires(deliver, (h, p)),
        ensures
            match self.table.route_spec(req.topic@) {
                Some(i) => call_ensures(deliver, (&self.handlers@[i], req), r),
                None => call_ensures(deliver, (&self.default, req), r),
            },
    {
        let route = self.call(&req);
        let slot = self.handler_for(route);
        deliver(slot, req)
    }

    /// Aggregates one readiness poll of every route slot.  The `requires`
    /// demands an outcome for every slot: each slot is polled on every
    /// check, pending slots included, so each can register its wake
    /// interest.  A failure is reported as the first failing slot's error;
    /// otherwise the router is ready exactly when every slot is.
    pub fn poll_ready<E>(&self, polls: Vec<SlotPoll<E>>) -> (r: SlotPoll<E>)
        requires
            polls@.len() == self.handlers@.len(),
        ensures
            match first_poll_failure(polls@) {
                Some(k) => r == polls@[k],
                None => {
                    &&& (r is Ready <==> (forall|j: int|
                        0 <= j < polls@.len() ==> #[trigger] polls@[j] is Ready))
                    &&& (r is Pending <==> (exists|j: int|
                        0 <= j < polls@.len() && !(#[trigger] polls@[j] is Ready)))
                },
            },
    {
        let ghost orig = polls@;
        let mut rest = polls;
        let mut not_ready = false;
        let ghost mut done: int = 0;
        proof {
            assert(rest@ =~= orig.subrange(0, orig.len() as int));
        }
        while rest.len() > 0
            invariant
                orig == polls@,
                0 <= done,
                orig.len() == done + rest@.len(),
                rest@ == orig.subrange(done, orig.len() as int),
                forall|k: int| 0 <= k < done ==> !(#[trigger] orig[k] is Failed),
                not_ready <==> (exists|k: int| 0 <= k < done && !(#[trigger] orig[k] is Ready)),
            decreases rest@.len(),
        {
            let ghost at = done;
            let next = rest.remove(0);
            proof {
                assert(next == orig[at]);
                assert(rest@ =~= orig.subrange(at + 1, orig.len() as int));
            }
            match next {
                SlotPoll::Ready => {},
                SlotPoll::Pending => {
                    not_ready = true;
                },
                SlotPoll::Failed(e) => {
                    proof {
                        lemma_first_where_is(orig, failed_pred::<E>(), at);
                    }
                    return SlotPoll::Failed(e);
                },
            }
            proof {
                done = done + 1;
            }
        }
        proof {
            lemma_first_where_at(orig, failed_pred::<E>(), 0);
            match first_poll_failure(orig) {
                Some(k) => {
                    assert(orig[k] is Failed);
                    assert(!(orig[k] is Failed));
                },
                None => {},
            }
        }
        if not_ready {
            SlotPoll::Pending
        } else {
            SlotPoll::Ready
        }
    }
}

} // verus!
