use vstd::prelude::*;

use crate::protocol::{
    is_shutdown_complete, is_shutdown_msg, AppEvent, Event, EventMsg, InitError, Op, SessionConfiguredEvent,
    SessionError,
};

verus! {

/// A backend that accepts operations and produces events.
///
/// `submitted` is the sequence of operations handed to the backend so far, in
/// the order in which `submit` was called; `refused` counts the submissions
/// that failed, and `polls` the calls of `next_event`.
pub trait AgentSession {
    spec fn submitted(&self) -> Seq<Op>;

    spec fn refused(&self) -> nat;

    spec fn polls(&self) -> nat;

    /// Submit an operation and return the turn/event id.
    fn submit(&mut self, op: Op) -> (r: Result<String, SessionError>)
        ensures
            final(self).submitted() == old(self).submitted().push(op),
            final(self).refused() == old(self).refused() + if r is Err { 1nat } else { 0nat },
            final(self).polls() == old(self).polls(),
    ;

    /// The next event that the backend produced.
    fn next_event(&mut self) -> (r: Result<Event, SessionError>)
        ensures
            final(self).submitted() == old(self).submitted(),
            final(self).refused() == old(self).refused(),
            final(self).polls() == old(self).polls() + 1,
    ;
}

/// Submits every operation of `ops`, in order, and returns how many the backend
/// refused. A refusal is recorded in the count only: it stops nothing and
/// reaches no consumer. The session is never polled for events.
pub fn forward_ops<S: AgentSession>(session: &mut S, ops: Vec<Op>) -> (failed: usize)
    ensures
        final(session).submitted() == old(session).submitted() + ops@,
        failed == final(session).refused() - old(session).refused(),
        final(session).polls() == old(session).polls(),
{
    let ghost start = session.submitted();
    let ghost all = ops@;
    let n: usize = ops.len();
    let mut rest = ops;
    let mut failed: usize = 0;
    let mut k: usize = 0;
    while rest.len() > 0
        invariant
            k + rest@.len() == all.len(),
            all.len() == n,
            rest@ == all.subrange(k as int, all.len() as int),
            session.submitted() == start + all.subrange(0, k as int),
            failed <= k,
            session.refused() == old(session).refused() + failed,
            session.polls() == old(session).polls(),
        decreases rest@.len(),
    {
        let op = rest.remove(0);
        match session.submit(op) {
            Ok(_) => {},
            Err(_) => {
                failed = failed + 1;
            },
        }
        proof {
            assert(all.subrange(0, k + 1) == all.subrange(0, k as int).push(all[k as int]));
        }
        k = k + 1;
    }
    proof {
        assert(all.subrange(0, k as int) == all);
    }
    failed
}

} // verus!

verus! {

/// Whether `e` is the event that announces a session configured as `cfg`: the
/// identifier carries no meaning for rendering and is left empty.
pub open spec fn announces(e: Event, cfg: SessionConfiguredEvent) -> bool {
    &&& e.id@.len() == 0
    &&& e.msg == EventMsg::SessionConfigured(cfg)
}

/// What the event-forward task delivers when the backend produces `produced`:
/// each event in order, up to and including the first `ShutdownComplete`; an
/// error ends the stream silently.
pub open spec fn forwarded(produced: Seq<Result<Event, SessionError>>) -> Seq<Event>
    decreases produced.len(),
{
    if produced.len() == 0 {
        Seq::empty()
    } else {
        match produced[0] {
            Result::Err(_) => Seq::empty(),
            Result::Ok(e) => if is_shutdown_msg(e.msg) {
                seq![e]
            } else {
                seq![e] + forwarded(produced.drop_first())
            },
        }
    }
}

/// What the consumer observes of a session configured as `cfg` whose backend
/// produces `produced`: the announcement, then the forwarded events.
pub open spec fn transcript_ok(
    r: Seq<Event>,
    cfg: SessionConfiguredEvent,
    produced: Seq<Result<Event, SessionError>>,
) -> bool {
    &&& r.len() >= 1
    &&& announces(r[0], cfg)
    &&& r.drop_first() == forwarded(produced)
}

/// The decision after one `next_event` result.
pub enum ForwardAction {
    /// Deliver the event and keep polling.
    Deliver(Event),
    /// Deliver the terminal event and stop polling.
    DeliverLast(Event),
    /// Stop polling and deliver nothing.
    Stop,
}

/// State of the event-forward task: it polls the session until it has
/// forwarded `ShutdownComplete` or `next_event` has failed.
pub struct EventForwarder {
    finished: bool,
}

impl EventForwarder {
    pub closed spec fn is_finished(&self) -> bool {
        self.finished
    }

    pub fn new() -> (r: EventForwarder)
        ensures
            !r.is_finished(),
    {
        EventForwarder { finished: false }
    }

    /// Whether the task may call `next_event` again.
    pub fn wants_next(&self) -> (r: bool)
        ensures
            r == !self.is_finished(),
    {
        !self.finished
    }

    /// Decides what to do with one result of `next_event`. Once finished, the
    /// forwarder stops whatever it is handed.
    pub fn on_next(&mut self, r: Result<Event, SessionError>) -> (a: ForwardAction)
        ensures
            old(self).is_finished() ==> a is Stop && final(self).is_finished(),
            !old(self).is_finished() ==> match r {
                Result::Err(_) => a is Stop && final(self).is_finished(),
                Result::Ok(e) => if is_shutdown_msg(e.msg) {
                    a == ForwardAction::DeliverLast(e) && final(self).is_finished()
                } else {
                    a == ForwardAction::Deliver(e) && !final(self).is_finished()
                },
            },
    {
        if self.finished {
            return ForwardAction::Stop;
        }
        match r {
            Result::Err(_) => {
                self.finished = true;
                ForwardAction::Stop
            },
            Result::Ok(e) => {
                if is_shutdown_complete(&e) {
                    self.finished = true;
                    ForwardAction::DeliverLast(e)
                } else {
                    ForwardAction::Deliver(e)
                }
            },
        }
    }
}

/// The event that announces a session configured as `cfg`.
pub fn announcement(cfg: SessionConfiguredEvent) -> (e: Event)
    ensures
        announces(e, cfg),
{
    Event { id: String::new(), msg: EventMsg::SessionConfigured(cfg) }
}

/// One step of the event-forward task: how the delivered events so far
/// (`prev`, announcement first) and what remains to forward relate before and
/// after the next result of `before` is handled.
proof fn lemma_forward_step(prev: Seq<Event>, before: Seq<Result<Event, SessionError>>)
    requires
        prev.len() >= 1,
    ensures
        before.len() == 0 ==> prev.drop_first() + forwarded(before) == prev.drop_first(),
        before.len() > 0 ==> match before[0] {
            Result::Err(_) => prev.drop_first() + forwarded(before) == prev.drop_first(),
            Result::Ok(e) => if is_shutdown_msg(e.msg) {
                prev.push(e).drop_first() == prev.drop_first() + forwarded(before)
            } else {
                prev.push(e).drop_first() + forwarded(before.drop_first()) == prev.drop_first() + forwarded(
                    before,
                )
            },
        },
{
    assert(prev.drop_first() + Seq::<Event>::empty() == prev.drop_first());
    if before.len() > 0 {
        if let Result::Ok(e) = before[0] {
            assert(prev.push(e).drop_first() == prev.drop_first().push(e));
            assert(prev.drop_first() + seq![e] == prev.drop_first().push(e));
            assert(prev.drop_first().push(e) + forwarded(before.drop_first()) == prev.drop_first() + (seq![e]
                + forwarded(before.drop_first())));
        }
    }
}

/// Runs the event-forward task over the results `produced` that a backend hands
/// out, and returns what the consumer observes, announcement first.
pub fn session_transcript(cfg: SessionConfiguredEvent, produced: Vec<Result<Event, SessionError>>) -> (r:
    Vec<Event>)
    ensures
        transcript_ok(r@, cfg, produced@),
{
    let ghost all = produced@;
    let mut out: Vec<Event> = Vec::new();
    out.push(announcement(cfg));
    let mut fwd = EventForwarder::new();
    let mut rest = produced;
    while fwd.wants_next() && rest.len() > 0
        invariant
            out@.len() >= 1,
            announces(out@[0], cfg),
            !fwd.is_finished() ==> out@.drop_first() + forwarded(rest@) == forwarded(all),
            fwd.is_finished() ==> out@.drop_first() == forwarded(all),
        decreases rest@.len(),
    {
        let ghost before = rest@;
        let ghost prev = out@;
        let next = rest.remove(0);
        assert(before.drop_first() == rest@);
        proof {
            lemma_forward_step(prev, before);
        }
        match fwd.on_next(next) {
            ForwardAction::Deliver(e) => out.push(e),
            ForwardAction::DeliverLast(e) => out.push(e),
            ForwardAction::Stop => {},
        }
    }
    proof {
        if !fwd.is_finished() {
            assert(rest@.len() == 0);
            assert(out@.drop_first() + Seq::<Event>::empty() == out@.drop_first());
        }
    }
    out
}

} // verus!

verus! {

/// The consumer's first observed event announces the session, whatever the
/// backend has already produced.
pub proof fn lemma_announcement_first(
    r: Seq<Event>,
    cfg: SessionConfiguredEvent,
    produced: Seq<Result<Event, SessionError>>,
)
    requires
        transcript_ok(r, cfg, produced),
    ensures
        r[0].msg is SessionConfigured,
        r[0].msg == EventMsg::SessionConfigured(cfg),
{
}

/// A `ShutdownComplete` that the event-forward task delivers is the last event
/// it delivers: nothing follows it, so at most one reaches the consumer.
pub proof fn lemma_shutdown_is_last(produced: Seq<Result<Event, SessionError>>, i: int)
    requires
        0 <= i < forwarded(produced).len(),
        is_shutdown_msg(forwarded(produced)[i].msg),
    ensures
        i == forwarded(produced).len() - 1,
    decreases produced.len(),
{
    if produced.len() > 0 {
        if let Result::Ok(e) = produced[0] {
            if !is_shutdown_msg(e.msg) {
                let rest = forwarded(produced.drop_first());
                assert(forwarded(produced) == seq![e] + rest);
                if i > 0 {
                    assert(forwarded(produced)[i] == rest[i - 1]);
                    lemma_shutdown_is_last(produced.drop_first(), i - 1);
                }
            }
        }
    }
}

/// When the backend produces events and then `ShutdownComplete` (at index `k`),
/// the consumer is handed exactly those events in order, the
/// `ShutdownComplete` last, and the task polls no further.
pub proof fn lemma_shutdown_delivered(produced: Seq<Result<Event, SessionError>>, k: int)
    requires
        0 <= k < produced.len(),
        produced[k] is Ok,
        is_shutdown_msg(produced[k]->Ok_0.msg),
        forall|j: int| 0 <= j < k ==> (#[trigger] produced[j]) is Ok && !is_shutdown_msg(produced[j]->Ok_0.msg),
    ensures
        forwarded(produced).len() == k + 1,
        forall|j: int| 0 <= j <= k ==> #[trigger] forwarded(produced)[j] == produced[j]->Ok_0,
        is_shutdown_msg(forwarded(produced)[k].msg),
    decreases k,
{
    if k > 0 {
        let tail = produced.drop_first();
        assert forall|j: int| 0 <= j < k - 1 implies (#[trigger] tail[j]) is Ok && !is_shutdown_msg(
            tail[j]->Ok_0.msg,
        ) by {
            assert(tail[j] == produced[j + 1]);
        }
        lemma_shutdown_delivered(tail, k - 1);
        assert(produced[0] is Ok);
        let e = produced[0]->Ok_0;
        assert(forwarded(produced) == seq![e] + forwarded(tail));
        assert forall|j: int| 0 <= j <= k implies #[trigger] forwarded(produced)[j] == produced[j]->Ok_0 by {
            if j > 0 {
                assert(forwarded(produced)[j] == forwarded(tail)[j - 1]);
                assert(tail[j - 1] == produced[j]);
            }
        }
    }
}

/// How a session starts: what the consumer is handed first, and whether the
/// forwarding tasks are to run.
pub struct SessionStart {
    pub events: Vec<AppEvent>,
    pub running: bool,
}

/// Starts a session from what the session-construction collaborator returned.
/// On success the consumer is handed the announcement and the forwarding tasks
/// run; on failure it is handed one `Error` event with the failure's message
/// and one fatal-exit request, and nothing runs.
pub fn start_session(init: Result<SessionConfiguredEvent, InitError>) -> (r: SessionStart)
    ensures
        match init {
            Result::Ok(cfg) => {
                &&& r.running
                &&& r.events@.len() == 1
                &&& r.events@[0] is CodexEvent
                &&& announces(r.events@[0]->CodexEvent_0, cfg)
            },
            Result::Err(err) => {
                &&& !r.running
                &&& r.events@.len() == 2
                &&& r.events@[0] is CodexEvent
                &&& r.events@[0]->CodexEvent_0.id@.len() == 0
                &&& r.events@[0]->CodexEvent_0.msg == (EventMsg::Error { message: err.message })
                &&& r.events@[1] is FatalExitRequest
                &&& r.events@[1]->FatalExitRequest_0@ == "Failed to initialize codex: "@ + err.message@
            },
        },
{
    match init {
        Result::Ok(cfg) => {
            let mut events: Vec<AppEvent> = Vec::new();
            events.push(AppEvent::CodexEvent(announcement(cfg)));
            SessionStart { events, running: true }
        },
        Result::Err(err) => {
            let reason = String::from_str("Failed to initialize codex: ").concat(err.message.as_str());
            let error_event = Event { id: String::new(), msg: EventMsg::Error { message: err.message } };
            let mut events: Vec<AppEvent> = Vec::new();
            events.push(AppEvent::CodexEvent(error_event));
            events.push(AppEvent::FatalExitRequest(reason));
            SessionStart { events, running: false }
        },
    }
}

} // verus!

verus! {

/// In-process backend driven by a queue of prepared `next_event` results. It
/// accepts every operation until it has handed out `ShutdownComplete`, and
/// rejects every operation after that.
pub struct QueueSession {
    submitted: Vec<Op>,
    pending: Vec<Result<Event, SessionError>>,
    shut_down: bool,
    refused: Ghost<nat>,
    polls: Ghost<nat>,
}

impl QueueSession {
    /// The results that `next_event` has yet to hand out, next first.
    pub closed spec fn pending(&self) -> Seq<Result<Event, SessionError>> {
        self.pending@
    }

    /// Whether `ShutdownComplete` has been handed out.
    pub closed spec fn is_shut_down(&self) -> bool {
        self.shut_down
    }

    pub fn new(produced: Vec<Result<Event, SessionError>>) -> (r: QueueSession)
        ensures
            r.submitted() == Seq::<Op>::empty(),
            r.pending() == produced@,
            !r.is_shut_down(),
            r.refused() == 0,
            r.polls() == 0,
    {
        QueueSession { submitted: Vec::new(), pending: produced, shut_down: false, refused: Ghost(0), polls: Ghost(0) }
    }

    /// The operations submitted so far, in order.
    pub fn submitted_ops(&self) -> (r: &Vec<Op>)
        ensures
            r@ == self.submitted(),
    {
        &self.submitted
    }

    /// Records `op`; refuses it exactly when the session has shut down.
    pub fn accept(&mut self, op: Op) -> (r: Result<String, SessionError>)
        ensures
            final(self).submitted() == old(self).submitted().push(op),
            r is Err <==> old(self).is_shut_down(),
            final(self).refused() == old(self).refused() + if r is Err { 1nat } else { 0nat },
            final(self).polls() == old(self).polls(),
            final(self).pending() == old(self).pending(),
            final(self).is_shut_down() == old(self).is_shut_down(),
    {
        self.submitted.push(op);
        if self.shut_down {
            self.refused = Ghost(self.refused@ + 1);
            Err(SessionError { message: String::from_str("session has shut down") })
        } else {
            Ok(String::new())
        }
    }

    /// Hands out the next prepared result; an empty queue gives an error and
    /// changes nothing but the poll count.
    pub fn next_prepared(&mut self) -> (r: Result<Event, SessionError>)
        ensures
            final(self).submitted() == old(self).submitted(),
            final(self).refused() == old(self).refused(),
            final(self).polls() == old(self).polls() + 1,
            old(self).pending().len() == 0 ==> {
                &&& r is Err
                &&& final(self).pending() == old(self).pending()
                &&& final(self).is_shut_down() == old(self).is_shut_down()
            },
            old(self).pending().len() > 0 ==> {
                &&& r == old(self).pending()[0]
                &&& final(self).pending() == old(self).pending().drop_first()
                &&& final(self).is_shut_down() == (old(self).is_shut_down() || (r is Ok && is_shutdown_msg(
                    r->Ok_0.msg,
                )))
            },
    {
        self.polls = Ghost(self.polls@ + 1);
        if self.pending.len() == 0 {
            return Err(SessionError { message: String::from_str("event stream ended") });
        }
        let next = self.pending.remove(0);
        if let Ok(e) = &next {
            if is_shutdown_complete(e) {
                self.shut_down = true;
            }
        }
        next
    }
}

impl AgentSession for QueueSession {
    closed spec fn submitted(&self) -> Seq<Op> {
        self.submitted@
    }

    closed spec fn refused(&self) -> nat {
        self.refused@
    }

    closed spec fn polls(&self) -> nat {
        self.polls@
    }

    fn submit(&mut self, op: Op) -> (r: Result<String, SessionError>) {
        self.accept(op)
    }

    fn next_event(&mut self) -> (r: Result<Event, SessionError>) {
        self.next_prepared()
    }
}

} // verus!

verus! {

/// How many `next_event` calls the event-forward task makes on a backend that
/// hands out `produced` and then fails: one per delivered event, stopping at
/// `ShutdownComplete`, or one for the failure that ends the stream.
pub open spec fn polls_needed(produced: Seq<Result<Event, SessionError>>) -> nat
    decreases produced.len(),
{
    if produced.len() == 0 {
        1
    } else {
        match produced[0] {
            Result::Err(_) => 1,
            Result::Ok(e) => if is_shutdown_msg(e.msg) {
                1
            } else {
                1 + polls_needed(produced.drop_first())
            },
        }
    }
}

/// When the `k`-th result is the first `ShutdownComplete`, preceded by events
/// only, the event-forward task calls `next_event` exactly `k + 1` times.
pub proof fn lemma_polls_stop_at_shutdown(produced: Seq<Result<Event, SessionError>>, k: int)
    requires
        0 <= k < produced.len(),
        produced[k] is Ok,
        is_shutdown_msg(produced[k]->Ok_0.msg),
        forall|j: int| 0 <= j < k ==> (#[trigger] produced[j]) is Ok && !is_shutdown_msg(produced[j]->Ok_0.msg),
    ensures
        polls_needed(produced) == k + 1,
    decreases k,
{
    if k > 0 {
        let tail = produced.drop_first();
        assert forall|j: int| 0 <= j < k - 1 implies (#[trigger] tail[j]) is Ok && !is_shutdown_msg(
            tail[j]->Ok_0.msg,
        ) by {
            assert(tail[j] == produced[j + 1]);
        }
        assert(produced[0] is Ok);
        lemma_polls_stop_at_shutdown(tail, k - 1);
    }
}

/// Runs the event-forward task against an in-process backend: announces the
/// session, then polls and forwards until `ShutdownComplete` has been
/// forwarded or `next_event` has failed. Returns what the consumer observes.
pub fn run_event_task(session: &mut QueueSession, cfg: SessionConfiguredEvent) -> (r: Vec<Event>)
    ensures
        transcript_ok(r@, cfg, old(session).pending()),
        final(session).polls() == old(session).polls() + polls_needed(old(session).pending()),
        final(session).submitted() == old(session).submitted(),
{
    let ghost all = session.pending();
    let ghost start = session.polls();
    let mut out: Vec<Event> = Vec::new();
    out.push(announcement(cfg));
    let mut fwd = EventForwarder::new();
    while fwd.wants_next()
        invariant
            out@.len() >= 1,
            announces(out@[0], cfg),
            session.submitted() == old(session).submitted(),
            !fwd.is_finished() ==> out@.drop_first() + forwarded(session.pending()) == forwarded(all),
            !fwd.is_finished() ==> session.polls() + polls_needed(session.pending()) == start + polls_needed(all),
            fwd.is_finished() ==> out@.drop_first() == forwarded(all),
            fwd.is_finished() ==> session.polls() == start + polls_needed(all),
        decreases session.pending().len() + if fwd.is_finished() { 0int } else { 1int },
    {
        let ghost before = session.pending();
        let ghost prev = out@;
        let next = session.next_prepared();
        proof {
            if before.len() > 0 {
                assert(session.pending() == before.drop_first());
            }
        }
        proof {
            lemma_forward_step(prev, before);
        }
        match fwd.on_next(next) {
            ForwardAction::Deliver(e) => out.push(e),
            ForwardAction::DeliverLast(e) => out.push(e),
            ForwardAction::Stop => {},
        }
    }
    out
}

} // verus!
