use vstd::prelude::*;

use crate::engine::Engine;
use crate::error::{engine_error_spec, engine_outcome, engine_outcome_spec, EngineError, RenderError};
use crate::template::Template;

verus! {

/// One unit of work for the worker: a template, its payload, and the ticket
/// that names the request's completion slot.
pub struct RenderRequest<P> {
    pub ticket: usize,
    pub template: Template,
    pub payload: P,
}

/// The completion slot of one request.
#[derive(Debug, PartialEq, Eq)]
pub enum Slot {
    /// Not yet rendered; its caller is waiting.
    Waiting,
    /// Not yet rendered; its caller has given up, so the result will be dropped.
    Abandoned,
    /// Rendered; the outcome waits for its caller.
    Ready(Result<String, RenderError>),
    /// Written once and then read or dropped; nothing more will come.
    Closed,
}

impl Slot {
    /// Still owed an outcome.
    pub open spec fn is_pending(self) -> bool {
        self is Waiting || self is Abandoned
    }
}

/// What the worker should do next.
pub enum Job<P> {
    /// Render this request, then report the outcome with `finish`.
    Render(RenderRequest<P>),
    /// Nothing is queued: wait for a submission or for the queue to close.
    Wait,
    /// The queue is closed and drained: the worker stops.
    Exit,
}

/// What one step of an in-place worker did.
#[derive(Clone, Copy, Debug, PartialEq, Eq)]
pub enum Step {
    /// Rendered the request with this ticket and delivered its outcome.
    Rendered(usize),
    /// Nothing was queued.
    Idle,
    /// The queue is closed and drained.
    Stopped,
}

/// A slot after the in-flight request's outcome arrives: a waiting caller
/// gets it; for one who gave up, it is dropped.
pub open spec fn delivered(slot: Slot, outcome: Result<String, EngineError>) -> Slot {
    if slot is Waiting {
        Slot::Ready(engine_outcome_spec(outcome))
    } else {
        Slot::Closed
    }
}

/// A slot after its caller gives up.
pub open spec fn abandoned(slot: Slot) -> Slot {
    match slot {
        Slot::Waiting => Slot::Abandoned,
        Slot::Abandoned => Slot::Abandoned,
        Slot::Ready(_) => Slot::Closed,
        Slot::Closed => Slot::Closed,
    }
}

/// A caller-side outcome with the text seen as characters.
pub open spec fn result_view(r: Result<String, RenderError>) -> Result<Seq<char>, RenderError> {
    match r {
        Ok(s) => Ok(s@),
        Err(e) => Err(e),
    }
}

/// The caller-side outcome for what an engine produced.
pub open spec fn delivered_view(r: Result<Seq<char>, EngineError>) -> Result<Seq<char>, RenderError> {
    match r {
        Ok(s) => Ok(s),
        Err(e) => Err(engine_error_spec(e)),
    }
}

/// The dispatch queue between callers and the single worker, together with
/// one completion slot per request.
///
/// Tickets are handed out 0, 1, 2, ... in submission order. The queue holds
/// exactly the requests that have not been started, oldest first; at most one
/// request is in flight (taken by the worker, outcome not yet reported).
pub struct Dispatcher<P> {
    queue: std::collections::VecDeque<RenderRequest<P>>,
    slots: Vec<Slot>,
    started: usize,
    in_flight: Option<usize>,
    closed: bool,
}

impl<P> Dispatcher<P> {
    /// The requests not yet started, oldest first.
    pub closed spec fn queued(&self) -> Seq<RenderRequest<P>> {
        self.queue@
    }

    /// The completion slots, indexed by ticket.
    pub closed spec fn slots(&self) -> Seq<Slot> {
        self.slots@
    }

    /// How many requests the worker has taken so far.
    pub closed spec fn started(&self) -> nat {
        self.started as nat
    }

    /// The ticket of the request that is being rendered, if any.
    pub closed spec fn in_flight(&self) -> Option<usize> {
        self.in_flight
    }

    /// Whether the queue takes no more submissions.
    pub closed spec fn is_closed(&self) -> bool {
        self.closed
    }

    /// The state's internal invariant.
    pub closed spec fn wf(&self) -> bool {
        &&& self.slots@.len() <= usize::MAX
        &&& self.started <= self.slots@.len()
        &&& self.queue@.len() == self.slots@.len() - self.started
        &&& forall|i: int| 0 <= i < self.queue@.len() ==> #[trigger] self.queue@[i].ticket == self.started + i
        &&& self.in_flight matches Some(t) ==> t + 1 == self.started
        &&& forall|t: int| 0 <= t < self.slots@.len() ==>
            (#[trigger] self.slots@[t].is_pending() <==> (t >= self.started || self.in_flight == Some(t as usize)))
    }

    /// The outcome that `submit` gives in this state.
    pub open spec fn submit_result(&self, template: Template) -> Result<usize, RenderError> {
        if self.is_closed() {
            Err(RenderError::EngineUnavailable)
        } else if template.name_spec().len() == 0 {
            Err(RenderError::TemplateNotFound)
        } else if self.slots().len() >= usize::MAX {
            Err(RenderError::EngineUnavailable)
        } else {
            Ok(self.slots().len() as usize)
        }
    }

    /// An open queue with no requests.
    pub fn new() -> (r: Dispatcher<P>)
        ensures
            r.wf(),
            !r.is_closed(),
            r.queued().len() == 0,
            r.slots().len() == 0,
            r.started() == 0,
            r.in_flight() is None,
    {
        Dispatcher {
            queue: std::collections::VecDeque::new(),
            slots: Vec::new(),
            started: 0,
            in_flight: None,
            closed: false,
        }
    }

    /// Enqueues a request for `template` and `payload` and returns its ticket,
    /// without waiting for anything.
    ///
    /// Fails with `EngineUnavailable` once the queue is closed (or when no
    /// ticket is left), and with `TemplateNotFound` for a template without a
    /// name; a failed call changes nothing.
    pub fn submit(&mut self, template: Template, payload: P) -> (r: Result<usize, RenderError>)
        requires
            old(self).wf(),
        ensures
            final(self).wf(),
            r == old(self).submit_result(template),
            final(self).is_closed() == old(self).is_closed(),
            final(self).started() == old(self).started(),
            final(self).in_flight() == old(self).in_flight(),
            match r {
                Ok(t) => {
                    &&& t == old(self).slots().len()
                    &&& final(self).slots() == old(self).slots().push(Slot::Waiting)
                    &&& final(self).queued() == old(self).queued().push(
                        RenderRequest { ticket: t, template, payload },
                    )
                },
                Err(_) => *final(self) == *old(self),
            },
    {
        if self.closed {
            return Err(RenderError::EngineUnavailable);
        }
        if template.name().is_empty() {
            return Err(RenderError::TemplateNotFound);
        }
        if self.slots.len() == usize::MAX {
            return Err(RenderError::EngineUnavailable);
        }
        let ticket = self.slots.len();
        self.slots.push(Slot::Waiting);
        self.queue.push_back(RenderRequest { ticket, template, payload });
        proof {
            assert forall|t: int| 0 <= t < self.slots@.len() implies
                (#[trigger] self.slots@[t].is_pending() <==> (t >= self.started || self.in_flight == Some(t as usize))) by {
                if t < ticket {
                    assert(self.slots@[t] == old(self).slots@[t]);
                }
            }
        }
        Ok(ticket)
    }

    /// Closes the queue: later submissions fail at once, while requests already
    /// queued are still served.
    pub fn close(&mut self)
        requires
            old(self).wf(),
        ensures
            final(self).wf(),
            final(self).is_closed(),
            final(self).queued() == old(self).queued(),
            final(self).slots() == old(self).slots(),
            final(self).started() == old(self).started(),
            final(self).in_flight() == old(self).in_flight(),
    {
        self.closed = true;
    }

    /// Hands the worker its next job: the oldest queued request (which is then
    /// in flight), or `Wait` when nothing is queued, or `Exit` when nothing is
    /// queued and the queue is closed. Requests are started strictly in
    /// submission order, and only when no other request is in flight.
    pub fn start_next(&mut self) -> (r: Job<P>)
        requires
            old(self).wf(),
            old(self).in_flight() is None,
        ensures
            final(self).wf(),
            final(self).is_closed() == old(self).is_closed(),
            final(self).slots() == old(self).slots(),
            old(self).queued().len() > 0 ==> {
                &&& r matches Job::Render(req) && req == old(self).queued()[0]
                &&& final(self).queued() == old(self).queued().drop_first()
                &&& final(self).in_flight() == Some(old(self).queued()[0].ticket)
                &&& final(self).started() == old(self).started() + 1
            },
            old(self).queued().len() == 0 ==> {
                &&& final(self).queued() == old(self).queued()
                &&& final(self).in_flight() is None
                &&& final(self).started() == old(self).started()
                &&& (r is Exit <==> old(self).is_closed())
                &&& (r is Wait <==> !old(self).is_closed())
            },
    {
        if self.queue.len() == 0 {
            return if self.closed {
                Job::Exit
            } else {
                Job::Wait
            };
        }
        match self.queue.pop_front() {
            Some(req) => {
                self.in_flight = Some(req.ticket);
                self.started = self.started + 1;
                proof {
                    assert forall|i: int| 0 <= i < self.queue@.len() implies
                        #[trigger] self.queue@[i].ticket == self.started + i by {
                        assert(self.queue@[i] == old(self).queue@[i + 1]);
                    }
                }
                Job::Render(req)
            },
            None => {
                if self.closed {
                    Job::Exit
                } else {
                    Job::Wait
                }
            },
        }
    }

    /// Reports the engine's outcome for the request in flight: it goes to that
    /// request's slot and to no other, or is dropped if its caller has gone.
    pub fn finish(&mut self, outcome: Result<String, EngineError>)
        requires
            old(self).wf(),
            old(self).in_flight() is Some,
        ensures
            final(self).wf(),
            final(self).in_flight() is None,
            final(self).is_closed() == old(self).is_closed(),
            final(self).queued() == old(self).queued(),
            final(self).started() == old(self).started(),
            final(self).slots() == old(self).slots().update(
                old(self).in_flight()->Some_0 as int,
                delivered(old(self).slots()[old(self).in_flight()->Some_0 as int], outcome),
            ),
    {
        let t = match self.in_flight {
            Some(t) => t,
            None => 0,
        };
        let waiting = match self.slots[t] {
            Slot::Waiting => true,
            _ => false,
        };
        if waiting {
            self.slots.set(t, Slot::Ready(engine_outcome(outcome)));
        } else {
            self.slots.set(t, Slot::Closed);
        }
        self.in_flight = None;
        proof {
            assert forall|u: int| 0 <= u < self.slots@.len() implies
                (#[trigger] self.slots@[u].is_pending() <==> (u >= self.started || self.in_flight == Some(u as usize))) by {
                if u != t {
                    assert(self.slots@[u] == old(self).slots@[u]);
                }
            }
        }
    }

    /// The whole of one worker step in place: takes the oldest queued
    /// request, renders it with `engine`, and delivers the outcome to that
    /// request's slot.
    pub fn process_next<E: Engine<P>>(&mut self, engine: &mut E) -> (r: Step)
        requires
            old(self).wf(),
            old(self).in_flight() is None,
        ensures
            final(self).wf(),
            final(self).in_flight() is None,
            final(self).is_closed() == old(self).is_closed(),
            old(self).queued().len() > 0 ==> {
                let req = old(self).queued()[0];
                let t = req.ticket as int;
                &&& r == Step::Rendered(req.ticket)
                &&& final(self).queued() == old(self).queued().drop_first()
                &&& final(self).started() == old(self).started() + 1
                &&& final(self).slots().len() == old(self).slots().len()
                &&& forall|u: int| 0 <= u < old(self).slots().len() && u != t ==>
                    #[trigger] final(self).slots()[u] == old(self).slots()[u]
                &&& old(self).slots()[t] is Waiting ==> (final(self).slots()[t] matches Slot::Ready(o)
                    && result_view(o) == delivered_view(old(engine).rendered(req.template, req.payload)))
                &&& old(self).slots()[t] is Abandoned ==> final(self).slots()[t] is Closed
            },
            old(self).queued().len() == 0 ==> {
                &&& final(self).queued() == old(self).queued()
                &&& final(self).slots() == old(self).slots()
                &&& final(self).started() == old(self).started()
                &&& r == if old(self).is_closed() { Step::Stopped } else { Step::Idle }
            },
    {
        match self.start_next() {
            Job::Render(req) => {
                let ticket = req.ticket;
                let outcome = engine.render(&req.template, &req.payload);
                self.finish(outcome);
                Step::Rendered(ticket)
            },
            Job::Wait => Step::Idle,
            Job::Exit => Step::Stopped,
        }
    }

    /// Serves every queued request, in order, until the queue is empty; returns
    /// how many were rendered. Afterwards no slot is owed an outcome: each
    /// waiting caller's slot holds its outcome, and each abandoned slot is closed.
    pub fn drain<E: Engine<P>>(&mut self, engine: &mut E) -> (n: usize)
        requires
            old(self).wf(),
            old(self).in_flight() is None,
        ensures
            final(self).wf(),
            final(self).in_flight() is None,
            final(self).is_closed() == old(self).is_closed(),
            n == old(self).queued().len(),
            final(self).queued().len() == 0,
            final(self).slots().len() == old(self).slots().len(),
            forall|t: int| 0 <= t < final(self).slots().len() ==> !(#[trigger] final(self).slots()[t]).is_pending(),
            forall|t: int| 0 <= t < old(self).slots().len() && !old(self).slots()[t].is_pending() ==>
                #[trigger] final(self).slots()[t] == old(self).slots()[t],
            forall|t: int| 0 <= t < old(self).slots().len() && old(self).slots()[t] is Waiting ==>
                #[trigger] final(self).slots()[t] is Ready,
            forall|t: int| 0 <= t < old(self).slots().len() && old(self).slots()[t] is Abandoned ==>
                #[trigger] final(self).slots()[t] is Closed,
    {
        let ghost start = *self;
        let mut n: usize = 0;
        while self.queue.len() > 0
            invariant
                self.wf(),
                self.in_flight() is None,
                self.is_closed() == start.is_closed(),
                self.slots().len() == start.slots().len(),
                n + self.queued().len() == start.queued().len(),
                start.queued().len() <= usize::MAX,
                forall|t: int| 0 <= t < self.started() ==> !(#[trigger] self.slots()[t]).is_pending(),
                forall|t: int| 0 <= t < start.slots().len() && !start.slots()[t].is_pending() ==>
                    #[trigger] self.slots()[t] == start.slots()[t],
                forall|t: int| 0 <= t < start.slots().len() && start.slots()[t] is Waiting ==>
                    #[trigger] self.slots()[t] is Ready || self.slots()[t] is Waiting,
                forall|t: int| 0 <= t < start.slots().len() && start.slots()[t] is Abandoned ==>
                    #[trigger] self.slots()[t] is Closed || self.slots()[t] is Abandoned,
            decreases self.queued().len(),
        {
            let ghost before = *self;
            let ghost t = self.queued()[0].ticket as int;
            assert(self.slots()[t].is_pending());
            self.process_next(engine);
            assert forall|u: int| 0 <= u < start.slots().len() && start.slots()[u] is Waiting implies
                #[trigger] self.slots()[u] is Ready || self.slots()[u] is Waiting by {
                if u != t {
                    assert(self.slots()[u] == before.slots()[u]);
                }
            }
            assert forall|u: int| 0 <= u < start.slots().len() && start.slots()[u] is Abandoned implies
                #[trigger] self.slots()[u] is Closed || self.slots()[u] is Abandoned by {
                if u != t {
                    assert(self.slots()[u] == before.slots()[u]);
                }
            }
            n = n + 1;
        }
        n
    }

    /// Hands the caller the outcome of request `ticket` if it has arrived, and
    /// closes that slot; otherwise returns `None` and changes nothing. Each
    /// outcome is handed out at most once, and only for its own ticket.
    pub fn take(&mut self, ticket: usize) -> (r: Option<Result<String, RenderError>>)
        requires
            old(self).wf(),
        ensures
            final(self).wf(),
            final(self).is_closed() == old(self).is_closed(),
            final(self).queued() == old(self).queued(),
            final(self).started() == old(self).started(),
            final(self).in_flight() == old(self).in_flight(),
            ticket < old(self).slots().len() && old(self).slots()[ticket as int] is Ready ==> {
                &&& r == Some(old(self).slots()[ticket as int]->Ready_0)
                &&& final(self).slots() == old(self).slots().update(ticket as int, Slot::Closed)
            },
            !(ticket < old(self).slots().len() && old(self).slots()[ticket as int] is Ready) ==> {
                &&& r is None
                &&& *final(self) == *old(self)
            },
    {
        if ticket >= self.slots.len() {
            return None;
        }
        let ready = match self.slots[ticket] {
            Slot::Ready(_) => true,
            _ => false,
        };
        if !ready {
            return None;
        }
        let mut slot = Slot::Closed;
        std::mem::swap(&mut slot, &mut self.slots[ticket]);
        assert(self.slots@ == old(self).slots@.update(ticket as int, Slot::Closed));
        assert(old(self).slots@[ticket as int] is Ready);
        proof {
            assert forall|u: int| 0 <= u < self.slots@.len() implies
                (#[trigger] self.slots@[u].is_pending() <==> (u >= self.started || self.in_flight == Some(u as usize))) by {
                assert(old(self).slots@[u].is_pending() <==> (u >= old(self).started || old(self).in_flight == Some(u as usize)));
                if u != ticket {
                    assert(self.slots@[u] == old(self).slots@[u]);
                }
            }
        }
        match slot {
            Slot::Ready(o) => Some(o),
            _ => None,
        }
    }

    /// Records that the caller of `ticket` stopped waiting. A request not yet
    /// rendered is still served, and its outcome dropped; an outcome already
    /// delivered is dropped now. Other slots, and the queue, are untouched.
    pub fn abandon(&mut self, ticket: usize)
        requires
            old(self).wf(),
        ensures
            final(self).wf(),
            final(self).is_closed() == old(self).is_closed(),
            final(self).queued() == old(self).queued(),
            final(self).started() == old(self).started(),
            final(self).in_flight() == old(self).in_flight(),
            final(self).slots() == if ticket < old(self).slots().len() {
                old(self).slots().update(ticket as int, abandoned(old(self).slots()[ticket as int]))
            } else {
                old(self).slots()
            },
    {
        if ticket >= self.slots.len() {
            return;
        }
        let next = match self.slots[ticket] {
            Slot::Waiting => Slot::Abandoned,
            Slot::Abandoned => Slot::Abandoned,
            Slot::Ready(_) => Slot::Closed,
            Slot::Closed => Slot::Closed,
        };
        self.slots.set(ticket, next);
        assert(next == abandoned(old(self).slots@[ticket as int]));
        assert(self.slots@ == old(self).slots@.update(ticket as int, next));
        proof {
            assert forall|u: int| 0 <= u < self.slots@.len() implies
                (#[trigger] self.slots@[u].is_pending() <==> (u >= self.started || self.in_flight == Some(u as usize))) by {
                assert(old(self).slots@[u].is_pending() <==> (u >= old(self).started || old(self).in_flight == Some(u as usize)));
                if u != ticket {
                    assert(self.slots@[u] == old(self).slots@[u]);
                }
            }
        }
    }

    /// One look by the caller of `ticket`: its outcome if it has arrived (the
    /// slot is then closed), `None` while it is still owed, and
    /// `EngineUnavailable` for a ticket that will never get one (unknown, or
    /// already read or dropped).
    pub fn poll(&mut self, ticket: usize) -> (r: Option<Result<String, RenderError>>)
        requires
            old(self).wf(),
        ensures
            final(self).wf(),
            final(self).is_closed() == old(self).is_closed(),
            final(self).queued() == old(self).queued(),
            final(self).started() == old(self).started(),
            final(self).in_flight() == old(self).in_flight(),
            ticket < old(self).slots().len() && old(self).slots()[ticket as int] is Ready ==> {
                &&& r == Some(old(self).slots()[ticket as int]->Ready_0)
                &&& final(self).slots() == old(self).slots().update(ticket as int, Slot::Closed)
            },
            ticket < old(self).slots().len() && old(self).slots()[ticket as int].is_pending() ==> {
                &&& r is None
                &&& final(self).slots() == old(self).slots()
            },
            ticket >= old(self).slots().len() || old(self).slots()[ticket as int] is Closed ==> {
                &&& r == Some(Err::<String, RenderError>(RenderError::EngineUnavailable))
                &&& final(self).slots() == old(self).slots()
            },
    {
        match self.take(ticket) {
            Some(outcome) => Some(outcome),
            None => {
                if self.is_pending(ticket) {
                    None
                } else {
                    Some(Err(RenderError::EngineUnavailable))
                }
            },
        }
    }

    /// Whether request `ticket` exists and is still owed an outcome.
    pub fn is_pending(&self, ticket: usize) -> (r: bool)
        requires
            self.wf(),
        ensures
            r == (ticket < self.slots().len() && self.slots()[ticket as int].is_pending()),
    {
        if ticket >= self.slots.len() {
            return false;
        }
        match self.slots[ticket] {
            Slot::Waiting => true,
            Slot::Abandoned => true,
            _ => false,
        }
    }

    pub fn is_open(&self) -> (r: bool)
        ensures
            r == !self.is_closed(),
    {
        !self.closed
    }

    /// Whether no request is in flight.
    pub fn is_idle(&self) -> (r: bool)
        ensures
            r == (self.in_flight() is None),
    {
        self.in_flight.is_none()
    }

    /// The number of requests not yet started.
    pub fn queued_len(&self) -> (r: usize)
        ensures
            r == self.queued().len(),
    {
        self.queue.len()
    }
}


/// Once the queue is closed, every submission fails at once with
/// `EngineUnavailable`, whatever the template; nothing is enqueued and no
/// slot is made (see `submit`).
pub proof fn lemma_fail_fast<P>(d: &Dispatcher<P>, template: Template)
    requires
        d.is_closed(),
    ensures
        d.submit_result(template) == Err::<usize, RenderError>(RenderError::EngineUnavailable),
{
}

/// The queue is in ticket order: a request submitted earlier sits ahead of
/// one submitted later, and the worker, which always takes the front and
/// starts nothing while a request is in flight, finishes it before the later
/// one starts. The request at each position carries the ticket that its
/// submission returned.
pub proof fn lemma_fifo<P>(d: &Dispatcher<P>, i: int, j: int)
    requires
        d.wf(),
        0 <= i < d.queued().len(),
        0 <= j < d.queued().len(),
    ensures
        d.queued()[i].ticket == d.started() + i,
        d.queued()[i].ticket < d.queued()[j].ticket <==> i < j,
{
}

/// No request is forgotten: every slot still owed an outcome belongs to the
/// request in flight or to a queued one, at the position that its ticket
/// gives. So a worker that keeps taking jobs delivers each of them (see
/// `drain`, which ends with no slot owed anything).
pub proof fn lemma_pending_is_scheduled<P>(d: &Dispatcher<P>, t: int)
    requires
        d.wf(),
        0 <= t < d.slots().len(),
        d.slots()[t].is_pending(),
    ensures
        d.in_flight() == Some(t as usize) || (d.started() <= t && d.queued()[t - d.started()].ticket == t),
{
}

} // verus!
