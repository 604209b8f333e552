//! The three bounded render queues, one per origin, and the strict
//! Interrupt > Remote > App poll order the arbitration engine takes
//! requests in.

use vstd::prelude::*;

use crate::request::{Origin, RenderRequest};

verus! {

/// Capacity of the interrupt queue: a new interrupt request always means
/// "cancel and replace", so one slot suffices.
pub const INTERRUPT_QUEUE_CAP: usize = 1;

/// Capacity of the remote-control queue.
pub const REMOTE_QUEUE_CAP: usize = 8;

/// Capacity of the app queue.
pub const APP_QUEUE_CAP: usize = 8;

/// The three origin queues. Within one queue FIFO order is preserved;
/// priority between queues is enforced by [`RenderQueues::poll_next`] alone.
pub struct RenderQueues {
    /// Requests to show at once.
    pub interrupt: Vec<RenderRequest>,
    /// Pending remote-control requests.
    pub remote: Vec<RenderRequest>,
    /// Pending requests from the active app.
    pub app: Vec<RenderRequest>,
}

impl RenderQueues {
    /// Queues respect their bounds, and every queued request is
    /// well-formed and sits in the queue of its own origin.
    pub open spec fn wf(self) -> bool {
        &&& self.interrupt@.len() <= INTERRUPT_QUEUE_CAP
        &&& self.remote@.len() <= REMOTE_QUEUE_CAP
        &&& self.app@.len() <= APP_QUEUE_CAP
        &&& forall|i: int|
            0 <= i < self.interrupt@.len() ==> (#[trigger] self.interrupt@[i]).wf()
                && self.interrupt@[i].origin() is Interrupt
        &&& forall|i: int|
            0 <= i < self.remote@.len() ==> (#[trigger] self.remote@[i]).wf()
                && self.remote@[i].origin() is Remote
        &&& forall|i: int|
            0 <= i < self.app@.len() ==> (#[trigger] self.app@[i]).wf()
                && self.app@[i].origin() is App
    }

    /// Empty queues.
    pub fn new() -> (q: RenderQueues)
        ensures
            q.wf(),
            q.interrupt@.len() == 0,
            q.remote@.len() == 0,
            q.app@.len() == 0,
    {
        RenderQueues { interrupt: Vec::new(), remote: Vec::new(), app: Vec::new() }
    }

    /// Append `req` to the tail of its origin's queue — plain FIFO. A full
    /// queue rejects the request and hands it back for the caller to retry;
    /// nothing is dropped.
    pub fn send(&mut self, req: RenderRequest) -> (r: Result<(), RenderRequest>)
        requires
            old(self).wf(),
            req.wf(),
            !(req.origin() is Interrupt),
        ensures
            final(self).wf(),
            final(self).interrupt@ == old(self).interrupt@,
            req.origin() is Remote ==> final(self).app@ == old(self).app@,
            req.origin() is App ==> final(self).remote@ == old(self).remote@,
            req.origin() is Remote && old(self).remote@.len() < REMOTE_QUEUE_CAP ==> r is Ok
                && final(self).remote@ == old(self).remote@.push(req),
            req.origin() is Remote && old(self).remote@.len() >= REMOTE_QUEUE_CAP ==> r
                == Err::<(), RenderRequest>(req) && final(self).remote@ == old(self).remote@,
            req.origin() is App && old(self).app@.len() < APP_QUEUE_CAP ==> r is Ok && final(self).app@ == old(self).app@.push(req),
            req.origin() is App && old(self).app@.len() >= APP_QUEUE_CAP ==> r == Err::<
                (),
                RenderRequest,
            >(req) && final(self).app@ == old(self).app@,
    {
        match req {
            RenderRequest::Text(ref t) => {
                if matches!(t.origin, Origin::Remote) {
                    if self.remote.len() < REMOTE_QUEUE_CAP {
                        self.remote.push(req);
                        Ok(())
                    } else {
                        Err(req)
                    }
                } else {
                    if self.app.len() < APP_QUEUE_CAP {
                        self.app.push(req);
                        Ok(())
                    } else {
                        Err(req)
                    }
                }
            },
            RenderRequest::Graphics(ref g) => {
                if matches!(g.origin, Origin::Remote) {
                    if self.remote.len() < REMOTE_QUEUE_CAP {
                        self.remote.push(req);
                        Ok(())
                    } else {
                        Err(req)
                    }
                } else {
                    if self.app.len() < APP_QUEUE_CAP {
                        self.app.push(req);
                        Ok(())
                    } else {
                        Err(req)
                    }
                }
            },
        }
    }

    /// Drain the request's origin queue, then append the request: however
    /// often this is repeated, exactly one request — the newest — is left
    /// pending in that queue.
    pub fn send_and_replace_queue(&mut self, req: RenderRequest)
        requires
            old(self).wf(),
            req.wf(),
            !(req.origin() is Interrupt),
        ensures
            final(self).wf(),
            final(self).interrupt@ == old(self).interrupt@,
            req.origin() is Remote ==> final(self).remote@ =~= spec_replace_queue(
                old(self).remote@,
                req,
            ) && final(self).remote@.len() == 1 && final(self).remote@[0] == req && final(self).app@ == old(self).app@,
            req.origin() is App ==> final(self).app@ =~= spec_replace_queue(old(self).app@, req)
                && final(self).app@.len() == 1 && final(self).app@[0] == req && final(self).remote@ == old(self).remote@,
    {
        let is_remote = match req {
            RenderRequest::Text(ref t) => matches!(t.origin, Origin::Remote),
            RenderRequest::Graphics(ref g) => matches!(g.origin, Origin::Remote),
        };
        if is_remote {
            self.remote.clear();
            self.remote.push(req);
        } else {
            self.app.clear();
            self.app.push(req);
        }
    }

    /// Convert the request to interrupt priority, raise the cooperative
    /// cancellation flag to stop whatever is rendering, and make it the one
    /// pending interrupt request.
    pub fn send_and_show_now(&mut self, req: RenderRequest, stop: &mut bool)
        requires
            old(self).wf(),
            req.wf(),
        ensures
            final(self).wf(),
            final(self).interrupt@ =~= seq![req.spec_as_interrupt()],
            final(self).remote@ == old(self).remote@,
            final(self).app@ == old(self).app@,
            *final(stop),
    {
        *stop = true;
        self.interrupt.clear();
        self.interrupt.push(req.into_interrupt());
    }

    /// Take the next request in strict priority order: the head of the
    /// interrupt queue if there is one, else the head of the remote queue,
    /// else the head of the app queue.
    pub fn poll_next(&mut self) -> (r: Option<RenderRequest>)
        requires
            old(self).wf(),
        ensures
            final(self).wf(),
            (r, (final(self).interrupt@, final(self).remote@, final(self).app@))
                == spec_poll_next(old(self).interrupt@, old(self).remote@, old(self).app@),
            old(self).interrupt@.len() > 0 ==> r == Some(old(self).interrupt@[0]) && final(self).interrupt@ == old(self).interrupt@.skip(1) && final(self).remote@ == old(self).remote@ && final(self).app@ == old(self).app@,
            old(self).interrupt@.len() == 0 && old(self).remote@.len() > 0 ==> r == Some(
                old(self).remote@[0],
            ) && final(self).remote@ == old(self).remote@.skip(1) && final(self).interrupt@ == old(self).interrupt@ && final(self).app@ == old(self).app@,
            old(self).interrupt@.len() == 0 && old(self).remote@.len() == 0 && old(self).app@.len() > 0 ==> r == Some(old(self).app@[0]) && final(self).app@ == old(self).app@.skip(1) && final(self).interrupt@ == old(self).interrupt@ && final(self).remote@ == old(self).remote@,
            old(self).interrupt@.len() == 0 && old(self).remote@.len() == 0 && old(self).app@.len() == 0 ==> r is None && *final(self) == *old(self),
            r matches Some(req) ==> req.wf(),
    {
        if self.interrupt.len() > 0 {
            let req = self.interrupt.remove(0);
            proof {
                assert(self.interrupt@ =~= old(self).interrupt@.skip(1));
            }
            Some(req)
        } else if self.remote.len() > 0 {
            let req = self.remote.remove(0);
            proof {
                assert(self.remote@ =~= old(self).remote@.skip(1));
            }
            Some(req)
        } else if self.app.len() > 0 {
            let req = self.app.remove(0);
            proof {
                assert(self.app@ =~= old(self).app@.skip(1));
            }
            Some(req)
        } else {
            None
        }
    }
}

/// The poll transition at the spec level: the selected request, if any, and
/// what the three queues hold afterwards.
pub open spec fn spec_poll_next(
    interrupt: Seq<RenderRequest>,
    remote: Seq<RenderRequest>,
    app: Seq<RenderRequest>,
) -> (Option<RenderRequest>, (Seq<RenderRequest>, Seq<RenderRequest>, Seq<RenderRequest>)) {
    if interrupt.len() > 0 {
        (Some(interrupt[0]), (interrupt.skip(1), remote, app))
    } else if remote.len() > 0 {
        (Some(remote[0]), (interrupt, remote.skip(1), app))
    } else if app.len() > 0 {
        (Some(app[0]), (interrupt, remote, app.skip(1)))
    } else {
        (None, (interrupt, remote, app))
    }
}

/// An interrupt-origin request, once enqueued, is taken ahead of every
/// pending remote-origin and app-origin request: whatever the other queues
/// hold, the arbitration poll returns the interrupt queue's head, and the
/// other queues are left untouched.
pub proof fn lemma_interrupt_polled_first(
    interrupt: Seq<RenderRequest>,
    remote: Seq<RenderRequest>,
    app: Seq<RenderRequest>,
)
    requires
        interrupt.len() > 0,
    ensures
        spec_poll_next(interrupt, remote, app).0 == Some(interrupt[0]),
        spec_poll_next(interrupt, remote, app).1.1 == remote,
        spec_poll_next(interrupt, remote, app).1.2 == app,
{
}

/// The replace transition at the spec level: whatever was pending, exactly
/// the newest request remains.
pub open spec fn spec_replace_queue(q: Seq<RenderRequest>, req: RenderRequest) -> Seq<
    RenderRequest,
> {
    seq![req]
}

/// However many times a queue is replaced in succession, exactly one
/// request — the last sent — is pending.
pub proof fn lemma_replace_leaves_last(q: Seq<RenderRequest>, first: RenderRequest, last:
    RenderRequest)
    ensures
        spec_replace_queue(spec_replace_queue(q, first), last) =~= seq![last],
        spec_replace_queue(spec_replace_queue(q, first), last).len() == 1,
{
}

} // verus!
