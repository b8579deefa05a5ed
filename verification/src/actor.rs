//! The serialization actor that guards the single translation engine.
//!
//! Any number of producers enqueue requests; one dedicated consumer loop
//! begins at most one engine invocation at a time, strictly in arrival order,
//! and answers each request exactly once through its own reply channel. The
//! type here is the verified state of that loop: the queue of pending
//! requests, the invocation in flight (at most one, by construction), and the
//! ghost history against which the ordering laws are stated. The loop that
//! owns the engine handle drives it: receive an event, `enqueue`; when idle,
//! `begin_invocation` and run the engine on the text it hands out; then
//! `complete_invocation` and deliver the reply to its channel.

use vstd::prelude::*;

use crate::errors::OcrError;

verus! {

/// One translation request: the text to translate and the token naming the
/// one-shot reply channel the caller waits on.
#[derive(Debug)]
pub struct TranslationRequest {
    /// Names the caller's one-shot reply channel.
    pub reply_to: u64,
    /// The text to translate.
    pub text: String,
}

/// An event submitted to the actor by a producer.
#[derive(Debug)]
pub enum TranslateEvent {
    /// A caller asks for `text` to be translated and awaits the channel
    /// named `reply_to`.
    Request { text: String, reply_to: u64 },
}

/// The answer the actor posts for one request: delivered on the reply
/// channel named `reply_to`, exactly once.
#[derive(Debug)]
pub struct TranslateReply {
    /// Names the reply channel of the request this answers.
    pub reply_to: u64,
    /// The translated text, or the engine's failure.
    pub outcome: Result<String, OcrError>,
}

/// The state of the serialization actor.
pub struct TranslatorActor {
    /// Requests enqueued and not yet begun, in arrival order.
    pub queue: Vec<TranslationRequest>,
    /// The request whose engine invocation is in flight, if any: at most one,
    /// by construction.
    pub in_flight: Option<TranslationRequest>,
    /// Every request ever enqueued, in arrival order.
    pub history: Ghost<Seq<TranslationRequest>>,
    /// Requests whose invocation has completed, in the order begun.
    pub done: Ghost<Seq<TranslationRequest>>,
}

impl TranslatorActor {
    /// The in-flight request as a sequence of length zero or one.
    pub open spec fn inflight_seq(&self) -> Seq<TranslationRequest> {
        match self.in_flight {
            Some(r) => seq![r],
            None => Seq::empty(),
        }
    }

    /// All requests whose engine invocation has begun, in the order begun.
    pub open spec fn begun(&self) -> Seq<TranslationRequest> {
        self.done@ + self.inflight_seq()
    }

    /// The requests enqueued and not yet begun, in arrival order.
    pub open spec fn pending(&self) -> Seq<TranslationRequest> {
        self.queue@
    }

    /// Whether an engine invocation is in flight.
    pub open spec fn busy(&self) -> bool {
        self.in_flight is Some
    }

    /// The request whose invocation is in flight.
    pub open spec fn current(&self) -> TranslationRequest
        recommends
            self.busy(),
    {
        self.in_flight->0
    }

    /// Well-formedness: the arrival history is exactly the begun requests
    /// followed by the pending ones — nothing is lost, duplicated or
    /// reordered.
    pub open spec fn wf(&self) -> bool {
        self.history@ == self.begun() + self.queue@
    }

    /// A fresh actor with nothing enqueued and nothing in flight.
    pub fn new() -> (a: TranslatorActor)
        ensures
            a.wf(),
            !a.busy(),
            a.pending() == Seq::<TranslationRequest>::empty(),
            a.begun() == Seq::<TranslationRequest>::empty(),
            a.history@ == Seq::<TranslationRequest>::empty(),
    {
        let a = TranslatorActor {
            queue: Vec::new(),
            in_flight: None,
            history: Ghost(Seq::empty()),
            done: Ghost(Seq::empty()),
        };
        proof {
            assert(a.begun() =~= Seq::<TranslationRequest>::empty());
            assert(a.history@ =~= a.begun() + a.queue@);
        }
        a
    }

    /// Accepts one request from a producer. Submission never blocks on the
    /// engine: it only appends to the queue, behind every earlier arrival.
    pub fn enqueue(&mut self, req: TranslationRequest)
        requires
            old(self).wf(),
        ensures
            final(self).wf(),
            final(self).pending() == old(self).pending().push(req),
            final(self).history@ == old(self).history@.push(req),
            final(self).begun() == old(self).begun(),
            final(self).busy() == old(self).busy(),
    {
        let ghost r = req;
        self.queue.push(req);
        proof {
            self.history@ = self.history@.push(r);
            assert(self.history@ =~= self.begun() + self.queue@);
        }
    }

    /// Applies one submitted event to the actor: a request event enqueues the
    /// request it carries, behind every earlier arrival.
    pub fn handle_event(&mut self, event: TranslateEvent)
        requires
            old(self).wf(),
        ensures
            final(self).wf(),
            event matches TranslateEvent::Request { text, reply_to } ==> final(self).pending()
                == old(self).pending().push(TranslationRequest { reply_to, text })
                && final(self).history@ == old(self).history@.push(
                TranslationRequest { reply_to, text },
            ),
            final(self).begun() == old(self).begun(),
            final(self).busy() == old(self).busy(),
    {
        match event {
            TranslateEvent::Request { text, reply_to } => {
                self.enqueue(TranslationRequest { reply_to, text });
            },
        }
    }

    /// What `begin_invocation` does: on a busy actor, or an empty queue,
    /// nothing begins and nothing changes; otherwise exactly the head of the
    /// queue — the earliest arrival not yet served — moves into flight and
    /// its text is handed out for the engine.
    pub open spec fn begin_transition(
        pre: TranslatorActor,
        post: TranslatorActor,
        started: Option<String>,
    ) -> bool {
        if pre.busy() || pre.pending().len() == 0 {
            &&& post == pre
            &&& started is None
        } else {
            &&& started is Some
            &&& started->0@ == pre.pending()[0].text@
            &&& post.in_flight == Some(pre.pending()[0])
            &&& post.queue@ == pre.pending().drop_first()
            &&& post.done == pre.done
            &&& post.history == pre.history
        }
    }

    /// Begins the next engine invocation, if the actor is idle and a request
    /// is pending; hands back the text the engine is to be run on.
    pub fn begin_invocation(&mut self) -> (started: Option<String>)
        requires
            old(self).wf(),
        ensures
            final(self).wf(),
            Self::begin_transition(*old(self), *final(self), started),
    {
        match &self.in_flight {
            Some(_) => None,
            None => {
                if self.queue.len() == 0 {
                    None
                } else {
                    let req = self.queue.remove(0);
                    let text = req.text.clone();
                    self.in_flight = Some(req);
                    proof {
                        assert(old(self).pending().remove(0) =~= old(
                            self,
                        ).pending().drop_first());
                        assert(self.begun() =~= old(self).begun().push(
                            old(self).pending()[0],
                        ));
                        assert(old(self).begun().push(old(self).pending()[0]) + self.queue@
                            =~= old(self).begun() + old(self).queue@);
                    }
                    Some(text)
                }
            },
        }
    }

    /// What `complete_invocation` does: the in-flight invocation ends, its
    /// reply names the requester's channel and carries the engine's outcome —
    /// success or failure alike — and the pending queue is untouched, so the
    /// actor goes on serving whatever the outcome was.
    pub open spec fn complete_transition(
        pre: TranslatorActor,
        outcome: Result<String, OcrError>,
        post: TranslatorActor,
        reply: TranslateReply,
    ) -> bool {
        &&& !post.busy()
        &&& post.queue@ == pre.queue@
        &&& post.done@ == pre.done@.push(pre.current())
        &&& post.history == pre.history
        &&& reply.reply_to == pre.current().reply_to
        &&& reply.outcome == outcome
    }

    /// Ends the in-flight invocation with the engine's outcome and builds the
    /// reply owed to the requester. An engine failure is posted to that one
    /// caller and nothing else: the queue survives and the loop goes on.
    pub fn complete_invocation(&mut self, outcome: Result<String, OcrError>) -> (reply:
        TranslateReply)
        requires
            old(self).wf(),
            old(self).busy(),
        ensures
            final(self).wf(),
            Self::complete_transition(*old(self), outcome, *final(self), reply),
    {
        let req = self.in_flight.take();
        let req = match req {
            Some(r) => r,
            None => vstd::pervasive::unreached(),
        };
        proof {
            self.done@ = self.done@.push(req);
            assert(old(self).begun() =~= self.begun());
            assert(self.history@ =~= self.begun() + self.queue@);
        }
        TranslateReply { reply_to: req.reply_to, outcome }
    }
}

/// FIFO law: the requests whose engine invocations have begun are exactly the
/// earliest-enqueued requests, in their arrival order — for any two requests,
/// the one enqueued first is served first.
pub proof fn lemma_fifo(a: TranslatorActor)
    requires
        a.wf(),
    ensures
        a.begun() == a.history@.take(a.begun().len() as int),
{
    assert(a.begun() =~= a.history@.take(a.begun().len() as int));
}

/// FIFO law, pairwise form: if the request that arrived j-th has begun its
/// invocation, then every earlier arrival i has begun too, and each occupies
/// exactly its arrival position in the order of service.
pub proof fn lemma_fifo_order(a: TranslatorActor, i: int, j: int)
    requires
        a.wf(),
        0 <= i < j < a.begun().len(),
    ensures
        a.begun()[i] == a.history@[i],
        a.begun()[j] == a.history@[j],
{
    lemma_fifo(a);
}

/// Mutual exclusion law: while one invocation is in flight no second one can
/// begin — an attempt to begin on a busy actor starts nothing and changes
/// nothing, so at most one engine invocation ever exists.
pub proof fn lemma_mutual_exclusion(
    pre: TranslatorActor,
    post: TranslatorActor,
    started: Option<String>,
)
    requires
        pre.wf(),
        pre.busy(),
        TranslatorActor::begin_transition(pre, post, started),
    ensures
        started is None,
        post == pre,
        post.inflight_seq().len() <= 1,
{
}

/// Resilience law: when the in-flight invocation fails, completing it and
/// beginning the next one serves exactly the request at the head of the
/// queue — one engine failure costs only its own caller, never a later one.
pub proof fn lemma_resilience(
    a: TranslatorActor,
    failure: OcrError,
    b: TranslatorActor,
    reply: TranslateReply,
    c: TranslatorActor,
    started: Option<String>,
)
    requires
        a.wf(),
        a.busy(),
        a.pending().len() > 0,
        TranslatorActor::complete_transition(a, Err(failure), b, reply),
        TranslatorActor::begin_transition(b, c, started),
    ensures
        b.wf(),
        reply.reply_to == a.current().reply_to,
        reply.outcome == Err::<String, OcrError>(failure),
        started is Some,
        started->0@ == a.pending()[0].text@,
        c.in_flight == Some(a.pending()[0]),
        c.pending() == a.pending().drop_first(),
{
    assert(b.wf()) by {
        assert(b.history@ =~= b.begun() + b.queue@);
    }
}

} // verus!
