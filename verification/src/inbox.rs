//! The inbox: the checks that every inbound activity passes, in their
//! order, as a state machine that is resumed with the outcome of each
//! piece of outside work.

use core::marker::PhantomData;
use vstd::prelude::*;

use crate::error::{Error, SignatureFault, UrlFault};
use crate::instance::LocalInstance;
use crate::json::{Document, parsed_json};
use crate::object_id::{ObjectId, Resolution, store_after};
use crate::protocol::{
    ActionView,
    Awaited,
    Event,
    InboxView,
    Stage,
    StepView,
    actor_step,
    admission,
    after_delivery,
    after_fetch,
    after_receive,
    after_signature,
    after_verify,
    arrived,
    begun,
};
use crate::request::{FetchOutcome, RequestData, lemma_first_answer_push};
use crate::signatures::{SignatureCheck, verify_signature};
use crate::traits::{ActivityHandler, Actor, ApubObject, Delivery, HandlerStep, inboxes_of};
use crate::url::Url;
use crate::utils::{verify_domains_match, verify_url_valid};

verus! {

/// What the inbox asks to be done next. The outcome is handed back to
/// the method of [`Inbox`] that is named with each.
///
/// The view of an action keeps of the replies the inboxes to which they
/// go; the contracts that hand out replies state the replies themselves.
#[derive(Debug)]
pub enum Action<O> {
    /// Fetch the object under a URL; then [`Inbox::fetched`].
    Fetch(Url),
    /// Check the signature of the request against this public key; then
    /// [`Inbox::signature_checked`].
    VerifySignature(String),
    /// Call [`Inbox::run_verify`].
    Verify,
    /// Call [`Inbox::run_receive`].
    Receive,
    /// Send the replies; then [`Inbox::delivered`].
    Deliver(Vec<Delivery<O>>),
    /// Answer the request with success.
    Acknowledge,
    /// Answer the request with an error.
    Reject(Error),
}

impl<O> View for Action<O> {
    type V = ActionView;

    open spec fn view(&self) -> ActionView {
        match self {
            Action::Fetch(url) => ActionView::Fetch(url@),
            Action::VerifySignature(key) => ActionView::VerifySignature(key@),
            Action::Verify => ActionView::Verify,
            Action::Receive => ActionView::Receive,
            Action::Deliver(replies) => ActionView::Deliver(inboxes_of(replies@)),
            Action::Acknowledge => ActionView::Acknowledge,
            Action::Reject(e) => ActionView::Reject(*e),
        }
    }
}

impl<R> HandlerStep<R> {
    /// The step with its result left out.
    pub open spec fn outline(self) -> StepView {
        match self {
            HandlerStep::Complete(_) => StepView::Complete(Seq::empty()),
            HandlerStep::Suspended => StepView::Suspended,
            HandlerStep::Failed(e) => StepView::Failed(e),
        }
    }
}

/// The step of a `receive`, its replies reduced to their inboxes.
pub open spec fn receive_outline<O>(step: HandlerStep<Vec<Delivery<O>>>) -> StepView {
    match step {
        HandlerStep::Complete(replies) => StepView::Complete(inboxes_of(replies@)),
        HandlerStep::Suspended => StepView::Suspended,
        HandlerStep::Failed(e) => StepView::Failed(e),
    }
}

/// The checks on the envelope of an activity.
pub fn verify_envelope(id: &Url, actor: &Url, local: &LocalInstance) -> (r: Result<(), Error>)
    ensures
        r == admission(id@, actor@, local@),
{
    match verify_domains_match(id, actor) {
        Err(e) => { return Err(e); },
        Ok(_) => {},
    }
    match verify_url_valid(id, &local.settings) {
        Err(e) => { return Err(e); },
        Ok(_) => {},
    }
    if local.is_local_url(id) {
        return Err(Error::UrlVerificationError(UrlFault::LocalOrigin));
    }
    Ok(())
}

/// What follows a run of an activity's `verify`: the next stage and the
/// action. `pending` is the fetch that the run asked for.
pub fn decide_verified<O>(step: HandlerStep<()>, pending: Option<&Url>) -> (r: (Stage, Action<O>))
    requires
        step is Suspended ==> pending is Some,
    ensures
        match step {
            HandlerStep::Complete(_) => r.0 == Stage::Receiving && r.1@ == ActionView::Receive,
            HandlerStep::Suspended => r.0 == Stage::Verifying && r.1@ == ActionView::Fetch(
                pending.unwrap()@,
            ),
            HandlerStep::Failed(e) => r.0 == Stage::Done && r.1@ == ActionView::Reject(e),
        },
{
    match step {
        HandlerStep::Complete(_) => (Stage::Receiving, Action::Receive),
        HandlerStep::Suspended => (Stage::Verifying, Action::Fetch(pending.unwrap().clone())),
        HandlerStep::Failed(e) => (Stage::Done, Action::Reject(e)),
    }
}

/// What follows a run of an activity's `receive`: the next stage and the
/// action. `pending` is the fetch that the run asked for.
pub fn decide_received<O>(step: HandlerStep<Vec<Delivery<O>>>, pending: Option<&Url>) -> (r: (
    Stage,
    Action<O>,
))
    requires
        step is Suspended ==> pending is Some,
    ensures
        match step {
            HandlerStep::Complete(replies) => if replies@.len() == 0 {
                r.0 == Stage::Done && r.1@ == ActionView::Acknowledge
            } else {
                r.0 == Stage::Delivering && r.1 == Action::Deliver(replies)
            },
            HandlerStep::Suspended => r.0 == Stage::Receiving && r.1@ == ActionView::Fetch(
                pending.unwrap()@,
            ),
            HandlerStep::Failed(e) => r.0 == Stage::Done && r.1@ == ActionView::Reject(e),
        },
{
    match step {
        HandlerStep::Complete(replies) => {
            if replies.len() == 0 {
                (Stage::Done, Action::Acknowledge)
            } else {
                (Stage::Delivering, Action::Deliver(replies))
            }
        },
        HandlerStep::Suspended => (Stage::Receiving, Action::Fetch(pending.unwrap().clone())),
        HandlerStep::Failed(e) => (Stage::Done, Action::Reject(e)),
    }
}

/// The handling of one inbound request that brings an activity of kind
/// `A`, sent by an actor of type `T`.
#[derive(Debug)]
pub struct Inbox<A: ActivityHandler, T> {
    stage: Stage,
    activity: Option<A>,
    request: RequestData,
    actor_kind: PhantomData<T>,
}

/// The state of the inbox as the model has it. Of the activity the view
/// keeps identifier and actor; the activity itself is [`Inbox::held`].
/// The actor's type holds no value and has no part in the view.
impl<A: ActivityHandler, T> View for Inbox<A, T> {
    type V = InboxView;

    closed spec fn view(&self) -> InboxView {
        InboxView {
            stage: self.stage,
            request: self.request@,
            envelope: match self.activity {
                Some(activity) => Some((activity.id_spec(), activity.actor_spec())),
                None => None,
            },
        }
    }
}

impl<A: ActivityHandler, T> Inbox<A, T> {
    /// The activity that the request brought: the one on which `verify`
    /// and `receive` run.
    pub closed spec fn held(&self) -> Option<A> {
        self.activity
    }

    /// The view names identifier and actor of the activity that is held.
    pub proof fn lemma_envelope_of_held(&self)
        ensures
            self@.envelope == match self.held() {
                Some(activity) => Some((activity.id_spec(), activity.actor_spec())),
                None => None,
            },
    {
    }
}

impl<A: ActivityHandler, T: ApubObject<A::DataType> + Actor> Inbox<A, T> {
    /// Where the handling stands.
    pub fn stage(&self) -> (r: Stage)
        ensures
            r == self@.stage,
    {
        self.stage
    }

    /// The state that the resolutions of this request share.
    pub fn request(&self) -> (r: &RequestData)
        ensures
            r@ == self@.request,
    {
        &self.request
    }

    /// What the inbox waits for.
    pub fn awaits(&self) -> (r: Awaited)
        ensures
            r == self@.awaited(),
            r != Awaited::Nothing ==> self@.wf(),
    {
        proof {
            use_type_invariant(&self.request);
            self.request.lemma_accounted();
        }
        if self.activity.is_none() {
            return Awaited::Nothing;
        }
        let pending = self.request.pending().is_some();
        match self.stage {
            Stage::ResolvingActor => if pending {
                Awaited::Answer
            } else {
                Awaited::Nothing
            },
            Stage::VerifyingSignature => Awaited::SignatureCheck,
            Stage::Verifying => if pending {
                Awaited::Answer
            } else {
                Awaited::Verify
            },
            Stage::Receiving => if pending {
                Awaited::Answer
            } else {
                Awaited::Receive
            },
            Stage::Delivering => Awaited::Delivery,
            Stage::Done => Awaited::Nothing,
        }
    }

    /// The activity, where the body held one.
    pub fn activity(&self) -> (r: Option<&A>)
        ensures
            match r {
                Some(activity) => self.held() == Some(*activity),
                None => self.held().is_none(),
            },
    {
        self.activity.as_ref()
    }

    fn resolve_actor(
        &mut self,
        local: &LocalInstance,
        data: &mut A::DataType,
    ) -> (r: Action<A::Outgoing>)
        requires
            old(self)@.envelope.is_some(),
        ensures
            (final(self)@, r@) == actor_step::<A::DataType, T>(old(self)@, *old(data)),
            final(self).held() == old(self).held(),
            final(self)@.request.wf(),
            store_after::<A::DataType, T>(
                *old(data),
                *final(data),
                old(self)@.request,
                old(self)@.actor(),
                local@.settings.store_fetched,
            ),
    {
        let id = match &self.activity {
            Some(activity) => ObjectId::<T>::new(activity.actor().clone()),
            None => { return Action::Reject(Error::MalformedPayload); },
        };
        match id.dereference(data, &mut self.request, local) {
            Resolution::Ready(actor) => {
                self.stage = Stage::VerifyingSignature;
                Action::VerifySignature(actor.public_key())
            },
            Resolution::Pending => {
                self.stage = Stage::ResolvingActor;
                Action::Fetch(id.into_inner())
            },
            Resolution::Failed(e) => {
                self.stage = Stage::Done;
                Action::Reject(e)
            },
        }
    }

    fn refuse(token: String, local: &LocalInstance) -> (r: Inbox<A, T>)
        ensures
            r@ == crate::protocol::refused(token@, local@),
            r.held().is_none(),
            r@.wf(),
    {
        Inbox {
            stage: Stage::Done,
            activity: None,
            request: RequestData::new(local.settings.http_fetch_limit, token),
            actor_kind: PhantomData,
        }
    }

    /// Begins the handling of an activity: checks its envelope and
    /// resolves its actor. Nothing is resolved, and nothing in the store
    /// touched, for an envelope that fails a check.
    pub fn begin(
        activity: A,
        token: String,
        local: &LocalInstance,
        data: &mut A::DataType,
    ) -> (r: (Inbox<A, T>, Action<A::Outgoing>))
        ensures
            (r.0@, r.1@) == begun::<A::DataType, T>(
                activity.id_spec(),
                activity.actor_spec(),
                token@,
                local@,
                *old(data),
            ),
            r.0.held() == Some(activity),
            r.0@.wf(),
            *final(data) == *old(data),
    {
        let request = RequestData::new(local.settings.http_fetch_limit, token);
        let checked = verify_envelope(activity.id(), activity.actor(), local);
        let mut inbox = Inbox {
            stage: Stage::ResolvingActor,
            activity: Some(activity),
            request,
            actor_kind: PhantomData,
        };
        match checked {
            Err(e) => {
                inbox.stage = Stage::Done;
                (inbox, Action::Reject(e))
            },
            Ok(_) => {
                let action = inbox.resolve_actor(local, data);
                (inbox, action)
            },
        }
    }

    /// Records the answer to the pending fetch and moves on: the actor is
    /// resolved from it, or the handler that waited for it is to run.
    pub fn fetched(
        &mut self,
        outcome: FetchOutcome,
        local: &LocalInstance,
        data: &mut A::DataType,
    ) -> (r: Action<A::Outgoing>)
        requires
            old(self)@.awaited() == Awaited::Answer,
        ensures
            (final(self)@, r@) == after_fetch::<A::DataType, T>(old(self)@, outcome@, *old(data)),
            final(self).held() == old(self).held(),
            old(self)@.wf(),
            final(self)@.wf(),
            if old(self)@.stage == Stage::ResolvingActor {
                store_after::<A::DataType, T>(
                    *old(data),
                    *final(data),
                    old(self)@.request.answered(outcome@),
                    old(self)@.actor(),
                    local@.settings.store_fetched,
                )
            } else {
                *final(data) == *old(data)
            },
    {
        proof {
            use_type_invariant(&self.request);
            self.request.lemma_accounted();
            lemma_first_answer_push(
                self@.request.answers,
                crate::request::FetchedView {
                    url: self@.request.pending.unwrap(),
                    outcome: outcome@,
                },
                self@.request.pending.unwrap(),
            );
        }
        self.request.answer(outcome);
        match self.stage {
            Stage::ResolvingActor => self.resolve_actor(local, data),
            Stage::Verifying => Action::Verify,
            _ => Action::Receive,
        }
    }

    /// Takes the outcome of the signature check: a valid signature opens
    /// the way to the activity's own check; every other outcome ends the
    /// request.
    pub fn signature_checked(&mut self, check: SignatureCheck) -> (r: Action<A::Outgoing>)
        requires
            old(self)@.awaited() == Awaited::SignatureCheck,
        ensures
            (final(self)@, r@) == after_signature(old(self)@, check),
            final(self).held() == old(self).held(),
            old(self)@.wf(),
            final(self)@.wf(),
    {
        proof {
            use_type_invariant(&self.request);
            self.request.lemma_accounted();
        }
        match verify_signature(check) {
            Ok(_) => {
                self.stage = Stage::Verifying;
                Action::Verify
            },
            Err(e) => {
                self.stage = Stage::Done;
                Action::Reject(e)
            },
        }
    }

    /// Runs the `verify` of the activity that is held, once, on the data
    /// and the request state as they are, and moves on by the step that
    /// it returns: to applying the activity where it completed, to a
    /// fetch where it suspended, to refusal with its error where it
    /// failed. The data are left as that run left them.
    pub fn run_verify(&mut self, local: &LocalInstance, data: &mut A::DataType) -> (r: Action<
        A::Outgoing,
    >)
        requires
            old(self)@.awaited() == Awaited::Verify,
        ensures
            old(self)@.wf(),
            final(self)@.wf(),
            final(self).held() == old(self).held(),
            exists|step: HandlerStep<()>| #[trigger]
                old(self).held().unwrap().verifies(
                    *old(data),
                    old(self)@.request,
                    local@,
                    step,
                    *final(data),
                ) && old(self)@.expects(
                    Event::Verified(step.outline(), final(self)@.request.pending),
                ) && (final(self)@, r@) == after_verify(
                    old(self)@,
                    step.outline(),
                    final(self)@.request.pending,
                ),
            r@ is Fetch ==> *final(data) == *old(data),
    {
        proof {
            use_type_invariant(&self.request);
            self.request.lemma_accounted();
        }
        let step = match &self.activity {
            Some(activity) => activity.verify(data, &mut self.request, local),
            None => HandlerStep::Failed(Error::MalformedPayload),
        };
        let ghost run = step;
        let (stage, action) = decide_verified(step, self.request.pending());
        self.stage = stage;
        assert(old(self).held().unwrap().verifies(
            *old(data),
            old(self)@.request,
            local@,
            run,
            *data,
        ) && old(self)@.expects(Event::Verified(run.outline(), self@.request.pending)) && (
        self@, action@) == after_verify(old(self)@, run.outline(), self@.request.pending));
        action
    }

    /// Runs the `receive` of the activity that is held, once, on the data
    /// and the request state as they are, and moves on by the step that
    /// it returns: where it completed, to the delivery of exactly the
    /// replies that it returned, or to the acknowledgement where there
    /// are none; to a fetch where it suspended; to refusal with its error
    /// where it failed. The data are left as that run left them.
    pub fn run_receive(&mut self, local: &LocalInstance, data: &mut A::DataType) -> (r: Action<
        A::Outgoing,
    >)
        requires
            old(self)@.awaited() == Awaited::Receive,
        ensures
            old(self)@.wf(),
            final(self)@.wf(),
            final(self).held() == old(self).held(),
            exists|step: HandlerStep<Vec<Delivery<A::Outgoing>>>| #[trigger]
                old(self).held().unwrap().receives(
                    *old(data),
                    old(self)@.request,
                    local@,
                    step,
                    *final(data),
                ) && old(self)@.expects(
                    Event::Received(receive_outline(step), final(self)@.request.pending),
                ) && (final(self)@, r@) == after_receive(
                    old(self)@,
                    receive_outline(step),
                    final(self)@.request.pending,
                ) && (step is Complete && step->Complete_0@.len() > 0 ==> r == Action::Deliver(
                    step->Complete_0,
                )),
            r@ is Fetch ==> *final(data) == *old(data),
    {
        proof {
            use_type_invariant(&self.request);
            self.request.lemma_accounted();
        }
        let step = match &self.activity {
            Some(activity) => activity.receive(data, &mut self.request, local),
            None => HandlerStep::Failed(Error::MalformedPayload),
        };
        let ghost run = step;
        let (stage, action) = decide_received(step, self.request.pending());
        self.stage = stage;
        assert(old(self).held().unwrap().receives(
            *old(data),
            old(self)@.request,
            local@,
            run,
            *data,
        ) && old(self)@.expects(Event::Received(receive_outline(run), self@.request.pending)) && (
        self@, action@) == after_receive(old(self)@, receive_outline(run), self@.request.pending)
            && (run is Complete && run->Complete_0@.len() > 0 ==> action == Action::Deliver(
            run->Complete_0,
        )));
        action
    }

    /// Takes the outcome of the deliveries.
    pub fn delivered(&mut self, sent: bool) -> (r: Action<A::Outgoing>)
        requires
            old(self)@.awaited() == Awaited::Delivery,
        ensures
            (final(self)@, r@) == after_delivery(old(self)@, sent),
            final(self).held() == old(self).held(),
            old(self)@.wf(),
            final(self)@.wf(),
    {
        proof {
            use_type_invariant(&self.request);
            self.request.lemma_accounted();
        }
        self.stage = Stage::Done;
        if sent {
            Action::Acknowledge
        } else {
            Action::Reject(Error::DeliveryFailure)
        }
    }
}

/// Begins the handling of a request: makes sure the transport layer has
/// checked the body against its digest, reads the activity from the
/// body, checks its envelope and resolves its actor.
///
/// The action that comes back says what is to be done next; its outcome
/// is handed to the [`Inbox`] that comes with it, until the action is
/// [`Action::Acknowledge`] or [`Action::Reject`].
pub fn receive_activity<A, T>(
    digest_verified: bool,
    body: &[u8],
    token: String,
    local: &LocalInstance,
    data: &mut A::DataType,
) -> (r: (Inbox<A, T>, Action<A::Outgoing>)) where
    A: ActivityHandler,
    T: ApubObject<A::DataType> + Actor,

    ensures
        (r.0@, r.1@) == arrived::<A, T>(digest_verified, body@, token@, local@, *old(data)),
        match r.0.held() {
            Some(activity) => digest_verified && parsed_json(body@).is_some() && A::reads(
                parsed_json(body@).unwrap(),
                activity,
            ),
            None => r.1@ is Reject,
        },
        r.0@.wf(),
        *final(data) == *old(data),
{
    if !digest_verified {
        return (
            Inbox::refuse(token, local),
            Action::Reject(Error::SignatureVerificationError(SignatureFault::DigestNotVerified)),
        );
    }
    let doc = match Document::parse(body) {
        Err(e) => { return (Inbox::refuse(token, local), Action::Reject(e)); },
        Ok(doc) => doc,
    };
    match A::from_json(&doc) {
        None => (Inbox::refuse(token, local), Action::Reject(Error::MalformedPayload)),
        Some(activity) => Inbox::begin(activity, token, local, data),
    }
}

} // verus!
