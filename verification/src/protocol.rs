//! The inbox as a state machine over plain values: its states, the events
//! that move it, and the action that each move asks for.

use vstd::prelude::*;

use crate::error::{Error, SignatureFault, UrlFault};
use crate::instance::LocalInstanceView;
use crate::json::parsed_json;
use crate::object_id::{ResolutionView, resolution};
use crate::request::{FetchOutcomeView, RequestView};
use crate::signatures::{SignatureCheck, signature_verdict};
use crate::traits::{ActivityHandler, Actor, ApubObject};
use crate::url::UrlView;
use crate::utils::url_validity;

verus! {

/// Where the handling of a request stands.
#[derive(Clone, Copy, Debug, PartialEq, Eq, Structural)]
pub enum Stage {
    /// The actor is being fetched.
    ResolvingActor,
    /// The signature is being checked against the actor's key.
    VerifyingSignature,
    /// The activity's own check is to run, or waits for a fetch.
    Verifying,
    /// The activity is to be applied, or waits for a fetch.
    Receiving,
    /// The replies are being delivered.
    Delivering,
    /// The request is answered.
    Done,
}

/// What an inbox waits for.
#[derive(Clone, Copy, Debug, PartialEq, Eq, Structural)]
pub enum Awaited {
    /// The answer to the pending fetch: `fetched`.
    Answer,
    /// The outcome of the signature check: `signature_checked`.
    SignatureCheck,
    /// A run of the activity's own check: `run_verify`.
    Verify,
    /// A run that applies the activity: `run_receive`.
    Receive,
    /// The outcome of the deliveries: `delivered`.
    Delivery,
    /// Nothing: the request is answered.
    Nothing,
}

/// What the inbox asks to be done next.
pub enum ActionView {
    /// Fetch the object under a URL and hand back the answer.
    Fetch(UrlView),
    /// Check the signature of the request against a key.
    VerifySignature(Seq<char>),
    /// Run the activity's own check.
    Verify,
    /// Apply the activity.
    Receive,
    /// Send the replies, to these inboxes in this order.
    Deliver(Seq<UrlView>),
    /// Answer the request with success.
    Acknowledge,
    /// Answer the request with an error.
    Reject(Error),
}

/// How a call of an activity's `verify` or `receive` ended, the replies
/// reduced to the inboxes to which they go.
pub enum StepView {
    Complete(Seq<UrlView>),
    Suspended,
    Failed(Error),
}

/// What moves the inbox on.
pub enum Event {
    /// The pending fetch was answered.
    Fetched(FetchOutcomeView),
    /// The signature was checked.
    SignatureChecked(SignatureCheck),
    /// The activity's own check was run; where it asked for a fetch, of
    /// this URL.
    Verified(StepView, Option<UrlView>),
    /// The activity was applied; where that asked for a fetch, of this URL.
    Received(StepView, Option<UrlView>),
    /// The replies were sent, or one of them could not be.
    Delivered(bool),
}

/// The state of the inbox for one request.
pub struct InboxView {
    pub stage: Stage,
    pub request: RequestView,
    /// Identifier and actor of the activity.
    pub envelope: Option<(UrlView, UrlView)>,
}

impl InboxView {
    /// The URL of the actor that claims to have sent the activity.
    pub open spec fn actor(self) -> UrlView {
        self.envelope.unwrap().1
    }

    /// The request accounts for its budget, and there is an activity as
    /// long as the request is not answered.
    pub open spec fn wf(self) -> bool {
        &&& self.request.wf()
        &&& self.stage != Stage::Done ==> self.envelope.is_some()
    }

    /// The same request, answered.
    pub open spec fn finished(self) -> InboxView {
        InboxView { stage: Stage::Done, ..self }
    }

    /// What the inbox waits for: the answer to a fetch as long as one is
    /// pending, else what its stage calls for.
    pub open spec fn awaited(self) -> Awaited {
        if self.envelope.is_none() {
            Awaited::Nothing
        } else {
            match self.stage {
                Stage::ResolvingActor => if self.request.pending.is_some() {
                    Awaited::Answer
                } else {
                    Awaited::Nothing
                },
                Stage::VerifyingSignature => Awaited::SignatureCheck,
                Stage::Verifying => if self.request.pending.is_some() {
                    Awaited::Answer
                } else {
                    Awaited::Verify
                },
                Stage::Receiving => if self.request.pending.is_some() {
                    Awaited::Answer
                } else {
                    Awaited::Receive
                },
                Stage::Delivering => Awaited::Delivery,
                Stage::Done => Awaited::Nothing,
            }
        }
    }

    /// Whether the inbox waits for an event.
    pub open spec fn expects(self, event: Event) -> bool {
        match event {
            Event::Fetched(_) => self.awaited() == Awaited::Answer,
            Event::SignatureChecked(_) => self.awaited() == Awaited::SignatureCheck,
            Event::Verified(step, asked) => self.awaited() == Awaited::Verify && handler_asked(
                self.request,
                step,
                asked,
            ),
            Event::Received(step, asked) => self.awaited() == Awaited::Receive && handler_asked(
                self.request,
                step,
                asked,
            ),
            Event::Delivered(_) => self.awaited() == Awaited::Delivery,
        }
    }
}

/// What a handler may have asked of the request: a fetch exactly where it
/// suspended, and then one that the budget granted.
pub open spec fn handler_asked(
    request: RequestView,
    step: StepView,
    asked: Option<UrlView>,
) -> bool {
    if step is Suspended {
        asked.is_some() && request.grants()
    } else {
        asked.is_none()
    }
}

/// The request after a handler ran on it.
pub open spec fn after_handler(request: RequestView, asked: Option<UrlView>) -> RequestView {
    match asked {
        Some(url) => request.asked(url),
        None => request,
    }
}

/// The checks on the envelope of an activity, in their order: identifier
/// and actor lie under one authority; the identifier is a valid URL; the
/// identifier is not of this instance.
pub open spec fn admission(id: UrlView, actor: UrlView, local: LocalInstanceView) -> Result<
    (),
    Error,
> {
    if id.authority() != actor.authority() {
        Err(Error::DomainMismatch)
    } else if url_validity(id, local.settings) is Err {
        url_validity(id, local.settings)
    } else if local.is_local_url(id) {
        Err(Error::UrlVerificationError(UrlFault::LocalOrigin))
    } else {
        Ok(())
    }
}

/// The state in which a request begins.
pub open spec fn initial(
    id: UrlView,
    actor: UrlView,
    token: Seq<char>,
    local: LocalInstanceView,
) -> InboxView {
    InboxView {
        stage: Stage::ResolvingActor,
        request: RequestView {
            limit: local.settings.http_fetch_limit as nat,
            remaining: local.settings.http_fetch_limit as nat,
            answers: Seq::empty(),
            pending: None,
            token,
        },
        envelope: Some((id, actor)),
    }
}

/// The state of a request that was refused before anything was resolved.
pub open spec fn refused(token: Seq<char>, local: LocalInstanceView) -> InboxView {
    InboxView {
        stage: Stage::Done,
        request: RequestView {
            limit: local.settings.http_fetch_limit as nat,
            remaining: local.settings.http_fetch_limit as nat,
            answers: Seq::empty(),
            pending: None,
            token,
        },
        envelope: None,
    }
}

/// The move that resolves the actor: from the store or an answer on to
/// the signature check with the actor's key; else a fetch; else refusal.
pub open spec fn actor_step<D, T: ApubObject<D> + Actor>(s: InboxView, data: D) -> (
    InboxView,
    ActionView,
) {
    match resolution::<D, T>(data, s.request, s.actor()) {
        ResolutionView::Ready(actor) => (
            InboxView { stage: Stage::VerifyingSignature, ..s },
            ActionView::VerifySignature(T::public_key_of(actor)),
        ),
        ResolutionView::Pending => (
            InboxView { stage: Stage::ResolvingActor, request: s.request.asked(s.actor()), ..s },
            ActionView::Fetch(s.actor()),
        ),
        ResolutionView::Failed(e) => (s.finished(), ActionView::Reject(e)),
    }
}

/// The first move for an activity with a given envelope.
pub open spec fn begun<D, T: ApubObject<D> + Actor>(
    id: UrlView,
    actor: UrlView,
    token: Seq<char>,
    local: LocalInstanceView,
    data: D,
) -> (InboxView, ActionView) {
    match admission(id, actor, local) {
        Err(e) => (initial(id, actor, token, local).finished(), ActionView::Reject(e)),
        Ok(_) => actor_step::<D, T>(initial(id, actor, token, local), data),
    }
}

/// The first move for a request as it arrives.
pub open spec fn arrived<A: ActivityHandler, T: ApubObject<A::DataType> + Actor>(
    digest_verified: bool,
    body: Seq<u8>,
    token: Seq<char>,
    local: LocalInstanceView,
    data: A::DataType,
) -> (InboxView, ActionView) {
    if !digest_verified {
        (
            refused(token, local),
            ActionView::Reject(
                Error::SignatureVerificationError(SignatureFault::DigestNotVerified),
            ),
        )
    } else {
        match parsed_json(body) {
            None => (refused(token, local), ActionView::Reject(Error::MalformedPayload)),
            Some(doc) => match A::envelope(doc) {
                None => (refused(token, local), ActionView::Reject(Error::MalformedPayload)),
                Some((id, actor)) => begun::<A::DataType, T>(id, actor, token, local, data),
            },
        }
    }
}

/// The move after a handler ran: on where it completed, a fetch where it
/// suspended, refusal where it failed.
pub open spec fn handler_step(
    s: InboxView,
    step: StepView,
    asked: Option<UrlView>,
    on: Stage,
    then: ActionView,
) -> (InboxView, ActionView) {
    match step {
        StepView::Complete(_) => (InboxView { stage: on, ..s }, then),
        StepView::Suspended => (
            InboxView { request: after_handler(s.request, asked), ..s },
            ActionView::Fetch(asked.unwrap()),
        ),
        StepView::Failed(e) => (s.finished(), ActionView::Reject(e)),
    }
}

/// The move after the pending fetch was answered: the answer is recorded;
/// the actor is resolved again, or the handler that waited is to run.
pub open spec fn after_fetch<D, T: ApubObject<D> + Actor>(
    s: InboxView,
    outcome: FetchOutcomeView,
    data: D,
) -> (InboxView, ActionView) {
    let answered = InboxView { request: s.request.answered(outcome), ..s };
    if s.stage == Stage::ResolvingActor {
        actor_step::<D, T>(answered, data)
    } else if s.stage == Stage::Verifying {
        (answered, ActionView::Verify)
    } else {
        (answered, ActionView::Receive)
    }
}

/// The move after the signature was checked: on to the activity's own
/// check where it is valid, refusal otherwise.
pub open spec fn after_signature(s: InboxView, check: SignatureCheck) -> (InboxView, ActionView) {
    match signature_verdict(check) {
        Ok(_) => (InboxView { stage: Stage::Verifying, ..s }, ActionView::Verify),
        Err(e) => (s.finished(), ActionView::Reject(e)),
    }
}

/// The move after the activity's own check ran.
pub open spec fn after_verify(s: InboxView, step: StepView, asked: Option<UrlView>) -> (
    InboxView,
    ActionView,
) {
    handler_step(s, step, asked, Stage::Receiving, ActionView::Receive)
}

/// The move after the activity was applied: with nothing to send the
/// request is acknowledged, else the replies are to be delivered.
pub open spec fn after_receive(s: InboxView, step: StepView, asked: Option<UrlView>) -> (
    InboxView,
    ActionView,
) {
    if step is Complete && step->Complete_0.len() == 0 {
        (s.finished(), ActionView::Acknowledge)
    } else {
        handler_step(s, step, asked, Stage::Delivering, ActionView::Deliver(step->Complete_0))
    }
}

/// The move after the replies were sent, or one of them could not be.
pub open spec fn after_delivery(s: InboxView, sent: bool) -> (InboxView, ActionView) {
    if sent {
        (s.finished(), ActionView::Acknowledge)
    } else {
        (s.finished(), ActionView::Reject(Error::DeliveryFailure))
    }
}

/// The move that an event causes.
pub open spec fn next<D, T: ApubObject<D> + Actor>(s: InboxView, event: Event, data: D) -> (
    InboxView,
    ActionView,
) {
    match event {
        Event::Fetched(outcome) => after_fetch::<D, T>(s, outcome, data),
        Event::SignatureChecked(check) => after_signature(s, check),
        Event::Verified(step, asked) => after_verify(s, step, asked),
        Event::Received(step, asked) => after_receive(s, step, asked),
        Event::Delivered(sent) => after_delivery(s, sent),
    }
}

} // verus!
