//! What holds of every request, whatever the remote side sends and
//! however the outside work ends.

use vstd::prelude::*;

use crate::error::{Error, UrlFault};
use crate::instance::LocalInstanceView;
use crate::json::parsed_json;
use crate::object_id::{ResolutionView, answer_reading, resolution, starts_fetch};
use crate::person::PersonView;
use crate::protocol::{
    ActionView,
    Event,
    InboxView,
    Stage,
    StepView,
    after_receive,
    after_verify,
    arrived,
    begun,
    initial,
    next,
};
use crate::request::{FetchOutcomeView, FetchedView, RequestView, lemma_first_answer_push};
use crate::signatures::SignatureCheck;
use crate::traits::{ActivityHandler, Actor, ApubObject};
use crate::url::UrlView;
use crate::utils::url_validity;

verus! {

/// An event, with the application's data as it is when the event comes.
pub struct Moment<D> {
    pub event: Event,
    pub data: D,
}

/// Whether every event of a run is one that the inbox waits for when it
/// comes.
pub open spec fn in_order<D, T: ApubObject<D> + Actor>(s: InboxView, run: Seq<Moment<D>>) -> bool
    decreases run.len(),
{
    run.len() == 0 || (s.expects(run[0].event) && in_order::<D, T>(
        next::<D, T>(s, run[0].event, run[0].data).0,
        run.drop_first(),
    ))
}

/// The state in which a run leaves the inbox.
pub open spec fn state_after<D, T: ApubObject<D> + Actor>(
    s: InboxView,
    run: Seq<Moment<D>>,
) -> InboxView
    decreases run.len(),
{
    if run.len() == 0 {
        s
    } else {
        state_after::<D, T>(next::<D, T>(s, run[0].event, run[0].data).0, run.drop_first())
    }
}

/// How many fetches the inbox asks for in the course of a run.
pub open spec fn fetches_in<D, T: ApubObject<D> + Actor>(s: InboxView, run: Seq<Moment<D>>) -> nat
    decreases run.len(),
{
    if run.len() == 0 {
        0
    } else {
        let (to, action) = next::<D, T>(s, run[0].event, run[0].data);
        (if action is Fetch {
            1nat
        } else {
            0nat
        }) + fetches_in::<D, T>(to, run.drop_first())
    }
}

/// How far a stage is from the end.
pub open spec fn stages_left(stage: Stage) -> nat {
    match stage {
        Stage::ResolvingActor => 5,
        Stage::VerifyingSignature => 4,
        Stage::Verifying => 3,
        Stage::Receiving => 2,
        Stage::Delivering => 1,
        Stage::Done => 0,
    }
}

/// A bound on the number of events that a request can still take.
pub open spec fn events_left(s: InboxView) -> nat {
    let waiting = if s.request.pending.is_some() {
        1nat
    } else {
        0nat
    };
    stages_left(s.stage) * (2 * s.request.limit + 2) + 2 * s.request.remaining + waiting
}

/// A request whose activity names an actor under another authority than
/// its own identifier is refused for that, before anything is resolved:
/// no fetch is asked for and none is pending.
pub proof fn lemma_domain_mismatch_is_refused<D, T: ApubObject<D> + Actor>(
    id: UrlView,
    actor: UrlView,
    token: Seq<char>,
    local: LocalInstanceView,
    data: D,
)
    requires
        id.authority() != actor.authority(),
    ensures
        begun::<D, T>(id, actor, token, local, data).1 == ActionView::Reject(Error::DomainMismatch),
        begun::<D, T>(id, actor, token, local, data).0.stage == Stage::Done,
        begun::<D, T>(id, actor, token, local, data).0.request.issued() == 0,
        begun::<D, T>(id, actor, token, local, data).0.request.pending.is_none(),
{
}

/// The same, of a request as it arrives: whatever body describes such an
/// activity is refused for the mismatch.
pub proof fn lemma_mismatched_body_is_refused<A, T>(
    body: Seq<u8>,
    token: Seq<char>,
    local: LocalInstanceView,
    data: A::DataType,
) where A: ActivityHandler, T: ApubObject<A::DataType> + Actor
    requires
        parsed_json(body).is_some(),
        A::envelope(parsed_json(body).unwrap()) matches Some(envelope) && envelope.0.authority()
            != envelope.1.authority(),
    ensures
        arrived::<A, T>(true, body, token, local, data).1 == ActionView::Reject(
            Error::DomainMismatch,
        ),
        arrived::<A, T>(true, body, token, local, data).0.stage == Stage::Done,
        arrived::<A, T>(true, body, token, local, data).0.request.issued() == 0,
{
}

/// A request whose activity bears an identifier of this instance is
/// refused before anything is resolved. Where the envelope passes the
/// checks that come first, it is refused as being of local origin.
pub proof fn lemma_local_origin_is_refused<D, T: ApubObject<D> + Actor>(
    id: UrlView,
    actor: UrlView,
    token: Seq<char>,
    local: LocalInstanceView,
    data: D,
)
    requires
        local.is_local_url(id),
    ensures
        begun::<D, T>(id, actor, token, local, data).1 is Reject,
        begun::<D, T>(id, actor, token, local, data).0.stage == Stage::Done,
        begun::<D, T>(id, actor, token, local, data).0.request.issued() == 0,
        begun::<D, T>(id, actor, token, local, data).0.request.pending.is_none(),
        id.authority() == actor.authority() && url_validity(id, local.settings) is Ok ==> begun::<
            D,
            T,
        >(id, actor, token, local, data).1 == ActionView::Reject(
            Error::UrlVerificationError(UrlFault::LocalOrigin),
        ),
{
}

/// The first move of a request leaves the inbox in order, and has asked
/// for one fetch exactly where its action is a fetch.
pub proof fn lemma_first_move<D, T: ApubObject<D> + Actor>(
    id: UrlView,
    actor: UrlView,
    token: Seq<char>,
    local: LocalInstanceView,
    data: D,
)
    ensures
        begun::<D, T>(id, actor, token, local, data).0.wf(),
        begun::<D, T>(id, actor, token, local, data).0.request.limit
            == local.settings.http_fetch_limit,
        begun::<D, T>(id, actor, token, local, data).0.request.issued() == if begun::<D, T>(
            id,
            actor,
            token,
            local,
            data,
        ).1 is Fetch {
            1nat
        } else {
            0nat
        },
{
    let s = initial(id, actor, token, local);
    assert(s.request.answer_for(actor).is_none());
}

/// Each move keeps the inbox in order and the budget's limit, spends one
/// unit of the budget exactly where its action is a fetch, and brings
/// the request nearer to its end.
pub proof fn lemma_move<D, T: ApubObject<D> + Actor>(s: InboxView, event: Event, data: D)
    requires
        s.wf(),
        s.expects(event),
    ensures
        next::<D, T>(s, event, data).0.wf(),
        next::<D, T>(s, event, data).0.request.limit == s.request.limit,
        next::<D, T>(s, event, data).0.request.issued() == s.request.issued() + if next::<D, T>(
            s,
            event,
            data,
        ).1 is Fetch {
            1nat
        } else {
            0nat
        },
        events_left(next::<D, T>(s, event, data).0) < events_left(s),
{
    let limit = s.request.limit;
    match event {
        Event::Fetched(outcome) => {
            lemma_first_answer_push(
                s.request.answers,
                FetchedView { url: s.request.pending.unwrap(), outcome },
                s.request.pending.unwrap(),
            );
        },
        _ => {},
    }
    let to = next::<D, T>(s, event, data).0;
    assert(to.request.remaining <= limit);
    assert(stages_left(to.stage) <= stages_left(s.stage));
    if stages_left(to.stage) < stages_left(s.stage) {
        assert(stages_left(to.stage) * (2 * limit + 2) + (2 * limit + 2) <= stages_left(s.stage)
            * (2 * limit + 2)) by (nonlinear_arith)
            requires
                stages_left(to.stage) + 1 <= stages_left(s.stage),
        ;
    }
}

/// However a request runs on, the fetches that the inbox asks for are
/// paid for by the budget: together with those asked for before they
/// never exceed the limit. And the run is no longer than the bound on
/// the events left, so that no chain of objects, however deep or
/// cyclic, keeps a request going.
pub proof fn lemma_fetches_within_budget<D, T: ApubObject<D> + Actor>(
    s: InboxView,
    run: Seq<Moment<D>>,
)
    requires
        s.wf(),
        in_order::<D, T>(s, run),
    ensures
        state_after::<D, T>(s, run).wf(),
        state_after::<D, T>(s, run).request.limit == s.request.limit,
        s.request.issued() + fetches_in::<D, T>(s, run) == state_after::<D, T>(
            s,
            run,
        ).request.issued(),
        s.request.issued() + fetches_in::<D, T>(s, run) <= s.request.limit,
        run.len() <= events_left(s),
    decreases run.len(),
{
    if run.len() > 0 {
        lemma_move::<D, T>(s, run[0].event, run[0].data);
        lemma_fetches_within_budget::<D, T>(
            next::<D, T>(s, run[0].event, run[0].data).0,
            run.drop_first(),
        );
    }
}

/// Of a whole request: the fetches asked for, the first move's included,
/// never exceed the limit that the instance has set.
pub proof fn lemma_request_within_budget<D, T: ApubObject<D> + Actor>(
    id: UrlView,
    actor: UrlView,
    token: Seq<char>,
    local: LocalInstanceView,
    data: D,
    run: Seq<Moment<D>>,
)
    requires
        in_order::<D, T>(begun::<D, T>(id, actor, token, local, data).0, run),
    ensures
        (if begun::<D, T>(id, actor, token, local, data).1 is Fetch {
            1nat
        } else {
            0nat
        }) + fetches_in::<D, T>(begun::<D, T>(id, actor, token, local, data).0, run)
            <= local.settings.http_fetch_limit,
{
    lemma_first_move::<D, T>(id, actor, token, local, data);
    lemma_fetches_within_budget::<D, T>(begun::<D, T>(id, actor, token, local, data).0, run);
}

/// With the budget used up, resolving an object that is neither stored
/// nor answered fails at once, and no fetch is asked for.
pub proof fn lemma_exhausted_budget_fails<D, T: ApubObject<D>>(
    data: D,
    request: RequestView,
    url: UrlView,
)
    requires
        request.remaining == 0,
        request.pending.is_none(),
        T::stored(data, url).is_none(),
        request.answer_for(url).is_none(),
    ensures
        resolution::<D, T>(data, request, url) == ResolutionView::<T::V>::Failed(
            Error::RecursionLimitExceeded,
        ),
        !starts_fetch::<D, T>(data, request, url),
{
}

/// The answer to the fetch of a URL is the one found for that URL from
/// then on, whatever is asked for and answered later.
pub proof fn lemma_answer_is_kept(request: RequestView, url: UrlView, later: FetchOutcomeView)
    ensures
        request.pending == Some(url) && request.answer_for(url).is_none() ==> request.answered(
            later,
        ).answer_for(url) == Some(later),
        request.answer_for(url).is_some() ==> request.asked(url).answer_for(url)
            == request.answer_for(url),
        request.answer_for(url).is_some() && request.pending.is_some() ==> request.answered(
            later,
        ).answer_for(url) == request.answer_for(url),
{
    if request.pending.is_some() {
        lemma_first_answer_push(
            request.answers,
            FetchedView { url: request.pending.unwrap(), outcome: later },
            url,
        );
    }
}

/// Once a fetch has brought an object, resolving its URL again asks for
/// no further fetch and leaves the budget as it is: the object comes
/// from the store, or, where the store holds nothing under the URL, from
/// the answer.
pub proof fn lemma_resolved_again_without_fetch<D, T: ApubObject<D>>(
    data: D,
    request: RequestView,
    url: UrlView,
    outcome: FetchOutcomeView,
)
    requires
        request.answer_for(url) == Some(outcome),
        answer_reading::<D, T>(outcome) is Ok,
    ensures
        !starts_fetch::<D, T>(data, request, url),
        resolution::<D, T>(data, request, url) is Ready,
        T::stored(data, url).is_none() ==> resolution::<D, T>(data, request, url)
            == ResolutionView::Ready(answer_reading::<D, T>(outcome)->Ok_0),
{
}

/// A signature that is not valid ends the request with that fault.
pub proof fn lemma_bad_signature_ends_request(s: InboxView, check: SignatureCheck)
    requires
        check != SignatureCheck::Valid,
    ensures
        crate::protocol::after_signature(s, check).0.stage == Stage::Done,
        crate::protocol::after_signature(s, check).1 is Reject,
        crate::protocol::after_signature(s, check).1->Reject_0 is SignatureVerificationError,
{
}

/// Whether an event is a run of the activity's `verify` or `receive`.
pub open spec fn runs_handler(event: Event) -> bool {
    event is Verified || event is Received
}

/// Whether a stage comes before the request is authenticated.
pub open spec fn before_authentication(stage: Stage) -> bool {
    stage == Stage::ResolvingActor || stage == Stage::VerifyingSignature
}

/// In a request that has not been authenticated, and in whose run no
/// signature is found valid, the activity's `verify` and `receive` never
/// run: the signature check comes strictly before them.
pub proof fn lemma_no_handler_without_valid_signature<D, T: ApubObject<D> + Actor>(
    s: InboxView,
    run: Seq<Moment<D>>,
)
    requires
        s.wf(),
        in_order::<D, T>(s, run),
        before_authentication(s.stage) || s.stage == Stage::Done,
        forall|i: int|
            0 <= i < run.len() ==> (#[trigger] run[i]).event != Event::SignatureChecked(
                SignatureCheck::Valid,
            ),
    ensures
        forall|i: int| 0 <= i < run.len() ==> !runs_handler((#[trigger] run[i]).event),
        before_authentication(state_after::<D, T>(s, run).stage) || state_after::<D, T>(
            s,
            run,
        ).stage == Stage::Done,
    decreases run.len(),
{
    if run.len() > 0 {
        let to = next::<D, T>(s, run[0].event, run[0].data).0;
        lemma_move::<D, T>(s, run[0].event, run[0].data);
        assert(run[0].event != Event::SignatureChecked(SignatureCheck::Valid));
        let rest = run.drop_first();
        assert forall|i: int| 0 <= i < rest.len() implies (#[trigger] rest[i]).event
            != Event::SignatureChecked(SignatureCheck::Valid) by {
            assert(rest[i] == run[i + 1]);
        }
        lemma_no_handler_without_valid_signature::<D, T>(to, rest);
        assert forall|i: int| 0 <= i < run.len() implies !runs_handler(
            (#[trigger] run[i]).event,
        ) by {
            if i > 0 {
                assert(run[i] == rest[i - 1]);
            }
        }
    }
}

/// Whether an event is a run of `verify` that completed.
pub open spec fn completes_verify(event: Event) -> bool {
    event matches Event::Verified(step, _) && step is Complete
}

/// Whether an event is a run of `receive` that completed.
pub open spec fn completes_receive(event: Event) -> bool {
    event matches Event::Received(step, _) && step is Complete
}

/// Whether a run brings the inbox to acknowledge the request.
pub open spec fn acknowledged<D, T: ApubObject<D> + Actor>(
    s: InboxView,
    run: Seq<Moment<D>>,
) -> bool
    decreases run.len(),
{
    run.len() > 0 && (next::<D, T>(s, run[0].event, run[0].data).1 is Acknowledge || acknowledged::<
        D,
        T,
    >(next::<D, T>(s, run[0].event, run[0].data).0, run.drop_first()))
}

/// A request that is answered takes no further event.
pub proof fn lemma_answered_is_final<D, T: ApubObject<D> + Actor>(s: InboxView, run: Seq<Moment<D>>)
    requires
        s.stage == Stage::Done,
        in_order::<D, T>(s, run),
    ensures
        run.len() == 0,
        !acknowledged::<D, T>(s, run),
{
}

/// Where `verify` or `receive` fails, its error is the answer to the
/// request, and the request is over.
pub proof fn lemma_handler_failure_is_the_result(s: InboxView, e: Error, asked: Option<UrlView>)
    ensures
        after_verify(s, StepView::Failed(e), asked) == (s.finished(), ActionView::Reject(e)),
        after_receive(s, StepView::Failed(e), asked) == (s.finished(), ActionView::Reject(e)),
{
}

/// A request that waits for `receive` is acknowledged only after a run
/// of `receive` has completed.
pub proof fn lemma_acknowledged_after_receive<D, T: ApubObject<D> + Actor>(
    s: InboxView,
    run: Seq<Moment<D>>,
)
    requires
        s.wf(),
        in_order::<D, T>(s, run),
        s.stage == Stage::Receiving,
        acknowledged::<D, T>(s, run),
    ensures
        exists|j: int| 0 <= j < run.len() && completes_receive((#[trigger] run[j]).event),
    decreases run.len(),
{
    let (to, action) = next::<D, T>(s, run[0].event, run[0].data);
    let rest = run.drop_first();
    lemma_move::<D, T>(s, run[0].event, run[0].data);
    if completes_receive(run[0].event) {
        assert(completes_receive(run[0].event));
    } else {
        if to.stage == Stage::Done {
            lemma_answered_is_final::<D, T>(to, rest);
        }
        assert(acknowledged::<D, T>(to, rest));
        lemma_acknowledged_after_receive::<D, T>(to, rest);
        let j = choose|j: int| 0 <= j < rest.len() && completes_receive((#[trigger] rest[j]).event);
        assert(rest[j] == run[j + 1]);
        assert(completes_receive(run[j + 1].event));
    }
}

/// A request is acknowledged only after a run of `verify` has completed
/// and, later, a run of `receive` has completed: success is the outcome
/// of the last stage alone.
pub proof fn lemma_acknowledged_after_verify_and_receive<D, T: ApubObject<D> + Actor>(
    s: InboxView,
    run: Seq<Moment<D>>,
)
    requires
        s.wf(),
        in_order::<D, T>(s, run),
        before_authentication(s.stage) || s.stage == Stage::Verifying,
        acknowledged::<D, T>(s, run),
    ensures
        exists|i: int, j: int|
            0 <= i < j < run.len() && completes_verify((#[trigger] run[i]).event)
                && completes_receive((#[trigger] run[j]).event),
    decreases run.len(),
{
    let (to, action) = next::<D, T>(s, run[0].event, run[0].data);
    let rest = run.drop_first();
    lemma_move::<D, T>(s, run[0].event, run[0].data);
    if to.stage == Stage::Done {
        lemma_answered_is_final::<D, T>(to, rest);
    }
    assert(acknowledged::<D, T>(to, rest));
    if completes_verify(run[0].event) {
        lemma_acknowledged_after_receive::<D, T>(to, rest);
        let j = choose|j: int| 0 <= j < rest.len() && completes_receive((#[trigger] rest[j]).event);
        assert(rest[j] == run[j + 1]);
        assert(completes_verify(run[0].event) && completes_receive(run[j + 1].event));
    } else {
        lemma_acknowledged_after_verify_and_receive::<D, T>(to, rest);
        let (i, j) = choose|i: int, j: int|
            0 <= i < j < rest.len() && completes_verify((#[trigger] rest[i]).event)
                && completes_receive((#[trigger] rest[j]).event);
        assert(rest[i] == run[i + 1]);
        assert(rest[j] == run[j + 1]);
        assert(completes_verify(run[i + 1].event) && completes_receive(run[j + 1].event));
    }
}

/// A follower that is appended is among the followers once more than
/// before: exactly once where it was not among them.
pub proof fn lemma_followed_once_more(person: PersonView, follower: UrlView)
    ensures
        person.followed_by(follower).followers.to_multiset().count(follower)
            == person.followers.to_multiset().count(follower) + 1,
        !person.followers.contains(follower) ==> person.followed_by(
            follower,
        ).followers.to_multiset().count(follower) == 1,
{
    vstd::seq_lib::to_multiset_build(person.followers, follower);
    vstd::seq_lib::to_multiset_contains(person.followers, follower);
}

} // verus!
