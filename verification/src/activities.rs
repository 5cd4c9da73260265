//! The activity kinds that this crate brings along: a request to follow,
//! and its acceptance.

use vstd::prelude::*;

use crate::database::{Database, person_at};
use crate::error::Error;
use crate::instance::{LocalInstance, LocalInstanceView};
use crate::json::{Document, Place, is_kind, member_url, under};
use crate::object_id::{ObjectId, Resolution, ResolutionView, resolution, stores_object};
use crate::person::{Person, PersonView};
use crate::request::{RequestData, RequestView};
use crate::traits::{
    ActivityHandler,
    ApubObject,
    Delivery,
    HandlerStep,
    preferred_inbox,
    shared_inbox_or_inbox,
};
use crate::url::{Url, UrlView};

verus! {

/// The request of an actor to follow a person.
#[derive(Debug, PartialEq, Eq)]
pub struct Follow {
    /// Who asks to follow.
    pub actor: ObjectId<Person>,
    /// Who is to be followed.
    pub object: ObjectId<Person>,
    /// The identifier of the request.
    pub id: Url,
}

/// What a [`Follow`] stands for.
pub struct FollowView {
    pub actor: UrlView,
    pub object: UrlView,
    pub id: UrlView,
}

impl View for Follow {
    type V = FollowView;

    open spec fn view(&self) -> FollowView {
        FollowView { actor: self.actor@, object: self.object@, id: self.id@ }
    }
}

impl Clone for Follow {
    fn clone(&self) -> (r: Follow)
        ensures
            r@ == self@,
    {
        Follow { actor: self.actor.clone(), object: self.object.clone(), id: self.id.clone() }
    }
}

/// The acceptance of a request to follow.
#[derive(Debug, PartialEq, Eq)]
pub struct Accept {
    /// Who accepts: the person that is followed.
    pub actor: ObjectId<Person>,
    /// The request that is accepted.
    pub object: Follow,
    /// The identifier of the acceptance.
    pub id: Url,
}

/// What an [`Accept`] stands for.
pub struct AcceptView {
    pub actor: UrlView,
    pub object: FollowView,
    pub id: UrlView,
}

impl View for Accept {
    type V = AcceptView;

    open spec fn view(&self) -> AcceptView {
        AcceptView { actor: self.actor@, object: self.object@, id: self.id@ }
    }
}

impl Accept {
    /// The acceptance of a request by the person that is followed.
    pub fn new(actor: ObjectId<Person>, object: Follow, id: Url) -> (r: Accept)
        ensures
            r@ == (AcceptView { actor: actor@, object: object@, id: id@ }),
    {
        Accept { actor, object, id }
    }

    /// Reads an acceptance from a document.
    pub fn from_document(doc: &Document) -> (r: Option<Accept>)
        ensures
            match r {
                Some(accept) => accept_of(doc@) == Some(accept@),
                None => accept_of(doc@).is_none(),
            },
    {
        if !doc.has_kind("Accept") {
            return None;
        }
        let id = match doc.url("id") {
            Some(url) => url,
            None => { return None; },
        };
        let actor = match doc.url("actor") {
            Some(url) => url,
            None => { return None; },
        };
        let object = match doc.member("object") {
            Some(inner) => match Follow::from_document(&inner) {
                Some(follow) => follow,
                None => { return None; },
            },
            None => {
                assert(follow_of(under(doc@, Place::Key("object"@))).is_none());
                return None;
            },
        };
        Some(Accept { actor: ObjectId::new(actor), object, id })
    }
}

/// The request to follow that a document describes: it declares the kind
/// `Follow` and holds URLs under `id`, `actor` and `object`.
pub open spec fn follow_of(doc: Map<Seq<Place>, Seq<char>>) -> Option<FollowView> {
    if is_kind(doc, "Follow"@) && member_url(doc, "id"@).is_some() && member_url(
        doc,
        "actor"@,
    ).is_some() && member_url(doc, "object"@).is_some() {
        Some(
            FollowView {
                actor: member_url(doc, "actor"@).unwrap(),
                object: member_url(doc, "object"@).unwrap(),
                id: member_url(doc, "id"@).unwrap(),
            },
        )
    } else {
        None
    }
}

/// The acceptance that a document describes: it declares the kind
/// `Accept`, holds URLs under `id` and `actor`, and under `object` the
/// request to follow that is accepted.
pub open spec fn accept_of(doc: Map<Seq<Place>, Seq<char>>) -> Option<AcceptView> {
    if is_kind(doc, "Accept"@) && member_url(doc, "id"@).is_some() && member_url(
        doc,
        "actor"@,
    ).is_some() && follow_of(under(doc, Place::Key("object"@))).is_some() {
        Some(
            AcceptView {
                actor: member_url(doc, "actor"@).unwrap(),
                object: follow_of(under(doc, Place::Key("object"@))).unwrap(),
                id: member_url(doc, "id"@).unwrap(),
            },
        )
    } else {
        None
    }
}

/// Whether a store holds a local user under a URL.
pub open spec fn is_local_user(persons: Map<UrlView, PersonView>, url: UrlView) -> bool {
    persons.contains_key(url) && persons[url].local
}

/// The store as the resolution of a follower leaves it: with the
/// follower in it where it was read from an answer and the policy says
/// that fetched objects are stored.
pub open spec fn with_follower_known(
    data: Database,
    request: RequestView,
    local: LocalInstanceView,
    follower_url: UrlView,
    follower: PersonView,
) -> Map<UrlView, PersonView> {
    if stores_object::<Database, Person>(
        data,
        request,
        follower_url,
        local.settings.store_fetched,
    ) {
        data@.insert(follower_url, follower)
    } else {
        data@
    }
}

impl Follow {
    /// A request of `actor` to follow `object`.
    pub fn new(actor: ObjectId<Person>, object: ObjectId<Person>, id: Url) -> (r: Follow)
        ensures
            r@ == (FollowView { actor: actor@, object: object@, id: id@ }),
    {
        Follow { actor, object, id }
    }

    /// Reads a request to follow from a document.
    pub fn from_document(doc: &Document) -> (r: Option<Follow>)
        ensures
            match r {
                Some(follow) => follow_of(doc@) == Some(follow@),
                None => follow_of(doc@).is_none(),
            },
    {
        if !doc.has_kind("Follow") {
            return None;
        }
        let id = match doc.url("id") {
            Some(url) => url,
            None => { return None; },
        };
        let actor = match doc.url("actor") {
            Some(url) => url,
            None => { return None; },
        };
        let object = match doc.url("object") {
            Some(url) => url,
            None => { return None; },
        };
        Some(Follow { actor: ObjectId::new(actor), object: ObjectId::new(object), id })
    }
}

impl ActivityHandler for Follow {
    type DataType = Database;

    type Outgoing = Accept;

    open spec fn id_spec(&self) -> UrlView {
        self@.id
    }

    open spec fn actor_spec(&self) -> UrlView {
        self@.actor
    }

    open spec fn envelope(doc: Map<Seq<Place>, Seq<char>>) -> Option<(UrlView, UrlView)> {
        match follow_of(doc) {
            Some(follow) => Some((follow.id, follow.actor)),
            None => None,
        }
    }

    open spec fn reads(doc: Map<Seq<Place>, Seq<char>>, activity: Follow) -> bool {
        follow_of(doc) == Some(activity@)
    }

    /// A request to follow is in order exactly where the person to be
    /// followed is a user of this instance. The check changes nothing.
    open spec fn verifies(
        &self,
        before: Database,
        request: RequestView,
        local: LocalInstanceView,
        step: HandlerStep<()>,
        after: Database,
    ) -> bool {
        &&& after@ == before@
        &&& if is_local_user(before@, self@.object) {
            step is Complete
        } else {
            step matches HandlerStep::Failed(e) && e == Error::SemanticVerificationFailure
        }
    }

    /// The follower is resolved. While that waits for a fetch nothing
    /// changes; where it fails, its error is the result. Then, where the
    /// person to be followed is a user of this instance, the follower is
    /// appended to that person's followers, and one acceptance by that
    /// person, which refers to this request and bears an identifier of
    /// this instance made from the request's token, goes to the
    /// follower's shared inbox, or to its own where it has no shared one.
    open spec fn receives(
        &self,
        before: Database,
        request: RequestView,
        local: LocalInstanceView,
        step: HandlerStep<Vec<Delivery<Accept>>>,
        after: Database,
    ) -> bool {
        match resolution::<Database, Person>(before, request, self@.actor) {
            ResolutionView::Pending => step is Suspended && after@ == before@,
            ResolutionView::Failed(e) => {
                &&& step matches HandlerStep::Failed(x)
                &&& x == e
                &&& after@ == before@
            },
            ResolutionView::Ready(follower) => {
                let known = with_follower_known(before, request, local, self@.actor, follower);
                if is_local_user(known, self@.object) {
                    &&& after@ == known.insert(
                        self@.object,
                        known[self@.object].followed_by(self@.actor),
                    )
                    &&& step matches HandlerStep::Complete(replies)
                    &&& replies@.len() == 1
                    &&& replies@[0].inbox@ == preferred_inbox::<Person>(follower)
                    &&& replies@[0].activity@ == (AcceptView {
                        actor: known[self@.object].ap_id,
                        object: self@,
                        id: local.object_id(request.token),
                    })
                } else {
                    &&& after@ == known
                    &&& step matches HandlerStep::Failed(x)
                    &&& x == Error::SemanticVerificationFailure
                }
            },
        }
    }

    fn id(&self) -> (r: &Url) {
        &self.id
    }

    fn actor(&self) -> (r: &Url) {
        self.actor.inner()
    }

    fn from_json(doc: &Document) -> (r: Option<Follow>)
        ensures
            match r {
                Some(follow) => follow_of(doc@) == Some(follow@),
                None => follow_of(doc@).is_none(),
            },
    {
        Follow::from_document(doc)
    }

    fn verify(&self, data: &mut Database, request: &mut RequestData, local: &LocalInstance) -> (r:
        HandlerStep<()>)
    {
        match data.get(self.object.inner()) {
            Some(person) => {
                if person.local {
                    HandlerStep::Complete(())
                } else {
                    HandlerStep::Failed(Error::SemanticVerificationFailure)
                }
            },
            None => HandlerStep::Failed(Error::SemanticVerificationFailure),
        }
    }

    fn receive(&self, data: &mut Database, request: &mut RequestData, local: &LocalInstance) -> (r:
        HandlerStep<Vec<Delivery<Accept>>>)
    {
        let follower = match self.actor.dereference(data, request, local) {
            Resolution::Ready(person) => person,
            Resolution::Pending => { return HandlerStep::Suspended; },
            Resolution::Failed(e) => { return HandlerStep::Failed(e); },
        };
        proof {
            let known = with_follower_known(
                *old(data),
                old(request)@,
                local@,
                self@.actor,
                follower@,
            );
            assert forall|u: UrlView| person_at(data@, u) == person_at(known, u) by {
                assert(Person::stored(*data, u) == person_at(data@, u));
            }
            assert(data@ =~= known) by {
                assert forall|u: UrlView| data@.contains_key(u) == known.contains_key(u) by {
                    assert(person_at(data@, u) == person_at(known, u));
                }
                assert forall|u: UrlView| data@.contains_key(u) implies data@[u] == known[u] by {
                    assert(person_at(data@, u) == person_at(known, u));
                }
            }
        }
        let target = match data.get(self.object.inner()) {
            Some(person) => person,
            None => { return HandlerStep::Failed(Error::SemanticVerificationFailure); },
        };
        if !target.local {
            return HandlerStep::Failed(Error::SemanticVerificationFailure);
        }
        data.add_follower(self.object.inner(), self.actor.inner());
        let id = local.generate_object_id(request.token().as_str());
        let accept = Accept::new(ObjectId::new(target.ap_id), self.clone(), id);
        let mut replies: Vec<Delivery<Accept>> = Vec::new();
        replies.push(Delivery { inbox: shared_inbox_or_inbox(&follower), activity: accept });
        HandlerStep::Complete(replies)
    }
}

impl ActivityHandler for Accept {
    type DataType = Database;

    type Outgoing = Accept;

    open spec fn id_spec(&self) -> UrlView {
        self@.id
    }

    open spec fn actor_spec(&self) -> UrlView {
        self@.actor
    }

    open spec fn envelope(doc: Map<Seq<Place>, Seq<char>>) -> Option<(UrlView, UrlView)> {
        match accept_of(doc) {
            Some(accept) => Some((accept.id, accept.actor)),
            None => None,
        }
    }

    open spec fn reads(doc: Map<Seq<Place>, Seq<char>>, activity: Accept) -> bool {
        accept_of(doc) == Some(activity@)
    }

    /// An acceptance has no check of its own.
    open spec fn verifies(
        &self,
        before: Database,
        request: RequestView,
        local: LocalInstanceView,
        step: HandlerStep<()>,
        after: Database,
    ) -> bool {
        after == before && step is Complete
    }

    /// An acceptance is taken note of: nothing changes and nothing is
    /// sent.
    open spec fn receives(
        &self,
        before: Database,
        request: RequestView,
        local: LocalInstanceView,
        step: HandlerStep<Vec<Delivery<Accept>>>,
        after: Database,
    ) -> bool {
        &&& after == before
        &&& step matches HandlerStep::Complete(replies)
        &&& replies@.len() == 0
    }

    fn id(&self) -> (r: &Url) {
        &self.id
    }

    fn actor(&self) -> (r: &Url) {
        self.actor.inner()
    }

    fn from_json(doc: &Document) -> (r: Option<Accept>) {
        Accept::from_document(doc)
    }

    fn verify(&self, data: &mut Database, request: &mut RequestData, local: &LocalInstance) -> (r:
        HandlerStep<()>) {
        HandlerStep::Complete(())
    }

    fn receive(&self, data: &mut Database, request: &mut RequestData, local: &LocalInstance) -> (r:
        HandlerStep<Vec<Delivery<Accept>>>) {
        HandlerStep::Complete(Vec::new())
    }
}

} // verus!
