//! What an application supplies: the objects that can be resolved, the
//! actors among them, and the activity kinds.

use vstd::prelude::*;

use crate::error::Error;
use crate::instance::{LocalInstance, LocalInstanceView};
use crate::json::{Document, Place};
use crate::request::{RequestData, RequestView};
use crate::url::{Url, UrlView};

verus! {

/// An object that is known by a URL: it can be looked up in the
/// application's store, read from a fetched document, and written to the
/// store. `D` is the application's data.
pub trait ApubObject<D>: Sized + View {
    /// The object that the store holds under a URL and has not let expire.
    spec fn stored(data: D, url: UrlView) -> Option<Self::V>;

    /// The object that a document describes, `None` where it describes
    /// none of this type.
    spec fn decoded(doc: Map<Seq<Place>, Seq<char>>) -> Option<Self::V>;

    /// Looks the object up in the store.
    fn read_from_apub_id(url: &Url, data: &D) -> (r: Option<Self>)
        ensures
            match r {
                Some(object) => Self::stored(*data, url@) == Some(object@),
                None => Self::stored(*data, url@).is_none(),
            },
    ;

    /// Reads the object from a fetched document.
    fn from_apub(doc: &Document) -> (r: Option<Self>)
        ensures
            match r {
                Some(object) => Self::decoded(doc@) == Some(object@),
                None => Self::decoded(doc@).is_none(),
            },
    ;

    /// Writes the object to the store under a URL. What the store holds
    /// under other URLs stays.
    fn store(&self, url: &Url, data: &mut D)
        ensures
            forall|u: UrlView| #[trigger]
                Self::stored(*final(data), u) == if u == url@ {
                    Some(self@)
                } else {
                    Self::stored(*old(data), u)
                },
    ;
}

/// An object that acts: it has a public key and can be delivered to.
pub trait Actor: Sized + View {
    /// The public key of an actor.
    spec fn public_key_of(actor: Self::V) -> Seq<char>;

    /// The inbox of an actor.
    spec fn inbox_of(actor: Self::V) -> UrlView;

    /// The inbox that an actor shares with others of its server, if any.
    spec fn shared_inbox_of(actor: Self::V) -> Option<UrlView>;

    /// The public key against which requests of the actor are verified.
    fn public_key(&self) -> (r: String)
        ensures
            r@ == Self::public_key_of(self@),
    ;

    /// The inbox of the actor.
    fn inbox(&self) -> (r: Url)
        ensures
            r@ == Self::inbox_of(self@),
    ;

    /// The shared inbox of the actor's server, if it has one.
    fn shared_inbox(&self) -> (r: Option<Url>)
        ensures
            match r {
                Some(url) => Self::shared_inbox_of(self@) == Some(url@),
                None => Self::shared_inbox_of(self@).is_none(),
            },
    ;
}

/// The inbox to which deliveries for an actor go: the shared inbox where
/// there is one, else the actor's own.
pub open spec fn preferred_inbox<A: Actor>(actor: A::V) -> UrlView {
    match A::shared_inbox_of(actor) {
        Some(url) => url,
        None => A::inbox_of(actor),
    }
}

/// The inbox to which deliveries for an actor go.
pub fn shared_inbox_or_inbox<A: Actor>(actor: &A) -> (r: Url)
    ensures
        r@ == preferred_inbox::<A>(actor@),
{
    match actor.shared_inbox() {
        Some(url) => url,
        None => actor.inbox(),
    }
}

/// How a call of an activity's `verify` or `receive` ended.
#[derive(Debug)]
pub enum HandlerStep<R> {
    /// The work is done.
    Complete(R),
    /// A remote object is needed first: its fetch was asked for, and the
    /// call is to be made again once the answer is recorded.
    Suspended,
    /// The activity is refused.
    Failed(Error),
}

/// An activity that is to be sent, with the inbox to which it goes.
#[derive(Debug)]
pub struct Delivery<O> {
    pub inbox: Url,
    pub activity: O,
}

/// The inboxes to which a list of replies goes, in order.
pub open spec fn inboxes_of<O>(replies: Seq<Delivery<O>>) -> Seq<UrlView> {
    replies.map_values(|reply: Delivery<O>| reply.inbox@)
}

/// An activity kind. The inbox is written once against this trait; a new
/// kind is added by implementing it.
///
/// `verify` and `receive` may resolve objects, which may need a fetch.
/// They then return [`HandlerStep::Suspended`] and are called again from
/// the start once the answer is there. A run that suspends has therefore
/// changed nothing in the application's data, and of the request state
/// nothing but by asking for that one fetch. A kind that needs several
/// objects resolves them with `ObjectId::resolve`, which leaves the store
/// alone, before it changes anything.
pub trait ActivityHandler: Sized {
    /// The application's data.
    type DataType;

    /// The activities that this kind sends in reply.
    type Outgoing;

    /// The identifier of the activity.
    spec fn id_spec(&self) -> UrlView;

    /// The URL of the actor that claims to have sent the activity.
    spec fn actor_spec(&self) -> UrlView;

    /// Identifier and actor of the activity that a document describes,
    /// `None` where it describes none of this kind.
    spec fn envelope(doc: Map<Seq<Place>, Seq<char>>) -> Option<(UrlView, UrlView)>;

    /// Whether an activity is the one that a document describes.
    spec fn reads(doc: Map<Seq<Place>, Seq<char>>, activity: Self) -> bool;

    /// What `verify` does: whether, on given data, request state and
    /// instance, it may end with a given step and leave the data as
    /// `after`.
    spec fn verifies(
        &self,
        before: Self::DataType,
        request: RequestView,
        local: LocalInstanceView,
        step: HandlerStep<()>,
        after: Self::DataType,
    ) -> bool;

    /// What `receive` does: whether, on given data, request state and
    /// instance, it may end with a given step and leave the data as
    /// `after`.
    spec fn receives(
        &self,
        before: Self::DataType,
        request: RequestView,
        local: LocalInstanceView,
        step: HandlerStep<Vec<Delivery<Self::Outgoing>>>,
        after: Self::DataType,
    ) -> bool;

    /// The identifier of the activity.
    fn id(&self) -> (r: &Url)
        ensures
            r@ == self.id_spec(),
    ;

    /// The URL of the actor that claims to have sent the activity.
    fn actor(&self) -> (r: &Url)
        ensures
            r@ == self.actor_spec(),
    ;

    /// Reads an activity of this kind from a document.
    fn from_json(doc: &Document) -> (r: Option<Self>)
        ensures
            match r {
                Some(activity) => Self::envelope(doc@) == Some(
                    (activity.id_spec(), activity.actor_spec()),
                ) && Self::reads(doc@, activity),
                None => Self::envelope(doc@).is_none(),
            },
    ;

    /// The kind's own check of the activity. Called only once the request
    /// is authenticated.
    fn verify(
        &self,
        data: &mut Self::DataType,
        request: &mut RequestData,
        local: &LocalInstance,
    ) -> (r: HandlerStep<()>)
        requires
            old(request)@.pending.is_none(),
        ensures
            self.verifies(*old(data), old(request)@, local@, r, *final(data)),
            r is Suspended ==> final(request)@.pending.is_some(),
            r is Suspended ==> final(request)@ == old(request)@.asked(
                final(request)@.pending.unwrap(),
            ),
            r is Suspended ==> *final(data) == *old(data),
            !(r is Suspended) ==> final(request)@ == old(request)@,
    ;

    /// Applies the activity and says what is to be sent in reply. Called
    /// only once `verify` has completed.
    fn receive(
        &self,
        data: &mut Self::DataType,
        request: &mut RequestData,
        local: &LocalInstance,
    ) -> (r: HandlerStep<Vec<Delivery<Self::Outgoing>>>)
        requires
            old(request)@.pending.is_none(),
        ensures
            self.receives(*old(data), old(request)@, local@, r, *final(data)),
            r is Suspended ==> final(request)@.pending.is_some(),
            r is Suspended ==> final(request)@ == old(request)@.asked(
                final(request)@.pending.unwrap(),
            ),
            r is Suspended ==> *final(data) == *old(data),
            !(r is Suspended) ==> final(request)@ == old(request)@,
    ;
}

} // verus!
