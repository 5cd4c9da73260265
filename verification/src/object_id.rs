//! Typed references to remote objects, and their resolution.

use core::marker::PhantomData;
use vstd::prelude::*;
use vstd::string::*;

use crate::error::{Error, FetchFault};
use crate::instance::LocalInstance;
use crate::json::{Document, parsed_json};
use crate::request::{FetchOutcome, FetchOutcomeView, RequestData, RequestView};
use crate::traits::ApubObject;
use crate::url::{Url, UrlView};

verus! {

/// The URL of an object of type `T`. The object itself is had by
/// [`ObjectId::dereference`]. Two references are equal where their URLs are.
#[derive(Debug, PartialEq, Eq, Hash)]
pub struct ObjectId<T> {
    url: Url,
    kind: PhantomData<T>,
}

/// A reference stands for its URL. The marker of the target type holds no
/// value and has no part in the view.
impl<T> View for ObjectId<T> {
    type V = UrlView;

    closed spec fn view(&self) -> UrlView {
        self.url@
    }
}

impl<T> Clone for ObjectId<T> {
    fn clone(&self) -> (r: ObjectId<T>)
        ensures
            r@ == self@,
    {
        ObjectId { url: self.url.clone(), kind: PhantomData }
    }
}

/// How a resolution ended.
#[derive(Debug)]
pub enum Resolution<T> {
    /// The object.
    Ready(T),
    /// The object has to be fetched: the fetch is asked for, or another
    /// one is still to be answered.
    Pending,
    /// The object cannot be had.
    Failed(Error),
}

/// What a [`Resolution`] stands for.
pub enum ResolutionView<V> {
    Ready(V),
    Pending,
    Failed(Error),
}

impl<T: View> View for Resolution<T> {
    type V = ResolutionView<T::V>;

    open spec fn view(&self) -> ResolutionView<T::V> {
        match self {
            Resolution::Ready(object) => ResolutionView::Ready(object@),
            Resolution::Pending => ResolutionView::Pending,
            Resolution::Failed(e) => ResolutionView::Failed(*e),
        }
    }
}

/// The content type that a fetched object has to declare.
pub open spec fn federation_content_type() -> Seq<char> {
    "application/activity+json"@
}

/// What an answer yields: the object that its body describes, or the
/// reason why it yields none.
pub open spec fn answer_reading<D, T: ApubObject<D>>(outcome: FetchOutcomeView) -> Result<
    T::V,
    FetchFault,
> {
    match outcome {
        FetchOutcomeView::Unreachable => Err(FetchFault::Network),
        FetchOutcomeView::Response { content_type, body } => {
            if content_type != federation_content_type() {
                Err(FetchFault::TypeMismatch)
            } else {
                match parsed_json(body) {
                    None => Err(FetchFault::MalformedPayload),
                    Some(doc) => match T::decoded(doc) {
                        None => Err(FetchFault::MalformedPayload),
                        Some(object) => Ok(object),
                    },
                }
            }
        },
    }
}

/// Whether resolving a URL finds the object in the store.
pub open spec fn is_stored<D, T: ApubObject<D>>(data: D, url: UrlView) -> bool {
    T::stored(data, url).is_some()
}

/// Whether resolving a URL reads the object from an answer that was had
/// earlier in the request.
pub open spec fn reads_answer<D, T: ApubObject<D>>(
    data: D,
    request: RequestView,
    url: UrlView,
) -> bool {
    !is_stored::<D, T>(data, url) && request.answer_for(url).is_some()
}

/// Whether resolving a URL starts a fetch: the object is not stored, no
/// answer for it is there, nothing else is pending and budget is left.
pub open spec fn starts_fetch<D, T: ApubObject<D>>(
    data: D,
    request: RequestView,
    url: UrlView,
) -> bool {
    !is_stored::<D, T>(data, url) && request.answer_for(url).is_none() && request.grants()
}

/// Whether resolving a URL writes the object to the store: it is read
/// from an answer, and the policy says that fetched objects are stored.
pub open spec fn stores_object<D, T: ApubObject<D>>(
    data: D,
    request: RequestView,
    url: UrlView,
    store_fetched: bool,
) -> bool {
    store_fetched && reads_answer::<D, T>(data, request, url) && resolution::<D, T>(
        data,
        request,
        url,
    ) is Ready
}

/// How resolving a URL leaves the store: with the object under the URL
/// where it is written, and as it was in all else.
pub open spec fn store_after<D, T: ApubObject<D>>(
    before: D,
    after: D,
    request: RequestView,
    url: UrlView,
    store_fetched: bool,
) -> bool {
    if stores_object::<D, T>(before, request, url, store_fetched) {
        forall|u: UrlView| #[trigger]
            T::stored(after, u) == if u == url {
                Some(resolution::<D, T>(before, request, url)->Ready_0)
            } else {
                T::stored(before, u)
            }
    } else {
        after == before
    }
}

/// How resolving a URL ends.
pub open spec fn resolution<D, T: ApubObject<D>>(
    data: D,
    request: RequestView,
    url: UrlView,
) -> ResolutionView<T::V> {
    match T::stored(data, url) {
        Some(object) => ResolutionView::Ready(object),
        None => match request.answer_for(url) {
            Some(outcome) => match answer_reading::<D, T>(outcome) {
                Ok(object) => ResolutionView::Ready(object),
                Err(fault) => ResolutionView::Failed(Error::ResolutionFailure(fault)),
            },
            None => if request.pending.is_none() && request.remaining == 0 {
                ResolutionView::Failed(Error::RecursionLimitExceeded)
            } else {
                ResolutionView::Pending
            },
        },
    }
}

/// Reads the object out of an answer.
pub fn read_answer<D, T: ApubObject<D>>(outcome: &FetchOutcome) -> (r: Result<T, FetchFault>)
    ensures
        match r {
            Ok(object) => answer_reading::<D, T>(outcome@) == Ok::<T::V, FetchFault>(object@),
            Err(fault) => answer_reading::<D, T>(outcome@) == Err::<T::V, FetchFault>(fault),
        },
{
    match outcome {
        FetchOutcome::Unreachable => Err(FetchFault::Network),
        FetchOutcome::Response { content_type, body } => {
            if !(*content_type == String::from_str("application/activity+json")) {
                return Err(FetchFault::TypeMismatch);
            }
            match Document::parse(body.as_slice()) {
                Err(_) => Err(FetchFault::MalformedPayload),
                Ok(doc) => match T::from_apub(&doc) {
                    None => Err(FetchFault::MalformedPayload),
                    Some(object) => Ok(object),
                },
            }
        },
    }
}

impl<T> ObjectId<T> {
    /// The reference to the object under a URL.
    pub fn new(url: Url) -> (r: ObjectId<T>)
        ensures
            r@ == url@,
    {
        ObjectId { url, kind: PhantomData }
    }

    /// The URL of the object.
    pub fn inner(&self) -> (r: &Url)
        ensures
            r@ == self@,
    {
        &self.url
    }

    /// The URL of the object.
    pub fn into_inner(self) -> (r: Url)
        ensures
            r@ == self@,
    {
        self.url
    }

    /// Whether two references name the same object.
    pub fn equals(&self, other: &ObjectId<T>) -> (r: bool)
        ensures
            r == (self@ == other@),
    {
        self.url.equals(&other.url)
    }

    /// The object as the store holds it, without any fetch.
    pub fn dereference_local<D>(&self, data: &D) -> (r: Option<T>) where T: ApubObject<D>
        ensures
            match r {
                Some(object) => T::stored(*data, self@) == Some(object@),
                None => T::stored(*data, self@).is_none(),
            },
    {
        T::read_from_apub_id(&self.url, data)
    }

    fn resolve_from<D>(&self, data: &D, request: &mut RequestData) -> (r: (
        Resolution<T>,
        bool,
    )) where T: ApubObject<D>
        ensures
            r.0@ == resolution::<D, T>(*data, old(request)@, self@),
            r.1 == reads_answer::<D, T>(*data, old(request)@, self@),
            old(request)@.wf(),
            final(request)@.wf(),
            final(request)@ == if starts_fetch::<D, T>(*data, old(request)@, self@) {
                old(request)@.asked(self@)
            } else {
                old(request)@
            },
    {
        proof {
            use_type_invariant(&*request);
            request.lemma_accounted();
        }
        if let Some(object) = T::read_from_apub_id(&self.url, data) {
            return (Resolution::Ready(object), false);
        }
        match request.answer_for(&self.url) {
            Some(outcome) => match read_answer::<D, T>(outcome) {
                Err(fault) => (Resolution::Failed(Error::ResolutionFailure(fault)), true),
                Ok(object) => (Resolution::Ready(object), true),
            },
            None => match request.ask(&self.url) {
                Err(e) => (Resolution::Failed(e), false),
                Ok(()) => (Resolution::Pending, false),
            },
        }
    }

    /// Resolves the reference and leaves the store as it is.
    ///
    /// The store is asked first; what it holds is returned and costs
    /// nothing. Else the answers of this request are searched, and an
    /// answer for the URL is read. Else a fetch is asked for, which spends
    /// one unit of the budget, and fails where none is left.
    pub fn resolve<D>(&self, data: &D, request: &mut RequestData) -> (r: Resolution<
        T,
    >) where T: ApubObject<D>
        ensures
            r@ == resolution::<D, T>(*data, old(request)@, self@),
            old(request)@.wf(),
            final(request)@.wf(),
            final(request)@ == if starts_fetch::<D, T>(*data, old(request)@, self@) {
                old(request)@.asked(self@)
            } else {
                old(request)@
            },
    {
        self.resolve_from(data, request).0
    }

    /// Resolves the reference as [`ObjectId::resolve`] does, and writes an
    /// object that was read from an answer to the store, where the policy
    /// says so.
    pub fn dereference<D>(
        &self,
        data: &mut D,
        request: &mut RequestData,
        local: &LocalInstance,
    ) -> (r: Resolution<T>) where T: ApubObject<D>
        ensures
            r@ == resolution::<D, T>(*old(data), old(request)@, self@),
            old(request)@.wf(),
            final(request)@.wf(),
            final(request)@ == if starts_fetch::<D, T>(*old(data), old(request)@, self@) {
                old(request)@.asked(self@)
            } else {
                old(request)@
            },
            store_after::<D, T>(
                *old(data),
                *final(data),
                old(request)@,
                self@,
                local@.settings.store_fetched,
            ),
    {
        let (resolved, from_answer) = self.resolve_from(data, request);
        if from_answer && local.settings.store_fetched {
            match &resolved {
                Resolution::Ready(object) => {
                    object.store(&self.url, data);
                },
                _ => {},
            }
        }
        resolved
    }
}

} // verus!
