//! A person: the actor kind that this crate brings along.

use vstd::prelude::*;
use vstd::string::*;

use crate::json::{Document, Place, is_kind, keys, member_url, text_at, url_at};
use crate::traits::Actor;
use crate::url::{Url, UrlView};

verus! {

/// The views of a list of URLs.
pub open spec fn url_views(urls: Seq<Url>) -> Seq<UrlView> {
    urls.map_values(|u: Url| u@)
}

/// Copies a list of URLs.
pub fn clone_urls(urls: &Vec<Url>) -> (r: Vec<Url>)
    ensures
        url_views(r@) == url_views(urls@),
{
    let mut copy: Vec<Url> = Vec::new();
    let mut i: usize = 0;
    while i < urls.len()
        invariant
            i <= urls.len(),
            copy@.len() == i,
            forall|j: int| 0 <= j < i ==> copy@[j]@ == urls@[j]@,
        decreases urls.len() - i,
    {
        copy.push(urls[i].clone());
        i += 1;
    }
    assert(url_views(copy@) =~= url_views(urls@));
    copy
}

/// A person, local or remote.
#[derive(Debug, PartialEq, Eq, Hash)]
pub struct Person {
    /// The URL under which the person is known.
    pub ap_id: Url,
    /// The inbox of the person.
    pub inbox: Url,
    /// The inbox that the person's server offers for all its users.
    pub shared_inbox: Option<Url>,
    /// The public key against which the person's requests are verified.
    pub public_key: String,
    /// The actors that follow the person, in the order in which they came.
    pub followers: Vec<Url>,
    /// Whether the person is a user of this instance.
    pub local: bool,
}

/// What a [`Person`] stands for.
pub struct PersonView {
    pub ap_id: UrlView,
    pub inbox: UrlView,
    pub shared_inbox: Option<UrlView>,
    pub public_key: Seq<char>,
    pub followers: Seq<UrlView>,
    pub local: bool,
}

impl PersonView {
    /// The person with one more follower.
    pub open spec fn followed_by(self, follower: UrlView) -> PersonView {
        PersonView { followers: self.followers.push(follower), ..self }
    }
}

impl View for Person {
    type V = PersonView;

    open spec fn view(&self) -> PersonView {
        PersonView {
            ap_id: self.ap_id@,
            inbox: self.inbox@,
            shared_inbox: match self.shared_inbox {
                Some(url) => Some(url@),
                None => None,
            },
            public_key: self.public_key@,
            followers: url_views(self.followers@),
            local: self.local,
        }
    }
}

impl Clone for Person {
    fn clone(&self) -> (r: Person)
        ensures
            r@ == self@,
    {
        Person {
            ap_id: self.ap_id.clone(),
            inbox: self.inbox.clone(),
            shared_inbox: match &self.shared_inbox {
                Some(url) => Some(url.clone()),
                None => None,
            },
            public_key: self.public_key.clone(),
            followers: clone_urls(&self.followers),
            local: self.local,
        }
    }
}

/// The remote person that a document describes: it declares the kind
/// `Person` and holds URLs under `id` and `inbox` and a key under
/// `publicKey.publicKeyPem`; the shared inbox is taken where
/// `endpoints.sharedInbox` holds a URL.
pub open spec fn person_of(doc: Map<Seq<Place>, Seq<char>>) -> Option<PersonView> {
    if is_kind(doc, "Person"@) && member_url(doc, "id"@).is_some() && member_url(
        doc,
        "inbox"@,
    ).is_some() && text_at(doc, keys("publicKey"@, "publicKeyPem"@)).is_some() {
        Some(
            PersonView {
                ap_id: member_url(doc, "id"@).unwrap(),
                inbox: member_url(doc, "inbox"@).unwrap(),
                shared_inbox: url_at(doc, keys("endpoints"@, "sharedInbox"@)),
                public_key: text_at(doc, keys("publicKey"@, "publicKeyPem"@)).unwrap(),
                followers: Seq::empty(),
                local: false,
            },
        )
    } else {
        None
    }
}

impl Person {
    /// Reads a remote person from a document.
    pub fn from_document(doc: &Document) -> (r: Option<Person>)
        ensures
            match r {
                Some(person) => person_of(doc@) == Some(person@),
                None => person_of(doc@).is_none(),
            },
    {
        if !doc.has_kind("Person") {
            return None;
        }
        let ap_id = match doc.url("id") {
            Some(url) => url,
            None => { return None; },
        };
        let inbox = match doc.url("inbox") {
            Some(url) => url,
            None => { return None; },
        };
        let public_key = match doc.text_in("publicKey", "publicKeyPem") {
            Some(text) => text,
            None => { return None; },
        };
        let shared_inbox = doc.url_in("endpoints", "sharedInbox");
        let person = Person {
            ap_id,
            inbox,
            shared_inbox,
            public_key,
            followers: Vec::new(),
            local: false,
        };
        assert(url_views(person.followers@) =~= Seq::empty());
        Some(person)
    }
}

impl Actor for Person {
    open spec fn public_key_of(actor: PersonView) -> Seq<char> {
        actor.public_key
    }

    open spec fn inbox_of(actor: PersonView) -> UrlView {
        actor.inbox
    }

    open spec fn shared_inbox_of(actor: PersonView) -> Option<UrlView> {
        actor.shared_inbox
    }

    fn public_key(&self) -> (r: String) {
        self.public_key.clone()
    }

    fn inbox(&self) -> (r: Url) {
        self.inbox.clone()
    }

    fn shared_inbox(&self) -> (r: Option<Url>) {
        match &self.shared_inbox {
            Some(url) => Some(url.clone()),
            None => None,
        }
    }
}

} // verus!
