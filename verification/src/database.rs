//! A store of persons in memory, keyed by the URL under which each is
//! known.

use vstd::prelude::*;

use crate::json::{Document, Place};
use crate::person::{Person, PersonView, url_views};
use crate::traits::ApubObject;
use crate::url::{Url, UrlView};

verus! {

/// A person in the store, with the URL under which it is kept.
#[derive(Debug)]
pub struct Entry {
    pub url: Url,
    pub person: Person,
}

/// What an [`Entry`] stands for.
pub struct EntryView {
    pub url: UrlView,
    pub person: PersonView,
}

impl View for Entry {
    type V = EntryView;

    open spec fn view(&self) -> EntryView {
        EntryView { url: self.url@, person: self.person@ }
    }
}

/// The views of a list of entries.
pub open spec fn entry_views(entries: Seq<Entry>) -> Seq<EntryView> {
    entries.map_values(|e: Entry| e@)
}

/// The persons that a list of entries holds, by URL. Of two entries with
/// one URL the later counts.
pub open spec fn persons_by_url(entries: Seq<EntryView>) -> Map<UrlView, PersonView>
    decreases entries.len(),
{
    if entries.len() == 0 {
        Map::empty()
    } else {
        persons_by_url(entries.drop_last()).insert(entries.last().url, entries.last().person)
    }
}

/// Whether `at` is the last place in a list at which a URL stands.
pub open spec fn is_last_place(entries: Seq<EntryView>, url: UrlView, at: int) -> bool {
    &&& 0 <= at < entries.len()
    &&& entries[at].url == url
    &&& forall|j: int| at < j < entries.len() ==> entries[j].url != url
}

/// Whether a URL stands nowhere in a list.
pub open spec fn is_absent(entries: Seq<EntryView>, url: UrlView) -> bool {
    forall|j: int| 0 <= j < entries.len() ==> entries[j].url != url
}

/// Under a URL is found the person of the last entry with that URL.
pub proof fn lemma_found(entries: Seq<EntryView>, url: UrlView, at: int)
    requires
        is_last_place(entries, url, at),
    ensures
        persons_by_url(entries).contains_key(url),
        persons_by_url(entries)[url] == entries[at].person,
    decreases entries.len(),
{
    if at < entries.len() - 1 {
        lemma_found(entries.drop_last(), url, at);
    }
}

/// Under a URL that stands nowhere nothing is found.
pub proof fn lemma_not_found(entries: Seq<EntryView>, url: UrlView)
    requires
        is_absent(entries, url),
    ensures
        !persons_by_url(entries).contains_key(url),
    decreases entries.len(),
{
    if entries.len() > 0 {
        lemma_not_found(entries.drop_last(), url);
    }
}

/// Replacing the person of the last entry with a URL changes what is
/// found under that URL, and nothing else.
pub proof fn lemma_replaced(entries: Seq<EntryView>, at: int, person: PersonView)
    requires
        is_last_place(entries, entries[at].url, at),
    ensures
        persons_by_url(entries.update(at, EntryView { url: entries[at].url, person }))
            == persons_by_url(entries).insert(entries[at].url, person),
    decreases entries.len(),
{
    let url = entries[at].url;
    let changed = entries.update(at, EntryView { url, person });
    if at == entries.len() - 1 {
        assert(changed.drop_last() =~= entries.drop_last());
        assert(persons_by_url(changed) =~= persons_by_url(entries).insert(url, person));
    } else {
        lemma_replaced(entries.drop_last(), at, person);
        assert(changed.drop_last() =~= entries.drop_last().update(at, EntryView { url, person }));
        assert(persons_by_url(changed) =~= persons_by_url(entries).insert(url, person));
    }
}

/// The application's data: the persons that this instance knows, local
/// users and remote actors alike.
#[derive(Debug)]
pub struct Database {
    entries: Vec<Entry>,
}

impl View for Database {
    type V = Map<UrlView, PersonView>;

    closed spec fn view(&self) -> Map<UrlView, PersonView> {
        persons_by_url(entry_views(self.entries@))
    }
}

/// What a store holds under a URL.
pub open spec fn person_at(persons: Map<UrlView, PersonView>, url: UrlView) -> Option<PersonView> {
    if persons.contains_key(url) {
        Some(persons[url])
    } else {
        None
    }
}

impl Database {
    /// A store that holds nobody.
    pub fn new() -> (r: Database)
        ensures
            r@ == Map::<UrlView, PersonView>::empty(),
    {
        let r = Database { entries: Vec::new() };
        assert(entry_views(r.entries@) =~= Seq::empty());
        r
    }

    /// The last place at which a URL stands.
    fn place(&self, url: &Url) -> (r: Option<usize>)
        ensures
            match r {
                Some(at) => is_last_place(entry_views(self.entries@), url@, at as int),
                None => is_absent(entry_views(self.entries@), url@),
            },
    {
        let mut i: usize = self.entries.len();
        while i > 0
            invariant
                i <= self.entries.len(),
                forall|j: int| i <= j < self.entries.len() ==> self.entries@[j].url@ != url@,
            decreases i,
        {
            i -= 1;
            if self.entries[i].url.equals(url) {
                return Some(i);
            }
        }
        None
    }

    /// The person that the store holds under a URL.
    pub fn get(&self, url: &Url) -> (r: Option<Person>)
        ensures
            match r {
                Some(person) => person_at(self@, url@) == Some(person@),
                None => person_at(self@, url@).is_none(),
            },
    {
        match self.place(url) {
            Some(at) => {
                proof {
                    lemma_found(entry_views(self.entries@), url@, at as int);
                }
                Some(self.entries[at].person.clone())
            },
            None => {
                proof {
                    lemma_not_found(entry_views(self.entries@), url@);
                }
                None
            },
        }
    }

    /// Puts a person into the store under a URL, in place of the one that
    /// was there.
    pub fn upsert(&mut self, url: &Url, person: Person)
        ensures
            final(self)@ == old(self)@.insert(url@, person@),
    {
        let ghost before = entry_views(self.entries@);
        match self.place(url) {
            Some(at) => {
                self.entries.set(at, Entry { url: url.clone(), person });
                proof {
                    lemma_replaced(before, at as int, person@);
                    assert(entry_views(self.entries@) =~= before.update(
                        at as int,
                        EntryView { url: before[at as int].url, person: person@ },
                    ));
                }
            },
            None => {
                self.entries.push(Entry { url: url.clone(), person });
                proof {
                    let after = entry_views(self.entries@);
                    assert(after.drop_last() =~= before);
                }
            },
        }
    }

    /// Adds a follower to the person under a URL. Returns whether there
    /// is such a person; without one nothing changes.
    pub fn add_follower(&mut self, url: &Url, follower: &Url) -> (r: bool)
        ensures
            r == old(self)@.contains_key(url@),
            final(self)@ == if r {
                old(self)@.insert(url@, old(self)@[url@].followed_by(follower@))
            } else {
                old(self)@
            },
    {
        match self.get(url) {
            None => false,
            Some(person) => {
                let mut person = person;
                let ghost before = url_views(person.followers@);
                person.followers.push(follower.clone());
                assert(url_views(person.followers@) =~= before.push(follower@));
                self.upsert(url, person);
                true
            },
        }
    }
}

impl ApubObject<Database> for Person {
    open spec fn stored(data: Database, url: UrlView) -> Option<PersonView> {
        person_at(data@, url)
    }

    open spec fn decoded(doc: Map<Seq<Place>, Seq<char>>) -> Option<PersonView> {
        crate::person::person_of(doc)
    }

    fn read_from_apub_id(url: &Url, data: &Database) -> (r: Option<Person>) {
        data.get(url)
    }

    fn from_apub(doc: &Document) -> (r: Option<Person>) {
        Person::from_document(doc)
    }

    fn store(&self, url: &Url, data: &mut Database)
        ensures
            final(data)@ == old(data)@.insert(url@, self@),
    {
        data.upsert(url, self.clone());
    }
}

} // verus!
