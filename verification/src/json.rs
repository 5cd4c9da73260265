//! JSON documents, as far as activities are read from them: the strings
//! that a document holds, each at the place to which keys and indices lead.

use vstd::prelude::*;
use vstd::string::*;

use crate::error::Error;
use crate::url::{Url, UrlView, parsed_url};

verus! {

/// One step into a JSON value: the member of an object under a key, or
/// the element of a list at an index.
pub enum Place {
    Key(Seq<char>),
    Index(nat),
}

/// `serde_json::Value`: a JSON value, of which nothing is known here but
/// through [`texts_under`].
#[verifier::external_type_specification]
#[verifier::external_body]
pub struct ExValue(serde_json::Value);

/// The strings that a JSON value holds, each under the path that leads to
/// it: under the empty path the value itself where it is a string; under
/// a path that begins with a key what the member of an object under that
/// key holds under the rest of the path; under a path that begins with
/// an index the same of the element of a list. Numbers, booleans and
/// `null` hold nothing.
pub uninterp spec fn texts_under(value: serde_json::Value) -> Map<Seq<Place>, Seq<char>>;

/// The strings of the JSON value that `serde_json::from_slice` reads from
/// a text, `None` where it reads none.
pub uninterp spec fn parsed_json(bytes: Seq<u8>) -> Option<Map<Seq<Place>, Seq<char>>>;

/// What strings hold beyond one step: those whose path begins with the
/// step, under the rest of their path.
pub open spec fn under(texts: Map<Seq<Place>, Seq<char>>, step: Place) -> Map<
    Seq<Place>,
    Seq<char>,
> {
    Map::new(
        |path: Seq<Place>| texts.contains_key(seq![step] + path),
        |path: Seq<Place>| texts[seq![step] + path],
    )
}

/// Calls `serde_json::from_slice` for a `serde_json::Value`. Trusted: what
/// is read is a function of the bytes alone, named [`parsed_json`];
/// nothing comes back exactly where `from_slice` returns an error.
#[verifier::external_body]
fn parse_value(bytes: &[u8]) -> (r: Option<serde_json::Value>)
    ensures
        match r {
            Some(value) => parsed_json(bytes@) == Some(texts_under(value)),
            None => parsed_json(bytes@).is_none(),
        },
{
    serde_json::from_slice(bytes).ok()
}

/// Calls `serde_json::Value::get` with a key and copies what it finds.
/// Trusted: what comes back holds what the value holds beyond the key;
/// nothing comes back only where the value holds nothing beyond it.
#[verifier::external_body]
fn value_member(value: &serde_json::Value, key: &str) -> (r: Option<serde_json::Value>)
    ensures
        match r {
            Some(inner) => texts_under(inner) == under(texts_under(*value), Place::Key(key@)),
            None => under(texts_under(*value), Place::Key(key@)) == Map::<
                Seq<Place>,
                Seq<char>,
            >::empty(),
        },
{
    value.get(key).cloned()
}

/// Calls `serde_json::Value::get` with an index and copies what it finds.
/// Trusted: what comes back holds what the value holds beyond the index;
/// nothing comes back only where the value holds nothing beyond it.
#[verifier::external_body]
fn value_element(value: &serde_json::Value, index: usize) -> (r: Option<serde_json::Value>)
    ensures
        match r {
            Some(inner) => texts_under(inner) == under(
                texts_under(*value),
                Place::Index(index as nat),
            ),
            None => under(texts_under(*value), Place::Index(index as nat)) == Map::<
                Seq<Place>,
                Seq<char>,
            >::empty(),
        },
{
    value.get(index).cloned()
}

/// Calls `serde_json::Value::as_str`. Trusted: a string comes back
/// exactly where the value is a string, and it is that string.
#[verifier::external_body]
fn value_text(value: &serde_json::Value) -> (r: Option<String>)
    ensures
        match r {
            Some(text) => texts_under(*value).contains_key(Seq::<Place>::empty()) && texts_under(
                *value,
            )[Seq::<Place>::empty()] == text@,
            None => !texts_under(*value).contains_key(Seq::<Place>::empty()),
        },
{
    match value.as_str() {
        Some(text) => Some(text.to_string()),
        None => None,
    }
}

/// The string that a document holds at a path.
pub open spec fn text_at(doc: Map<Seq<Place>, Seq<char>>, path: Seq<Place>) -> Option<Seq<char>> {
    if doc.contains_key(path) {
        Some(doc[path])
    } else {
        None
    }
}

/// The path of one key.
pub open spec fn key(name: Seq<char>) -> Seq<Place> {
    seq![Place::Key(name)]
}

/// The path of two keys, one within the other.
pub open spec fn keys(outer: Seq<char>, inner: Seq<char>) -> Seq<Place> {
    seq![Place::Key(outer), Place::Key(inner)]
}

/// The URL that a document holds at a path: the string there is the text
/// of a URL.
pub open spec fn url_at(doc: Map<Seq<Place>, Seq<char>>, path: Seq<Place>) -> Option<UrlView> {
    match text_at(doc, path) {
        Some(text) => parsed_url(text),
        None => None,
    }
}

/// The URL that a document holds under a key.
pub open spec fn member_url(doc: Map<Seq<Place>, Seq<char>>, name: Seq<char>) -> Option<UrlView> {
    url_at(doc, key(name))
}

/// Whether a document declares a kind under `type`.
pub open spec fn is_kind(doc: Map<Seq<Place>, Seq<char>>, kind: Seq<char>) -> bool {
    text_at(doc, key("type"@)) == Some(kind)
}

/// A JSON document that was read from bytes, or a part of one.
pub struct Document {
    value: serde_json::Value,
}

impl View for Document {
    type V = Map<Seq<Place>, Seq<char>>;

    closed spec fn view(&self) -> Map<Seq<Place>, Seq<char>> {
        texts_under(self.value)
    }
}

impl Document {
    /// Reads a document from the bytes of a body.
    pub fn parse(bytes: &[u8]) -> (r: Result<Document, Error>)
        ensures
            match r {
                Ok(doc) => parsed_json(bytes@) == Some(doc@),
                Err(e) => parsed_json(bytes@).is_none() && e == Error::MalformedPayload,
            },
    {
        match parse_value(bytes) {
            Some(value) => Ok(Document { value }),
            None => Err(Error::MalformedPayload),
        }
    }

    /// The member of the document under a key. Where there is none, the
    /// document holds nothing beyond the key.
    pub fn member(&self, name: &str) -> (r: Option<Document>)
        ensures
            match r {
                Some(inner) => inner@ == under(self@, Place::Key(name@)),
                None => under(self@, Place::Key(name@)) == Map::<Seq<Place>, Seq<char>>::empty(),
            },
    {
        match value_member(&self.value, name) {
            Some(value) => Some(Document { value }),
            None => None,
        }
    }

    /// The element of the document at an index. Where there is none, the
    /// document holds nothing beyond the index.
    pub fn element(&self, index: usize) -> (r: Option<Document>)
        ensures
            match r {
                Some(inner) => inner@ == under(self@, Place::Index(index as nat)),
                None => under(self@, Place::Index(index as nat)) == Map::<
                    Seq<Place>,
                    Seq<char>,
                >::empty(),
            },
    {
        match value_element(&self.value, index) {
            Some(value) => Some(Document { value }),
            None => None,
        }
    }

    /// The document as a string, where it is one.
    pub fn as_text(&self) -> (r: Option<String>)
        ensures
            match r {
                Some(text) => text_at(self@, Seq::empty()) == Some(text@),
                None => text_at(self@, Seq::empty()).is_none(),
            },
    {
        value_text(&self.value)
    }

    /// The string under a key of the document, if there is one.
    pub fn text(&self, name: &str) -> (r: Option<String>)
        ensures
            match r {
                Some(text) => text_at(self@, key(name@)) == Some(text@),
                None => text_at(self@, key(name@)).is_none(),
            },
    {
        assert(seq![Place::Key(name@)] + Seq::<Place>::empty() =~= key(name@));
        match self.member(name) {
            None => {
                assert(!under(self@, Place::Key(name@)).contains_key(Seq::<Place>::empty()));
                None
            },
            Some(inner) => inner.as_text(),
        }
    }

    /// The string under a key of the member under another key, if there
    /// is one.
    pub fn text_in(&self, outer: &str, inner: &str) -> (r: Option<String>)
        ensures
            match r {
                Some(text) => text_at(self@, keys(outer@, inner@)) == Some(text@),
                None => text_at(self@, keys(outer@, inner@)).is_none(),
            },
    {
        assert(seq![Place::Key(outer@)] + key(inner@) =~= keys(outer@, inner@));
        match self.member(outer) {
            None => {
                assert(!under(self@, Place::Key(outer@)).contains_key(key(inner@)));
                None
            },
            Some(part) => part.text(inner),
        }
    }

    /// The URL under a key of the document, if there is one.
    pub fn url(&self, name: &str) -> (r: Option<Url>)
        ensures
            match r {
                Some(url) => member_url(self@, name@) == Some(url@),
                None => member_url(self@, name@).is_none(),
            },
    {
        match self.text(name) {
            None => None,
            Some(text) => match Url::parse(text.as_str()) {
                Ok(url) => Some(url),
                Err(_) => None,
            },
        }
    }

    /// The URL under a key of the member under another key, if there is
    /// one.
    pub fn url_in(&self, outer: &str, inner: &str) -> (r: Option<Url>)
        ensures
            match r {
                Some(url) => url_at(self@, keys(outer@, inner@)) == Some(url@),
                None => url_at(self@, keys(outer@, inner@)).is_none(),
            },
    {
        match self.text_in(outer, inner) {
            None => None,
            Some(text) => match Url::parse(text.as_str()) {
                Ok(url) => Some(url),
                Err(_) => None,
            },
        }
    }

    /// Whether the document declares a kind under `type`.
    pub fn has_kind(&self, kind: &str) -> (r: bool)
        ensures
            r == is_kind(self@, kind@),
    {
        match self.text("type") {
            None => false,
            Some(text) => text == String::from_str(kind),
        }
    }
}

} // verus!
