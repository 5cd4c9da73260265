use activitypub_federation::activities::{Accept, Follow};
use activitypub_federation::error::Error;
use activitypub_federation::json::Document;
use activitypub_federation::person::Person;
use activitypub_federation::url::Url;

#[test]
fn a_document_gives_its_string_members() {
    let doc = Document::parse(br#"{"type":"Follow","n":3,"id":"https://a.example/1"}"#).unwrap();
    assert_eq!(doc.text("type"), Some("Follow".to_string()));
    assert_eq!(doc.text("id"), Some("https://a.example/1".to_string()));
    assert_eq!(doc.text("n"), None);
    assert_eq!(doc.text("absent"), None);
    assert!(doc.has_kind("Follow"));
    assert!(!doc.has_kind("Accept"));
}

#[test]
fn a_document_gives_its_urls() {
    let doc = Document::parse(br#"{"id":"https://a.example/1","bad":"not a url"}"#).unwrap();
    assert_eq!(doc.url("id"), Some(Url::parse("https://a.example/1").unwrap()));
    assert_eq!(doc.url("bad"), None);
    assert_eq!(doc.url("absent"), None);
    assert!(!doc.has_kind("Follow"));
}

#[test]
fn what_is_no_json_is_malformed() {
    assert_eq!(Document::parse(b"{").err(), Some(Error::MalformedPayload));
    assert_eq!(Document::parse(b"").err(), Some(Error::MalformedPayload));
    assert_eq!(Document::parse(b"{} trailing").err(), Some(Error::MalformedPayload));
}

#[test]
fn json_that_is_no_object_has_no_members() {
    let doc = Document::parse(br#"["type","Follow"]"#).unwrap();
    assert_eq!(doc.text("type"), None);
    let doc = Document::parse(br#""type""#).unwrap();
    assert_eq!(doc.text("type"), None);
}

#[test]
fn a_follow_is_read_from_its_document() {
    let doc = Document::parse(
        br#"{"type":"Follow","id":"https://a.example/activities/1","actor":"https://a.example/users/alice","object":"https://b.example/users/bob"}"#,
    )
    .unwrap();
    let follow = Follow::from_document(&doc).unwrap();
    assert_eq!(follow.id, Url::parse("https://a.example/activities/1").unwrap());
    assert_eq!(follow.actor.inner(), &Url::parse("https://a.example/users/alice").unwrap());
    assert_eq!(follow.object.inner(), &Url::parse("https://b.example/users/bob").unwrap());
}

#[test]
fn a_follow_needs_its_kind_and_its_urls() {
    let other_kind = Document::parse(
        br#"{"type":"Like","id":"https://a.example/1","actor":"https://a.example/u","object":"https://b.example/u"}"#,
    )
    .unwrap();
    assert!(Follow::from_document(&other_kind).is_none());
    let no_object =
        Document::parse(br#"{"type":"Follow","id":"https://a.example/1","actor":"https://a.example/u"}"#)
            .unwrap();
    assert!(Follow::from_document(&no_object).is_none());
    let bad_actor = Document::parse(
        br#"{"type":"Follow","id":"https://a.example/1","actor":"alice","object":"https://b.example/u"}"#,
    )
    .unwrap();
    assert!(Follow::from_document(&bad_actor).is_none());
}

#[test]
fn a_person_is_read_from_its_document() {
    let doc = Document::parse(
        br#"{"type":"Person","id":"https://a.example/users/alice","inbox":"https://a.example/users/alice/inbox","endpoints":{"sharedInbox":"https://a.example/inbox"},"publicKey":{"id":"https://a.example/users/alice#main-key","owner":"https://a.example/users/alice","publicKeyPem":"KEY"}}"#,
    )
    .unwrap();
    let person = Person::from_document(&doc).unwrap();
    assert_eq!(person.ap_id, Url::parse("https://a.example/users/alice").unwrap());
    assert_eq!(person.inbox, Url::parse("https://a.example/users/alice/inbox").unwrap());
    assert_eq!(person.shared_inbox, Some(Url::parse("https://a.example/inbox").unwrap()));
    assert_eq!(person.public_key, "KEY");
    assert!(person.followers.is_empty());
    assert!(!person.local);
}

#[test]
fn a_person_needs_kind_id_inbox_and_key() {
    let no_key = Document::parse(
        br#"{"type":"Person","id":"https://a.example/users/alice","inbox":"https://a.example/users/alice/inbox"}"#,
    )
    .unwrap();
    assert!(Person::from_document(&no_key).is_none());
    let key_at_top = Document::parse(
        br#"{"type":"Person","id":"https://a.example/users/alice","inbox":"https://a.example/users/alice/inbox","publicKeyPem":"KEY"}"#,
    )
    .unwrap();
    assert!(Person::from_document(&key_at_top).is_none());
    let no_shared = Document::parse(
        br#"{"type":"Person","id":"https://a.example/users/alice","inbox":"https://a.example/users/alice/inbox","publicKey":{"publicKeyPem":"KEY"}}"#,
    )
    .unwrap();
    assert_eq!(Person::from_document(&no_shared).unwrap().shared_inbox, None);
    let service = Document::parse(
        br#"{"type":"Service","id":"https://a.example/users/alice","inbox":"https://a.example/users/alice/inbox","publicKey":{"publicKeyPem":"KEY"}}"#,
    )
    .unwrap();
    assert!(Person::from_document(&service).is_none());
}

#[test]
fn a_document_gives_what_lies_within_its_members() {
    let doc = Document::parse(
        br#"{"publicKey":{"owner":"https://a.example/u","publicKeyPem":"KEY"},"n":{"m":3},"s":"text"}"#,
    )
    .unwrap();
    assert_eq!(doc.text_in("publicKey", "publicKeyPem"), Some("KEY".to_string()));
    assert_eq!(doc.url_in("publicKey", "owner"), Some(Url::parse("https://a.example/u").unwrap()));
    assert_eq!(doc.url_in("publicKey", "publicKeyPem"), None);
    assert_eq!(doc.text_in("publicKey", "absent"), None);
    assert_eq!(doc.text_in("absent", "publicKeyPem"), None);
    assert_eq!(doc.text_in("s", "publicKeyPem"), None);
    assert_eq!(doc.text_in("n", "m"), None);
    let key = doc.member("publicKey").unwrap();
    assert_eq!(key.text("publicKeyPem"), Some("KEY".to_string()));
    assert_eq!(key.as_text(), None);
    assert_eq!(doc.member("s").unwrap().as_text(), Some("text".to_string()));
    assert!(doc.member("absent").is_none());
    assert!(doc.element(0).is_none());
}

#[test]
fn a_document_gives_the_elements_of_its_lists() {
    let doc = Document::parse(
        br#"{"to":["https://a.example/users/alice","https://c.example/users/carol",7]}"#,
    )
    .unwrap();
    let to = doc.member("to").unwrap();
    assert_eq!(to.element(0).unwrap().as_text(), Some("https://a.example/users/alice".to_string()));
    assert_eq!(to.element(1).unwrap().as_text(), Some("https://c.example/users/carol".to_string()));
    assert_eq!(to.element(2).unwrap().as_text(), None);
    assert!(to.element(3).is_none());
    assert!(to.member("0").is_none());
    assert_eq!(doc.text("to"), None);
}

#[test]
fn an_acceptance_is_read_with_the_request_that_it_accepts() {
    let doc = Document::parse(
        br#"{"type":"Accept","id":"https://b.example/objects/1","actor":"https://b.example/users/bob","object":{"type":"Follow","id":"https://a.example/activities/1","actor":"https://a.example/users/alice","object":"https://b.example/users/bob"}}"#,
    )
    .unwrap();
    let accept = Accept::from_document(&doc).unwrap();
    assert_eq!(accept.id, Url::parse("https://b.example/objects/1").unwrap());
    assert_eq!(accept.actor.inner(), &Url::parse("https://b.example/users/bob").unwrap());
    assert_eq!(accept.object.id, Url::parse("https://a.example/activities/1").unwrap());
    assert_eq!(accept.object.actor.inner(), &Url::parse("https://a.example/users/alice").unwrap());
    assert!(Follow::from_document(&doc).is_none());
    let flat = Document::parse(
        br#"{"type":"Accept","id":"https://b.example/objects/1","actor":"https://b.example/users/bob","object":"https://a.example/activities/1"}"#,
    )
    .unwrap();
    assert!(Accept::from_document(&flat).is_none());
    let wrong_inner = Document::parse(
        br#"{"type":"Accept","id":"https://b.example/objects/1","actor":"https://b.example/users/bob","object":{"type":"Like","id":"https://a.example/activities/1","actor":"https://a.example/users/alice","object":"https://b.example/users/bob"}}"#,
    )
    .unwrap();
    assert!(Accept::from_document(&wrong_inner).is_none());
}
