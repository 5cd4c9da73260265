use activitypub_federation::database::Database;
use activitypub_federation::error::{Error, FetchFault};
use activitypub_federation::instance::{LocalInstance, Settings};
use activitypub_federation::object_id::{read_answer, ObjectId, Resolution};
use activitypub_federation::person::Person;
use activitypub_federation::request::{FetchOutcome, RequestData};
use activitypub_federation::traits::{shared_inbox_or_inbox, Actor};
use activitypub_federation::url::Url;

const ALICE: &str = "https://a.example/users/alice";
const CAROL: &str = "https://c.example/users/carol";

fn url(text: &str) -> Url {
    Url::parse(text).unwrap()
}

fn instance(limit: u32, store_fetched: bool) -> LocalInstance {
    let mut settings = Settings::default();
    settings.http_fetch_limit = limit;
    settings.store_fetched = store_fetched;
    LocalInstance::new("b.example".to_string(), None, settings)
}

fn alice_document() -> Vec<u8> {
    br#"{"type":"Person","id":"https://a.example/users/alice","inbox":"https://a.example/users/alice/inbox","publicKey":{"id":"https://a.example/users/alice#main-key","publicKeyPem":"ALICE-KEY"}}"#.to_vec()
}

fn answer(body: Vec<u8>) -> FetchOutcome {
    FetchOutcome::Response { content_type: "application/activity+json".to_string(), body }
}

fn person(id: &str, shared: Option<&str>) -> Person {
    Person {
        ap_id: url(id),
        inbox: url(&format!("{}/inbox", id)),
        shared_inbox: shared.map(url),
        public_key: "KEY".to_string(),
        followers: Vec::new(),
        local: false,
    }
}

fn ready(resolution: Resolution<Person>) -> Person {
    match resolution {
        Resolution::Ready(person) => person,
        other => panic!("not ready: {:?}", other),
    }
}

#[test]
fn a_stored_object_costs_nothing() {
    let local = instance(3, true);
    let mut data = Database::new();
    data.upsert(&url(ALICE), person(ALICE, None));
    let mut request = RequestData::new(3, "t".to_string());
    let id = ObjectId::<Person>::new(url(ALICE));
    let found = ready(id.dereference(&mut data, &mut request, &local));
    assert_eq!(found.ap_id, url(ALICE));
    assert_eq!(request.remaining(), 3);
    assert_eq!(request.issued(), 0);
    assert!(request.pending().is_none());
}

#[test]
fn a_stored_object_is_had_even_without_budget() {
    let local = instance(0, true);
    let mut data = Database::new();
    data.upsert(&url(ALICE), person(ALICE, None));
    let mut request = RequestData::new(0, "t".to_string());
    let id = ObjectId::<Person>::new(url(ALICE));
    assert_eq!(ready(id.dereference(&mut data, &mut request, &local)).ap_id, url(ALICE));
}

#[test]
fn without_budget_a_miss_fails_at_once() {
    let local = instance(0, true);
    let mut data = Database::new();
    let mut request = RequestData::new(0, "t".to_string());
    let id = ObjectId::<Person>::new(url(ALICE));
    match id.dereference(&mut data, &mut request, &local) {
        Resolution::Failed(e) => assert_eq!(e, Error::RecursionLimitExceeded),
        other => panic!("{:?}", other),
    }
    assert!(request.pending().is_none());
    assert_eq!(request.issued(), 0);
    assert_eq!(request.remaining(), 0);
    assert!(data.get(&url(ALICE)).is_none());
}

#[test]
fn a_miss_asks_for_a_fetch_and_spends_one_unit() {
    let local = instance(3, true);
    let mut data = Database::new();
    let mut request = RequestData::new(3, "t".to_string());
    let id = ObjectId::<Person>::new(url(ALICE));
    assert!(matches!(id.dereference(&mut data, &mut request, &local), Resolution::Pending));
    assert_eq!(request.pending(), Some(&url(ALICE)));
    assert_eq!(request.remaining(), 2);
    assert_eq!(request.issued(), 1);
    assert_eq!(request.limit(), 3);
}

#[test]
fn while_a_fetch_is_pending_nothing_else_is_asked_for() {
    let local = instance(3, true);
    let mut data = Database::new();
    let mut request = RequestData::new(3, "t".to_string());
    let alice = ObjectId::<Person>::new(url(ALICE));
    let carol = ObjectId::<Person>::new(url(CAROL));
    assert!(matches!(alice.dereference(&mut data, &mut request, &local), Resolution::Pending));
    assert!(matches!(carol.dereference(&mut data, &mut request, &local), Resolution::Pending));
    assert!(matches!(alice.dereference(&mut data, &mut request, &local), Resolution::Pending));
    assert_eq!(request.pending(), Some(&url(ALICE)));
    assert_eq!(request.remaining(), 2);
}

#[test]
fn resolving_again_after_a_fetch_asks_for_no_second_one() {
    let local = instance(3, true);
    let mut data = Database::new();
    let mut request = RequestData::new(3, "t".to_string());
    let id = ObjectId::<Person>::new(url(ALICE));
    assert!(matches!(id.dereference(&mut data, &mut request, &local), Resolution::Pending));
    request.answer(answer(alice_document()));
    assert_eq!(request.remaining(), 2);
    let first = ready(id.dereference(&mut data, &mut request, &local));
    assert_eq!(first.public_key, "ALICE-KEY");
    assert_eq!(request.remaining(), 2);
    assert!(data.get(&url(ALICE)).is_some());
    let second = ready(id.dereference(&mut data, &mut request, &local));
    assert_eq!(second.public_key, "ALICE-KEY");
    assert_eq!(request.remaining(), 2);
    assert_eq!(request.issued(), 1);
    assert!(request.pending().is_none());
}

#[test]
fn resolving_again_needs_no_fetch_where_nothing_is_stored() {
    let local = instance(3, false);
    let mut data = Database::new();
    let mut request = RequestData::new(3, "t".to_string());
    let id = ObjectId::<Person>::new(url(ALICE));
    assert!(matches!(id.dereference(&mut data, &mut request, &local), Resolution::Pending));
    request.answer(answer(alice_document()));
    assert_eq!(ready(id.dereference(&mut data, &mut request, &local)).ap_id, url(ALICE));
    assert!(data.get(&url(ALICE)).is_none());
    assert_eq!(ready(id.dereference(&mut data, &mut request, &local)).ap_id, url(ALICE));
    assert_eq!(request.remaining(), 2);
    assert!(request.pending().is_none());
}

#[test]
fn the_fetches_of_a_request_stay_within_the_budget() {
    let local = instance(2, true);
    let mut data = Database::new();
    let mut request = RequestData::new(2, "t".to_string());
    let mut fetches = 0;
    for n in 0..5 {
        let id = ObjectId::<Person>::new(url(&format!("https://a.example/users/{}", n)));
        match id.dereference(&mut data, &mut request, &local) {
            Resolution::Pending => {
                fetches += 1;
                request.answer(FetchOutcome::Unreachable);
            }
            Resolution::Failed(e) => assert_eq!(e, Error::RecursionLimitExceeded),
            Resolution::Ready(_) => panic!("nothing is stored"),
        }
    }
    assert_eq!(fetches, 2);
    assert_eq!(request.issued(), 2);
    assert_eq!(request.remaining(), 0);
}

#[test]
fn a_failed_fetch_is_not_tried_again() {
    let local = instance(3, true);
    let mut data = Database::new();
    let mut request = RequestData::new(3, "t".to_string());
    let id = ObjectId::<Person>::new(url(ALICE));
    assert!(matches!(id.dereference(&mut data, &mut request, &local), Resolution::Pending));
    request.answer(FetchOutcome::Unreachable);
    for _ in 0..2 {
        match id.dereference(&mut data, &mut request, &local) {
            Resolution::Failed(e) => assert_eq!(e, Error::ResolutionFailure(FetchFault::Network)),
            other => panic!("{:?}", other),
        }
    }
    assert_eq!(request.remaining(), 2);
}

#[test]
fn answers_are_read_by_content_type_and_shape() {
    let unreachable: Result<Person, FetchFault> =
        read_answer::<Database, Person>(&FetchOutcome::Unreachable);
    assert_eq!(unreachable.err(), Some(FetchFault::Network));
    let html = FetchOutcome::Response {
        content_type: "text/html".to_string(),
        body: alice_document(),
    };
    assert_eq!(read_answer::<Database, Person>(&html).err(), Some(FetchFault::TypeMismatch));
    assert_eq!(
        read_answer::<Database, Person>(&answer(b"<html>".to_vec())).err(),
        Some(FetchFault::MalformedPayload)
    );
    assert_eq!(
        read_answer::<Database, Person>(&answer(br#"{"type":"Person"}"#.to_vec())).err(),
        Some(FetchFault::MalformedPayload)
    );
    let person: Person = read_answer::<Database, Person>(&answer(alice_document())).unwrap();
    assert_eq!(person.inbox, url("https://a.example/users/alice/inbox"));
}

#[test]
fn an_answer_without_a_pending_fetch_is_not_recorded() {
    let mut request = RequestData::new(3, "t".to_string());
    request.answer(answer(alice_document()));
    assert!(request.answer_for(&url(ALICE)).is_none());
    assert_eq!(request.remaining(), 3);
    assert_eq!(request.token(), "t");
}

#[test]
fn the_first_answer_for_a_url_counts() {
    let mut request = RequestData::new(3, "t".to_string());
    assert_eq!(request.ask(&url(ALICE)), Ok(()));
    request.answer(FetchOutcome::Unreachable);
    assert_eq!(request.ask(&url(CAROL)), Ok(()));
    request.answer(answer(alice_document()));
    assert!(matches!(request.answer_for(&url(ALICE)), Some(FetchOutcome::Unreachable)));
    assert!(matches!(request.answer_for(&url(CAROL)), Some(FetchOutcome::Response { .. })));
    assert_eq!(request.ask(&url(ALICE)), Ok(()));
    assert_eq!(request.ask(&url(CAROL)), Ok(()));
    assert_eq!(request.remaining(), 0);
    request.answer(FetchOutcome::Unreachable);
    assert_eq!(request.ask(&url(CAROL)), Err(Error::RecursionLimitExceeded));
}

#[test]
fn the_store_keeps_the_last_person_under_a_url() {
    let mut data = Database::new();
    assert!(data.get(&url(ALICE)).is_none());
    data.upsert(&url(ALICE), person(ALICE, None));
    data.upsert(&url(CAROL), person(CAROL, None));
    let mut changed = person(ALICE, Some("https://a.example/inbox"));
    changed.public_key = "NEW".to_string();
    data.upsert(&url(ALICE), changed);
    assert_eq!(data.get(&url(ALICE)).unwrap().public_key, "NEW");
    assert_eq!(data.get(&url(CAROL)).unwrap().public_key, "KEY");
    let id = ObjectId::<Person>::new(url(CAROL));
    assert_eq!(id.dereference_local(&data).unwrap().ap_id, url(CAROL));
    assert!(ObjectId::<Person>::new(url("https://a.example/nobody")).dereference_local(&data).is_none());
}

#[test]
fn followers_are_appended_in_order() {
    let mut data = Database::new();
    data.upsert(&url(ALICE), person(ALICE, None));
    assert!(data.add_follower(&url(ALICE), &url(CAROL)));
    assert!(data.add_follower(&url(ALICE), &url("https://b.example/users/bob")));
    assert!(!data.add_follower(&url("https://a.example/nobody"), &url(CAROL)));
    assert_eq!(
        data.get(&url(ALICE)).unwrap().followers,
        vec![url(CAROL), url("https://b.example/users/bob")]
    );
}

#[test]
fn deliveries_prefer_the_shared_inbox() {
    let with = person(ALICE, Some("https://a.example/inbox"));
    let without = person(CAROL, None);
    assert_eq!(shared_inbox_or_inbox(&with), url("https://a.example/inbox"));
    assert_eq!(shared_inbox_or_inbox(&without), url("https://c.example/users/carol/inbox"));
    assert_eq!(with.public_key(), "KEY");
    assert_eq!(with.inbox(), url("https://a.example/users/alice/inbox"));
    assert_eq!(without.shared_inbox(), None);
}

#[test]
fn references_compare_by_url() {
    let a = ObjectId::<Person>::new(url(ALICE));
    let b = ObjectId::<Person>::new(url("https://A.example/users/alice"));
    let c = ObjectId::<Person>::new(url(CAROL));
    assert!(a.equals(&b));
    assert!(!a.equals(&c));
    assert!(a.clone().equals(&a));
    assert_eq!(a, b);
    assert_ne!(a, c);
    assert_eq!(a.inner(), &url(ALICE));
    assert_eq!(c.into_inner(), url(CAROL));
}
