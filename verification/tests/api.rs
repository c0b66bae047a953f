//! The endpoint decisions, the name/uid index, the committer's identifier
//! resolution and the relay channel, driven as the request scenarios drive
//! them.

use frienddir::commit::{placeholder_label, resolve_assigned_uid};
use frienddir::endpoints::{addfriend_request, adduser_prepare, first_match, friendws_request,
    getuid_request, getuid_response, getusers_request, index_body, updateuser_request};
use frienddir::errors::ApiError;
use frienddir::index::NameIndex;
use frienddir::model::{Node, Person};
use frienddir::patch::apply_patch;
use frienddir::query::{bound_var, query_all, query_by_name, query_by_uid, query_nodes,
    schema_text};
use frienddir::ws::{FriendWs, WsAction, WsEvent};

fn named_person(name: &str) -> Person {
    Person {
        uid: None,
        name: Some(name.to_string()),
        email: None,
        discord: None,
        instagram: None,
        snapchat: None,
        x: None,
        school: None,
        friends: None,
        misc: None,
    }
}

#[test]
fn banner_is_fixed() {
    assert_eq!(index_body(), "This is the backend for the website");
}

#[test]
fn adduser_requires_a_name() {
    let p = Person {
        name: None,
        ..named_person("ignored")
    };
    match adduser_prepare(p) {
        Err(e) => {
            assert!(matches!(e, ApiError::MissingParameter(_)));
            assert_eq!(e.status_code(), 400);
            assert_eq!(e.message(), "Name cannot be empty");
        }
        Ok(_) => panic!("a nameless record must be rejected"),
    }
}

#[test]
fn adduser_derives_the_placeholder() {
    // Scenario: creating Ada ends in a commit whose record carries the
    // name-derived placeholder label, and the minted identifier comes back.
    let prepared = adduser_prepare(named_person("Ada")).expect("prepared");
    assert_eq!(prepared.uid.as_deref(), Some("_:Ada"));
    assert_eq!(prepared.name.as_deref(), Some("Ada"));
    let response = vec![("Ada".to_string(), "0x1".to_string())];
    let resolved = resolve_assigned_uid(&prepared, &response);
    assert_eq!(resolved, "0x1");
    assert!(!resolved.is_empty());
    assert!(!resolved.starts_with("_:"));
}

#[test]
fn adduser_keeps_a_given_uid() {
    let mut p = named_person("Ada");
    p.uid = Some("0x5".to_string());
    let prepared = adduser_prepare(p).expect("prepared");
    assert_eq!(prepared.uid.as_deref(), Some("0x5"));
}

#[test]
fn placeholder_label_prefixes_the_name() {
    assert_eq!(placeholder_label("Ada"), "_:Ada");
    assert_eq!(placeholder_label(""), "_:");
}

#[test]
fn resolver_falls_back_to_the_record_uid() {
    let mut p = named_person("Ada");
    p.uid = Some("0x5".to_string());
    let response: Vec<(String, String)> = vec![("Grace".to_string(), "0x9".to_string())];
    assert_eq!(resolve_assigned_uid(&p, &response), "0x5");
}

#[test]
fn getuid_answers_the_first_match() {
    // Scenario: the uid lookup for Ada answers with her identifier.
    let name = getuid_request("user=Ada").expect("name parsed");
    assert_eq!(name, "Ada");
    let mut ada = named_person("Ada");
    ada.uid = Some("0x1".to_string());
    let people = vec![ada, named_person("Ada")];
    assert_eq!(getuid_response(&people).expect("found"), "0x1");
}

#[test]
fn getuid_without_user_is_a_caller_error() {
    // Scenario: the uid lookup without its parameter is answered 400 before
    // any store work.
    match getuid_request("") {
        Err(e) => {
            assert_eq!(e.status_code(), 400);
            assert_eq!(e.message(), "user url_param cannot be empty");
        }
        Ok(v) => panic!("must not accept a missing parameter, got {:?}", v),
    }
}

#[test]
fn getuid_on_zero_matches_is_not_found() {
    let people: Vec<Person> = vec![];
    match getuid_response(&people) {
        Err(e) => {
            assert!(matches!(e, ApiError::NotFound(_)));
            assert_eq!(e.status_code(), 404);
        }
        Ok(v) => panic!("zero matches must be a not-found answer, got {:?}", v),
    }
}

#[test]
fn getusers_distinguishes_search_from_listing() {
    assert_eq!(getusers_request("user=Ada").as_deref(), Some("Ada"));
    assert_eq!(getusers_request(""), None);
}

#[test]
fn first_match_is_not_found_on_empty() {
    match first_match(vec![]) {
        Err(e) => {
            assert_eq!(e.status_code(), 404);
            assert_eq!(e.message(), "Error: User not found");
        }
        Ok(p) => panic!("no record may come back, got {:?}", p),
    }
}

#[test]
fn update_scenario_patches_name_and_email() {
    // Scenario: updating Ada's name and email touches those two fields and
    // nothing else.
    let (uid, patch) =
        updateuser_request("uid=0x1&name=Ada%20L&email=ada%40x.io").expect("accepted");
    assert_eq!(uid, "0x1");
    assert_eq!(patch.name.as_deref(), Some("Ada L"));
    assert_eq!(patch.email.as_deref(), Some("ada@x.io"));
    assert_eq!(patch.discord_uid, None);
    assert_eq!(patch.school, None);

    let mut stored = named_person("Ada");
    stored.uid = Some("0x1".to_string());
    let updated = apply_patch(stored.clone(), &patch).expect("applies");
    assert_eq!(updated.name.as_deref(), Some("Ada L"));
    assert_eq!(updated.email.as_deref(), Some("ada@x.io"));
    assert_eq!(updated.uid, stored.uid);
    assert_eq!(updated.discord, stored.discord);
    assert_eq!(updated.friends, stored.friends);
}

#[test]
fn percent_encoding_carries_unicode_values_in_ascii() {
    // The query string itself is ASCII, as a request target is on the wire;
    // values beyond ASCII arrive percent-encoded and come out decoded.
    let (_, patch) = updateuser_request("uid=0x1&name=Caf%C3%A9").expect("accepted");
    assert_eq!(patch.name.as_deref(), Some("Caf\u{e9}"));
}

#[test]
fn update_without_uid_is_a_caller_error() {
    match updateuser_request("name=Ada") {
        Err(e) => {
            assert_eq!(e.status_code(), 400);
            assert_eq!(e.message(), "uid cannot be empty");
        }
        Ok(_) => panic!("must not accept a missing uid"),
    }
}

#[test]
fn addfriend_checks_both_parameters() {
    assert_eq!(
        addfriend_request("uid=0x1&friend=0x2").expect("accepted"),
        ("0x1".to_string(), "0x2".to_string())
    );
    match addfriend_request("friend=0x2") {
        Err(e) => assert_eq!(e.message(), "uid cannot be empty"),
        Ok(_) => panic!("must not accept a missing uid"),
    }
    match addfriend_request("uid=0x1") {
        Err(e) => assert_eq!(e.message(), "friend cannot be empty"),
        Ok(_) => panic!("must not accept a missing friend"),
    }
}

#[test]
fn addfriend_scenario_twice_shows_the_edge_twice() {
    // Scenario: asking twice to befriend the same identifier leaves the edge
    // in the list twice.
    let (_, friend) = addfriend_request("uid=0x1&friend=0x2").expect("accepted");
    let mut ada = named_person("Ada");
    ada.uid = Some("0x1".to_string());
    let ada = ada.append_friend(friend.clone());
    let ada = ada.append_friend(friend);
    let friends = ada.friends.expect("list exists");
    assert_eq!(friends.len(), 2);
    assert_eq!(friends[0].uid, "0x2");
    assert_eq!(friends[1].uid, "0x2");
}

#[test]
fn index_resolves_known_names_only() {
    let nodes = vec![
        Node { uid: "0x1".to_string(), name: "Ada".to_string() },
        Node { uid: "0x2".to_string(), name: "Grace".to_string() },
    ];
    let idx = NameIndex::build(&nodes);
    assert_eq!(idx.resolve("Ada").as_deref(), Some("0x1"));
    assert_eq!(idx.resolve("Grace").as_deref(), Some("0x2"));
    assert_eq!(idx.resolve("Edsger"), None);
}

#[test]
fn index_keeps_the_last_uid_for_a_repeated_name() {
    let nodes = vec![
        Node { uid: "0x1".to_string(), name: "Ada".to_string() },
        Node { uid: "0x7".to_string(), name: "Ada".to_string() },
    ];
    let idx = NameIndex::build(&nodes);
    assert_eq!(idx.resolve("Ada").as_deref(), Some("0x7"));
}

#[test]
fn index_insert_shadows_earlier_entries() {
    let mut idx = NameIndex::new();
    assert_eq!(idx.resolve("Ada"), None);
    idx.insert("Ada".to_string(), "0x1".to_string());
    assert_eq!(idx.resolve("Ada").as_deref(), Some("0x1"));
    idx.insert("Ada".to_string(), "0x9".to_string());
    assert_eq!(idx.resolve("Ada").as_deref(), Some("0x9"));
}

#[test]
fn channel_requires_the_user_parameter() {
    let ws = friendws_request("user=Ada").expect("opens");
    assert_eq!(ws.user, "Ada");
    match friendws_request("") {
        Err(e) => {
            assert_eq!(e.status_code(), 404);
            assert_eq!(e.message(), "Error: No user specified\n");
        }
        Ok(_) => panic!("must not open a channel without a user"),
    }
}

#[test]
fn channel_greets_echoes_and_answers_ping() {
    let ws = FriendWs::new("Ada".to_string());
    assert_eq!(ws.greeting(), "Hello!\n");
    assert_eq!(
        ws.handle_event(WsEvent::Text("hi".to_string())),
        WsAction::Text("hi".to_string())
    );
    assert_eq!(
        ws.handle_event(WsEvent::Ping(vec![1, 2, 3])),
        WsAction::Pong(vec![1, 2, 3])
    );
    assert_eq!(ws.handle_event(WsEvent::Other), WsAction::Nothing);
}

#[test]
fn error_status_codes_follow_the_taxonomy() {
    assert_eq!(ApiError::MissingParameter("m".to_string()).status_code(), 400);
    assert_eq!(ApiError::ValidationFailure("m".to_string()).status_code(), 400);
    assert_eq!(ApiError::NotFound("m".to_string()).status_code(), 404);
    assert_eq!(ApiError::SerializationFailure("m".to_string()).status_code(), 500);
    assert_eq!(ApiError::CommitFailure("m".to_string()).status_code(), 500);
}

#[test]
fn queries_bind_their_parameter() {
    assert!(query_by_name().contains("eq(name, $a)"));
    assert!(query_by_uid().contains("uid($a)"));
    assert!(query_all().contains("has(name)"));
    assert!(query_nodes().contains("queryNodes"));
    assert_eq!(bound_var(), "$a");
    assert!(schema_text().contains("@index(exact)"));
}
