//! The record model, the numeral parser, the codec and the merge updater,
//! exercised on concrete values.

use frienddir::codec::{decode_nodes, decode_people, decode_person, encode_person};
use frienddir::errors::ApiError;
use frienddir::json::JsonValue;
use frienddir::model::{Discord, Friend, Instagram, Person, School, SchoolType, X};
use frienddir::numeric::parse_u64;
use frienddir::patch::{apply_patch, PersonPatch};

fn full_person() -> Person {
    Person::new(
        "0x1".to_string(),
        Some("Ada".to_string()),
        Some("ada@x.io".to_string()),
        Some(Discord {
            uid: "0xd".to_string(),
            handle: Some("ada#1".to_string()),
            display_name: None,
            user_id: 42,
        }),
        Some(Instagram {
            handle: Some("ada.gram".to_string()),
            display_name: Some("Ada".to_string()),
            user_id: 7,
        }),
        Some("ada.snap".to_string()),
        Some(X {
            handle: None,
            display_name: None,
            user_id: 9,
        }),
        Some(vec![School {
            name: "Analytical".to_string(),
            schooltype: SchoolType::College,
        }]),
        Some(vec![Friend {
            uid: "0x2".to_string(),
        }]),
        Some(vec!["likes math".to_string()]),
    )
}

fn empty_patch() -> PersonPatch {
    PersonPatch::empty()
}

#[test]
fn person_new_keeps_fields() {
    let p = full_person();
    assert_eq!(p.uid.as_deref(), Some("0x1"));
    assert_eq!(p.name.as_deref(), Some("Ada"));
    assert_eq!(p.email.as_deref(), Some("ada@x.io"));
    assert_eq!(p.discord.as_ref().unwrap().user_id, 42);
    assert_eq!(p.school.as_ref().unwrap()[0].schooltype, SchoolType::College);
}

#[test]
fn parse_u64_matches_std() {
    for s in [
        "0", "1", "42", "+7", "007", "18446744073709551615", "18446744073709551616", "", "+",
        "-1", "abc", "1a", " 1", "1 ",
    ] {
        assert_eq!(parse_u64(s), s.parse::<u64>().ok(), "case {:?}", s);
    }
}

#[test]
fn round_trip_full_person() {
    let p = full_person();
    let wire = encode_person(&p);
    let back = decode_person(&wire).expect("decodes");
    assert_eq!(back, p);
}

#[test]
fn round_trip_bare_person() {
    let p = Person {
        uid: None,
        name: None,
        email: None,
        discord: None,
        instagram: None,
        snapchat: None,
        x: None,
        school: None,
        friends: None,
        misc: None,
    };
    let wire = encode_person(&p);
    let back = decode_person(&wire).expect("decodes");
    assert_eq!(back, p);
}

#[test]
fn encode_is_not_identity_shaped() {
    // A record with a name encodes into an object whose name field is the
    // plain string, not null and not the whole record.
    let p = full_person();
    match encode_person(&p) {
        JsonValue::Obj(fields) => {
            let name = fields.iter().find(|f| f.0 == "name").expect("name field");
            assert_eq!(name.1, JsonValue::Str("Ada".to_string()));
            let misc = fields.iter().find(|f| f.0 == "misc").expect("misc field");
            assert_eq!(
                misc.1,
                JsonValue::Arr(vec![JsonValue::Str("likes math".to_string())])
            );
        }
        other => panic!("expected an object, got {:?}", other),
    }
}

#[test]
fn decode_rejects_bad_user_id() {
    let wire = JsonValue::Obj(vec![(
        "discord".to_string(),
        JsonValue::Obj(vec![
            ("uid".to_string(), JsonValue::Str("0xd".to_string())),
            ("user_id".to_string(), JsonValue::Str("not a number".to_string())),
        ]),
    )]);
    match decode_person(&wire) {
        Err(ApiError::SerializationFailure(_)) => {}
        other => panic!("expected a serialization failure, got {:?}", other),
    }
}

#[test]
fn decode_rejects_unknown_school_level() {
    let wire = JsonValue::Obj(vec![(
        "school".to_string(),
        JsonValue::Arr(vec![JsonValue::Obj(vec![
            ("name".to_string(), JsonValue::Str("Somewhere".to_string())),
            ("schooltype".to_string(), JsonValue::Str("Kindergarten".to_string())),
        ])]),
    )]);
    assert!(decode_person(&wire).is_err());
}

#[test]
fn decode_treats_null_and_absent_alike() {
    let with_null = JsonValue::Obj(vec![
        ("uid".to_string(), JsonValue::Str("0x1".to_string())),
        ("email".to_string(), JsonValue::Null),
    ]);
    let without = JsonValue::Obj(vec![("uid".to_string(), JsonValue::Str("0x1".to_string()))]);
    let a = decode_person(&with_null).expect("decodes");
    let b = decode_person(&without).expect("decodes");
    assert_eq!(a, b);
    assert_eq!(a.email, None);
}

#[test]
fn decode_people_reads_the_all_field() {
    let wire = JsonValue::Obj(vec![(
        "all".to_string(),
        JsonValue::Arr(vec![
            JsonValue::Obj(vec![
                ("uid".to_string(), JsonValue::Str("0x1".to_string())),
                ("name".to_string(), JsonValue::Str("Ada".to_string())),
            ]),
            JsonValue::Obj(vec![
                ("uid".to_string(), JsonValue::Str("0x2".to_string())),
                ("name".to_string(), JsonValue::Str("Grace".to_string())),
            ]),
        ]),
    )]);
    let people = decode_people(&wire).expect("decodes");
    assert_eq!(people.len(), 2);
    assert_eq!(people[0].uid.as_deref(), Some("0x1"));
    assert_eq!(people[1].name.as_deref(), Some("Grace"));
}

#[test]
fn decode_people_without_all_fails() {
    let wire = JsonValue::Obj(vec![]);
    assert!(decode_people(&wire).is_err());
}

#[test]
fn decode_people_propagates_a_bad_record() {
    let wire = JsonValue::Obj(vec![(
        "all".to_string(),
        JsonValue::Arr(vec![JsonValue::Obj(vec![(
            "name".to_string(),
            JsonValue::Num(7),
        )])]),
    )]);
    match decode_people(&wire) {
        Err(ApiError::SerializationFailure(_)) => {}
        other => panic!("expected a serialization failure, got {:?}", other),
    }
}

#[test]
fn decode_nodes_reads_the_query_nodes_field() {
    let wire = JsonValue::Obj(vec![(
        "queryNodes".to_string(),
        JsonValue::Arr(vec![JsonValue::Obj(vec![
            ("uid".to_string(), JsonValue::Str("0x1".to_string())),
            ("name".to_string(), JsonValue::Str("Ada".to_string())),
        ])]),
    )]);
    let nodes = decode_nodes(&wire).expect("decodes");
    assert_eq!(nodes.len(), 1);
    assert_eq!(nodes[0].uid, "0x1");
    assert_eq!(nodes[0].name, "Ada");
}

#[test]
fn patch_overwrites_only_targeted_fields() {
    let base = full_person();
    let patch = PersonPatch {
        name: Some("Ada L".to_string()),
        email: Some("ada@l.io".to_string()),
        ..empty_patch()
    };
    let patched = apply_patch(base.clone(), &patch).expect("applies");
    assert_eq!(patched.name.as_deref(), Some("Ada L"));
    assert_eq!(patched.email.as_deref(), Some("ada@l.io"));
    assert_eq!(patched.uid, base.uid);
    assert_eq!(patched.discord, base.discord);
    assert_eq!(patched.instagram, base.instagram);
    assert_eq!(patched.snapchat, base.snapchat);
    assert_eq!(patched.x, base.x);
    assert_eq!(patched.school, base.school);
    assert_eq!(patched.friends, base.friends);
    assert_eq!(patched.misc, base.misc);
}

#[test]
fn patch_parses_numeric_fields() {
    let base = full_person();
    let patch = PersonPatch {
        discord_user_id: Some("1234".to_string()),
        ..empty_patch()
    };
    let patched = apply_patch(base, &patch).expect("applies");
    assert_eq!(patched.discord.unwrap().user_id, 1234);
}

#[test]
fn patch_rejects_bad_number() {
    let base = full_person();
    let patch = PersonPatch {
        discord_user_id: Some("12x4".to_string()),
        ..empty_patch()
    };
    match apply_patch(base, &patch) {
        Err(ApiError::ValidationFailure(_)) => {}
        other => panic!("expected a validation failure, got {:?}", other),
    }
}

#[test]
fn patch_rejects_absent_structure() {
    let mut base = full_person();
    base.instagram = None;
    let patch = PersonPatch {
        instagram_handle: Some("new.gram".to_string()),
        ..empty_patch()
    };
    match apply_patch(base, &patch) {
        Err(ApiError::ValidationFailure(_)) => {}
        other => panic!("expected a validation failure, got {:?}", other),
    }
}

#[test]
fn patch_replaces_school_with_college_entry() {
    let base = full_person();
    let patch = PersonPatch {
        school: Some("Polytechnic".to_string()),
        ..empty_patch()
    };
    let patched = apply_patch(base, &patch).expect("applies");
    let school = patched.school.unwrap();
    assert_eq!(school.len(), 1);
    assert_eq!(school[0].name, "Polytechnic");
    assert_eq!(school[0].schooltype, SchoolType::College);
}

#[test]
fn disjoint_patches_commute() {
    let base = full_person();
    let qa = PersonPatch {
        name: Some("Ada L".to_string()),
        discord_handle: Some("ada#2".to_string()),
        ..empty_patch()
    };
    let qb = PersonPatch {
        email: Some("ada@l.io".to_string()),
        x_user_id: Some("77".to_string()),
        ..empty_patch()
    };
    let ab = apply_patch(apply_patch(base.clone(), &qa).unwrap(), &qb).unwrap();
    let ba = apply_patch(apply_patch(base, &qb).unwrap(), &qa).unwrap();
    assert_eq!(ab, ba);
}

#[test]
fn append_friend_twice_keeps_both_edges() {
    let mut p = full_person();
    p.friends = None;
    let p = p.append_friend("0x9".to_string());
    let p = p.append_friend("0x9".to_string());
    let friends = p.friends.expect("list exists");
    assert_eq!(friends.len(), 2);
    assert_eq!(friends[0].uid, "0x9");
    assert_eq!(friends[1].uid, "0x9");
}

#[test]
fn append_friend_preserves_order() {
    let p = full_person();
    let p = p.append_friend("0x3".to_string());
    let friends = p.friends.expect("list exists");
    assert_eq!(friends.len(), 2);
    assert_eq!(friends[0].uid, "0x2");
    assert_eq!(friends[1].uid, "0x3");
}
