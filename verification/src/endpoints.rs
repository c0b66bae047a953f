//! What each endpoint decides, separated from the transport that carries
//! it: parameter checks, record preparation, and how a fetched result turns
//! into a response. The store round-trips themselves happen outside; these
//! functions take the raw query string on the way in and the decoded
//! records on the way back. A query string must be ASCII — as a request
//! target is on the wire — before it is handed in; the transport layer
//! checks that and answers the rare violation itself.

use vstd::prelude::*;
use vstd::string::StringExecFns;
use crate::codec::{lemma_person_round_trip, spec_decode_person, spec_encode_person};
use crate::commit::{is_placeholder, lemma_placeholder_label_shape, placeholder_label, spec_placeholder_label,
    spec_resolved_uid, spec_uid_lookup};
use crate::errors::{spec_message, ApiError};
use crate::model::{Person, PersonView};
use crate::patch::PersonPatch;
use crate::qs::{qs_param, query_param};
use crate::ws::FriendWs;

verus! {

/// The banner of the root endpoint.
pub open spec fn spec_index_body() -> Seq<char> {
    "This is the backend for the website"@
}

/// The root endpoint's plain-text banner.
pub fn index_body() -> (r: &'static str)
    ensures
        r@ == spec_index_body(),
{
    "This is the backend for the website"
}

/// Decides the uid lookup: the required `user` parameter, or the missing-
/// parameter error — in which case no store call is to be made.
pub fn getuid_request(query: &str) -> (r: Result<String, ApiError>)
    requires
        query.is_ascii(),
    ensures
        qs_param(query@, "user"@) matches Some(u) ==> (r matches Ok(name) && name@ == u),
        qs_param(query@, "user"@) is None ==> (r matches Err(e) && e is MissingParameter
            && spec_message(e) == "user url_param cannot be empty"@),
{
    match query_param(query, "user") {
        Some(u) => Ok(u),
        None => Err(ApiError::MissingParameter(String::from_str("user url_param cannot be empty"))),
    }
}

/// Turns the records a name lookup returned into the uid answer: the first
/// match's identifier, or a not-found error — never a fault — when nothing
/// matched or the first match carries no identifier.
pub fn getuid_response(people: &Vec<Person>) -> (r: Result<String, ApiError>)
    ensures
        people.deep_view().len() == 0 ==> (r matches Err(e) && e is NotFound),
        people.deep_view().len() > 0 ==> match people.deep_view()[0].uid {
            Some(u) => r matches Ok(s) && s@ == u,
            None => r matches Err(e) && e is NotFound,
        },
        r matches Err(e) ==> e is NotFound && spec_message(e) == "Error: User not found"@,
{
    if people.len() == 0 {
        return Err(ApiError::NotFound(String::from_str("Error: User not found")));
    }
    match &people[0].uid {
        Some(u) => Ok(u.clone()),
        None => Err(ApiError::NotFound(String::from_str("Error: User not found"))),
    }
}

/// Decides the user search: a name to look up exactly, or nothing, meaning
/// every record is returned.
pub fn getusers_request(query: &str) -> (r: Option<String>)
    requires
        query.is_ascii(),
    ensures
        qs_param(query@, "user"@) matches Some(u) ==> (r matches Some(name) && name@ == u),
        qs_param(query@, "user"@) is None ==> r is None,
{
    query_param(query, "user")
}

/// The record a creation request commits: the input as it came, with the
/// name-derived placeholder label as its identifier when none was given.
pub open spec fn spec_adduser_prepared(p: PersonView) -> PersonView {
    PersonView {
        uid: if p.uid is Some {
            p.uid
        } else {
            Some(spec_placeholder_label(p.name->0))
        },
        ..p
    }
}

/// Prepares a creation request: the name is required; a record that came
/// without an identifier gets the placeholder label derived from its name.
/// Every other field rides through untouched.
pub fn adduser_prepare(p: Person) -> (r: Result<Person, ApiError>)
    ensures
        p@.name is None ==> (r matches Err(e) && e is MissingParameter && spec_message(e)
            == "Name cannot be empty"@),
        p@.name is Some ==> (r matches Ok(q) && q@ == spec_adduser_prepared(p@)),
{
    if p.name.is_none() {
        return Err(ApiError::MissingParameter(String::from_str("Name cannot be empty")));
    }
    if p.uid.is_some() {
        return Ok(p);
    }
    let label = placeholder_label(p.name.as_ref().unwrap().as_str());
    let Person { uid: _, name, email, discord, instagram, snapchat, x, school, friends, misc } =
        p;
    Ok(
        Person {
            uid: Some(label),
            name,
            email,
            discord,
            instagram,
            snapchat,
            x,
            school,
            friends,
            misc,
        },
    )
}

/// Decides the friend-edge request: both `uid` and `friend` are required,
/// checked in that order.
pub fn addfriend_request(query: &str) -> (r: Result<(String, String), ApiError>)
    requires
        query.is_ascii(),
    ensures
        qs_param(query@, "uid"@) is None ==> (r matches Err(e) && e is MissingParameter
            && spec_message(e) == "uid cannot be empty"@),
        qs_param(query@, "uid"@) is Some && qs_param(query@, "friend"@) is None ==> (r matches Err(
            e,
        ) && e is MissingParameter && spec_message(e) == "friend cannot be empty"@),
        qs_param(query@, "uid"@) matches Some(u) ==> (qs_param(query@, "friend"@) matches Some(f)
            ==> (r matches Ok(pair) && pair.0@ == u && pair.1@ == f)),
{
    let uid = match query_param(query, "uid") {
        Some(u) => u,
        None => {
            return Err(ApiError::MissingParameter(String::from_str("uid cannot be empty")));
        },
    };
    let friend = match query_param(query, "friend") {
        Some(f) => f,
        None => {
            return Err(ApiError::MissingParameter(String::from_str("friend cannot be empty")));
        },
    };
    Ok((uid, friend))
}

/// Decides the update request: the required `uid`, and the sparse patch
/// assembled from every per-field parameter that is present.
pub fn updateuser_request(query: &str) -> (r: Result<(String, PersonPatch), ApiError>)
    requires
        query.is_ascii(),
    ensures
        qs_param(query@, "uid"@) is None ==> (r matches Err(e) && e is MissingParameter
            && spec_message(e) == "uid cannot be empty"@),
        qs_param(query@, "uid"@) matches Some(u) ==> (r matches Ok(pair) && pair.0@ == u && ({
            let q = pair.1@;
            &&& q.discord_uid == qs_param(query@, "discord-uid"@)
            &&& q.discord_handle == qs_param(query@, "discord-handle"@)
            &&& q.discord_display_name == qs_param(query@, "discord-display_name"@)
            &&& q.discord_user_id == qs_param(query@, "discord-user_id"@)
            &&& q.instagram_handle == qs_param(query@, "instagram-handle"@)
            &&& q.instagram_display_name == qs_param(query@, "instagram-display_name"@)
            &&& q.instagram_user_id == qs_param(query@, "instagram-user_id"@)
            &&& q.x_handle == qs_param(query@, "x-handle"@)
            &&& q.x_display_name == qs_param(query@, "x-display_name"@)
            &&& q.x_user_id == qs_param(query@, "x-user_id"@)
            &&& q.school == qs_param(query@, "school"@)
            &&& q.name == qs_param(query@, "name"@)
            &&& q.email == qs_param(query@, "email"@)
        })),
{
    let uid = match query_param(query, "uid") {
        Some(u) => u,
        None => {
            return Err(ApiError::MissingParameter(String::from_str("uid cannot be empty")));
        },
    };
    let patch = PersonPatch {
        discord_uid: query_param(query, "discord-uid"),
        discord_handle: query_param(query, "discord-handle"),
        discord_display_name: query_param(query, "discord-display_name"),
        discord_user_id: query_param(query, "discord-user_id"),
        instagram_handle: query_param(query, "instagram-handle"),
        instagram_display_name: query_param(query, "instagram-display_name"),
        instagram_user_id: query_param(query, "instagram-user_id"),
        x_handle: query_param(query, "x-handle"),
        x_display_name: query_param(query, "x-display_name"),
        x_user_id: query_param(query, "x-user_id"),
        school: query_param(query, "school"),
        name: query_param(query, "name"),
        email: query_param(query, "email"),
    };
    Ok((uid, patch))
}

/// The first record of a lookup, owned, or the not-found error when nothing
/// matched.
pub fn first_match(people: Vec<Person>) -> (r: Result<Person, ApiError>)
    ensures
        people.deep_view().len() == 0 ==> (r matches Err(e) && e is NotFound && spec_message(e)
            == "Error: User not found"@),
        people.deep_view().len() > 0 ==> (r matches Ok(p) && p@ == people.deep_view()[0]),
{
    let mut v = people;
    if v.len() == 0 {
        return Err(ApiError::NotFound(String::from_str("Error: User not found")));
    }
    let p = v.remove(0);
    Ok(p)
}

/// Decides the real-time channel request: the `user` parameter is required;
/// without it the caller gets the not-found answer and no channel.
pub fn friendws_request(query: &str) -> (r: Result<FriendWs, ApiError>)
    requires
        query.is_ascii(),
    ensures
        qs_param(query@, "user"@) matches Some(u) ==> (r matches Ok(ws) && ws.user@ == u),
        qs_param(query@, "user"@) is None ==> (r matches Err(e) && e is NotFound && spec_message(e)
            == "Error: No user specified\n"@),
{
    match query_param(query, "user") {
        Some(user) => Ok(FriendWs::new(user)),
        None => Err(ApiError::NotFound(String::from_str("Error: No user specified\n"))),
    }
}

/// Creation followed by a fetch, end to end on the library's side: a valid
/// record with a non-empty name, prepared for creation and committed, reads
/// back with every settable field equal to the input; and when the store's
/// commit response maps the name to a freshly minted identifier — which the
/// store promises to be non-empty and no placeholder — the identifier
/// resolved for the caller is exactly that one.
pub proof fn lemma_create_then_fetch(p: PersonView, pairs: Seq<(Seq<char>, Seq<char>)>)
    requires
        p.name is Some,
        (p.name->0).len() > 0,
        spec_uid_lookup(pairs, p.name->0) matches Some(minted) && minted.len() > 0
            && !is_placeholder(minted),
    ensures
        ({
            let prepared = spec_adduser_prepared(p);
            let resolved = spec_resolved_uid(prepared, pairs);
            &&& spec_decode_person(spec_encode_person(prepared)) == Some(prepared)
            &&& prepared.name == p.name
            &&& prepared.email == p.email
            &&& prepared.discord == p.discord
            &&& prepared.instagram == p.instagram
            &&& prepared.snapchat == p.snapchat
            &&& prepared.x == p.x
            &&& prepared.school == p.school
            &&& prepared.friends == p.friends
            &&& prepared.misc == p.misc
            &&& resolved == spec_uid_lookup(pairs, p.name->0)->0
            &&& resolved.len() > 0
            &&& !is_placeholder(resolved)
            &&& forall|n: Seq<char>| resolved != spec_placeholder_label(n)
        }),
{
    lemma_person_round_trip(spec_adduser_prepared(p));
    assert forall|n: Seq<char>|
        spec_resolved_uid(spec_adduser_prepared(p), pairs) != spec_placeholder_label(n) by {
        lemma_placeholder_label_shape(n);
    }
}

} // verus!
