//! The codec between records and the store's wire values: a record is
//! serialized field by field, absent fields as null, and a wire value read
//! back from the store is decoded into a record or rejected.

use vstd::prelude::*;
use vstd::string::StringExecFns;
use crate::errors::ApiError;
use crate::json::{fields_view, items_view, json_view, lemma_lookup_at, lemma_fields_view_index,
    lemma_fields_view_len, lemma_items_view_index, lemma_items_view_len, lookup_field,
    spec_lookup, JsonValue, JsonView};
use crate::model::{Discord, DiscordView, Friend, Instagram, InstagramView, Node, NodeView,
    Person, PersonView, School, SchoolType, SchoolView, X, XView};

verus! {

/// An optional scalar on the wire: its value, or null when absent.
pub open spec fn spec_encode_opt_str(v: Option<Seq<char>>) -> JsonView {
    match v {
        Some(s) => JsonView::Str(s),
        None => JsonView::Null,
    }
}

/// The wire name of a school level.
pub open spec fn spec_school_type_name(t: SchoolType) -> Seq<char> {
    match t {
        SchoolType::Elementary => "Elementary"@,
        SchoolType::Middle => "Middle"@,
        SchoolType::High => "High"@,
        SchoolType::College => "College"@,
        SchoolType::University => "University"@,
    }
}

/// A discord record on the wire.
pub open spec fn spec_encode_discord(d: DiscordView) -> JsonView {
    JsonView::Obj(
        seq![
            ("uid"@, JsonView::Str(d.uid)),
            ("handle"@, spec_encode_opt_str(d.handle)),
            ("display_name"@, spec_encode_opt_str(d.display_name)),
            ("user_id"@, JsonView::Num(d.user_id)),
        ],
    )
}

/// An instagram record on the wire.
pub open spec fn spec_encode_instagram(g: InstagramView) -> JsonView {
    JsonView::Obj(
        seq![
            ("handle"@, spec_encode_opt_str(g.handle)),
            ("display_name"@, spec_encode_opt_str(g.display_name)),
            ("user_id"@, JsonView::Num(g.user_id)),
        ],
    )
}

/// An x record on the wire.
pub open spec fn spec_encode_x(w: XView) -> JsonView {
    JsonView::Obj(
        seq![
            ("handle"@, spec_encode_opt_str(w.handle)),
            ("display_name"@, spec_encode_opt_str(w.display_name)),
            ("user_id"@, JsonView::Num(w.user_id)),
        ],
    )
}

/// A school record on the wire.
pub open spec fn spec_encode_school(s: SchoolView) -> JsonView {
    JsonView::Obj(
        seq![
            ("name"@, JsonView::Str(s.name)),
            ("schooltype"@, JsonView::Str(spec_school_type_name(s.schooltype))),
        ],
    )
}

/// A friend edge on the wire: an object holding only the referenced
/// identifier.
pub open spec fn spec_encode_friend(uid: Seq<char>) -> JsonView {
    JsonView::Obj(seq![("uid"@, JsonView::Str(uid))])
}

/// A whole record on the wire: every field in declaration order, absent
/// fields as null.
pub open spec fn spec_encode_person(p: PersonView) -> JsonView {
    JsonView::Obj(
        seq![
            ("uid"@, spec_encode_opt_str(p.uid)),
            ("name"@, spec_encode_opt_str(p.name)),
            ("email"@, spec_encode_opt_str(p.email)),
            (
                "discord"@,
                match p.discord {
                    Some(d) => spec_encode_discord(d),
                    None => JsonView::Null,
                },
            ),
            (
                "instagram"@,
                match p.instagram {
                    Some(g) => spec_encode_instagram(g),
                    None => JsonView::Null,
                },
            ),
            ("snapchat"@, spec_encode_opt_str(p.snapchat)),
            (
                "x"@,
                match p.x {
                    Some(w) => spec_encode_x(w),
                    None => JsonView::Null,
                },
            ),
            (
                "school"@,
                match p.school {
                    Some(ss) => JsonView::Arr(Seq::new(ss.len(), |i: int| spec_encode_school(ss[i]))),
                    None => JsonView::Null,
                },
            ),
            (
                "friends"@,
                match p.friends {
                    Some(fs) => JsonView::Arr(Seq::new(fs.len(), |i: int| spec_encode_friend(fs[i]))),
                    None => JsonView::Null,
                },
            ),
            (
                "misc"@,
                match p.misc {
                    Some(ms) => JsonView::Arr(Seq::new(ms.len(), |i: int| JsonView::Str(ms[i]))),
                    None => JsonView::Null,
                },
            ),
        ],
    )
}

/// Encodes one optional scalar field.
fn encode_opt_string(v: &Option<String>) -> (r: JsonValue)
    ensures
        json_view(r) == spec_encode_opt_str(v.deep_view()),
{
    match v {
        Some(s) => JsonValue::Str(s.clone()),
        None => JsonValue::Null,
    }
}

/// The wire name of a school level.
pub fn school_type_name(t: &SchoolType) -> (r: String)
    ensures
        r@ == spec_school_type_name(*t),
{
    match t {
        SchoolType::Elementary => String::from_str("Elementary"),
        SchoolType::Middle => String::from_str("Middle"),
        SchoolType::High => String::from_str("High"),
        SchoolType::College => String::from_str("College"),
        SchoolType::University => String::from_str("University"),
    }
}

/// Encodes a discord record.
fn encode_discord(d: &Discord) -> (r: JsonValue)
    ensures
        json_view(r) == spec_encode_discord(d@),
{
    broadcast use lemma_fields_view_index, lemma_fields_view_len;

    let mut fields: Vec<(String, JsonValue)> = Vec::new();
    fields.push((String::from_str("uid"), JsonValue::Str(d.uid.clone())));
    fields.push((String::from_str("handle"), encode_opt_string(&d.handle)));
    fields.push((String::from_str("display_name"), encode_opt_string(&d.display_name)));
    fields.push((String::from_str("user_id"), JsonValue::Num(d.user_id)));
    proof {
        assert(fields_view(fields@) =~= (spec_encode_discord(d@))->Obj_0);
    }
    JsonValue::Obj(fields)
}

/// Encodes an instagram record.
fn encode_instagram(g: &Instagram) -> (r: JsonValue)
    ensures
        json_view(r) == spec_encode_instagram(g@),
{
    broadcast use lemma_fields_view_index, lemma_fields_view_len;

    let mut fields: Vec<(String, JsonValue)> = Vec::new();
    fields.push((String::from_str("handle"), encode_opt_string(&g.handle)));
    fields.push((String::from_str("display_name"), encode_opt_string(&g.display_name)));
    fields.push((String::from_str("user_id"), JsonValue::Num(g.user_id)));
    proof {
        assert(fields_view(fields@) =~= (spec_encode_instagram(g@))->Obj_0);
    }
    JsonValue::Obj(fields)
}

/// Encodes an x record.
fn encode_x(w: &X) -> (r: JsonValue)
    ensures
        json_view(r) == spec_encode_x(w@),
{
    broadcast use lemma_fields_view_index, lemma_fields_view_len;

    let mut fields: Vec<(String, JsonValue)> = Vec::new();
    fields.push((String::from_str("handle"), encode_opt_string(&w.handle)));
    fields.push((String::from_str("display_name"), encode_opt_string(&w.display_name)));
    fields.push((String::from_str("user_id"), JsonValue::Num(w.user_id)));
    proof {
        assert(fields_view(fields@) =~= (spec_encode_x(w@))->Obj_0);
    }
    JsonValue::Obj(fields)
}

/// Encodes a school record.
fn encode_school(s: &School) -> (r: JsonValue)
    ensures
        json_view(r) == spec_encode_school(s@),
{
    broadcast use lemma_fields_view_index, lemma_fields_view_len;

    let mut fields: Vec<(String, JsonValue)> = Vec::new();
    fields.push((String::from_str("name"), JsonValue::Str(s.name.clone())));
    fields.push((String::from_str("schooltype"), JsonValue::Str(school_type_name(&s.schooltype))));
    proof {
        assert(fields_view(fields@) =~= (spec_encode_school(s@))->Obj_0);
    }
    JsonValue::Obj(fields)
}

/// Encodes a friend edge.
fn encode_friend(f: &Friend) -> (r: JsonValue)
    ensures
        json_view(r) == spec_encode_friend(f@),
{
    broadcast use lemma_fields_view_index, lemma_fields_view_len;

    let mut fields: Vec<(String, JsonValue)> = Vec::new();
    fields.push((String::from_str("uid"), JsonValue::Str(f.uid.clone())));
    proof {
        assert(fields_view(fields@) =~= (spec_encode_friend(f@))->Obj_0);
    }
    JsonValue::Obj(fields)
}

/// Serializes a whole record into the wire value that the store's mutation
/// accepts; the exact layout is pinned by `spec_encode_person`.
#[verifier::loop_isolation(false)]
pub fn encode_person(p: &Person) -> (r: JsonValue)
    ensures
        json_view(r) == spec_encode_person(p@),
{
    broadcast use lemma_fields_view_index, lemma_fields_view_len, lemma_items_view_index,
        lemma_items_view_len;

    let school_json: JsonValue = match &p.school {
        Some(ss) => {
            let mut items: Vec<JsonValue> = Vec::new();
            let n = ss.len();
            let mut i: usize = 0;
            while i < n
                invariant
                    0 <= i <= n,
                    items@.len() == i,
                    forall|j: int|
                        0 <= j < i ==> json_view(items@[j]) == spec_encode_school(
                            ss.deep_view()[j],
                        ),
                decreases n - i,
            {
                items.push(encode_school(&ss[i]));
                i = i + 1;
            }
            proof {
                assert(items_view(items@) =~= Seq::new(
                    ss.deep_view().len(),
                    |j: int| spec_encode_school(ss.deep_view()[j]),
                ));
            }
            JsonValue::Arr(items)
        },
        None => JsonValue::Null,
    };
    let friends_json: JsonValue = match &p.friends {
        Some(fs) => {
            let mut items: Vec<JsonValue> = Vec::new();
            let n = fs.len();
            let mut i: usize = 0;
            while i < n
                invariant
                    0 <= i <= n,
                    items@.len() == i,
                    forall|j: int|
                        0 <= j < i ==> json_view(items@[j]) == spec_encode_friend(
                            fs.deep_view()[j],
                        ),
                decreases n - i,
            {
                items.push(encode_friend(&fs[i]));
                i = i + 1;
            }
            proof {
                assert(items_view(items@) =~= Seq::new(
                    fs.deep_view().len(),
                    |j: int| spec_encode_friend(fs.deep_view()[j]),
                ));
            }
            JsonValue::Arr(items)
        },
        None => JsonValue::Null,
    };
    let misc_json: JsonValue = match &p.misc {
        Some(ms) => {
            let mut items: Vec<JsonValue> = Vec::new();
            let n = ms.len();
            let mut i: usize = 0;
            while i < n
                invariant
                    0 <= i <= n,
                    items@.len() == i,
                    forall|j: int|
                        0 <= j < i ==> json_view(items@[j]) == JsonView::Str(ms.deep_view()[j]),
                decreases n - i,
            {
                items.push(JsonValue::Str(ms[i].clone()));
                i = i + 1;
            }
            proof {
                assert(items_view(items@) =~= Seq::new(
                    ms.deep_view().len(),
                    |j: int| JsonView::Str(ms.deep_view()[j]),
                ));
            }
            JsonValue::Arr(items)
        },
        None => JsonValue::Null,
    };
    let discord_json: JsonValue = match &p.discord {
        Some(d) => encode_discord(d),
        None => JsonValue::Null,
    };
    let instagram_json: JsonValue = match &p.instagram {
        Some(g) => encode_instagram(g),
        None => JsonValue::Null,
    };
    let x_json: JsonValue = match &p.x {
        Some(w) => encode_x(w),
        None => JsonValue::Null,
    };
    let mut fields: Vec<(String, JsonValue)> = Vec::new();
    fields.push((String::from_str("uid"), encode_opt_string(&p.uid)));
    fields.push((String::from_str("name"), encode_opt_string(&p.name)));
    fields.push((String::from_str("email"), encode_opt_string(&p.email)));
    fields.push((String::from_str("discord"), discord_json));
    fields.push((String::from_str("instagram"), instagram_json));
    fields.push((String::from_str("snapchat"), encode_opt_string(&p.snapchat)));
    fields.push((String::from_str("x"), x_json));
    fields.push((String::from_str("school"), school_json));
    fields.push((String::from_str("friends"), friends_json));
    fields.push((String::from_str("misc"), misc_json));
    proof {
        assert(fields_view(fields@) =~= (spec_encode_person(p@))->Obj_0);
    }
    JsonValue::Obj(fields)
}

/// An optional scalar read off the wire: absent or null is fine, a string is
/// its value, anything else is a decoding failure.
pub open spec fn spec_opt_str_field(fields: Seq<(Seq<char>, JsonView)>, key: Seq<char>) -> Option<
    Option<Seq<char>>,
> {
    match spec_lookup(fields, key) {
        None => Some(None),
        Some(JsonView::Null) => Some(None),
        Some(JsonView::Str(s)) => Some(Some(s)),
        Some(_) => None,
    }
}

/// A required string read off the wire.
pub open spec fn spec_req_str_field(fields: Seq<(Seq<char>, JsonView)>, key: Seq<char>) -> Option<
    Seq<char>,
> {
    match spec_lookup(fields, key) {
        Some(JsonView::Str(s)) => Some(s),
        _ => None,
    }
}

/// A required number read off the wire.
pub open spec fn spec_req_num_field(fields: Seq<(Seq<char>, JsonView)>, key: Seq<char>) -> Option<
    u64,
> {
    match spec_lookup(fields, key) {
        Some(JsonView::Num(n)) => Some(n),
        _ => None,
    }
}

/// The school level named by a wire string.
pub open spec fn spec_school_type_of(s: Seq<char>) -> Option<SchoolType> {
    if s == "Elementary"@ {
        Some(SchoolType::Elementary)
    } else if s == "Middle"@ {
        Some(SchoolType::Middle)
    } else if s == "High"@ {
        Some(SchoolType::High)
    } else if s == "College"@ {
        Some(SchoolType::College)
    } else if s == "University"@ {
        Some(SchoolType::University)
    } else {
        None
    }
}

/// Does a wire value decode into a discord record?
pub open spec fn discord_fields_ok(f: Seq<(Seq<char>, JsonView)>) -> bool {
    &&& spec_req_str_field(f, "uid"@) is Some
    &&& spec_opt_str_field(f, "handle"@) is Some
    &&& spec_opt_str_field(f, "display_name"@) is Some
    &&& spec_req_num_field(f, "user_id"@) is Some
}

/// The discord record a wire value decodes into, if any.
pub open spec fn spec_decode_discord(v: JsonView) -> Option<DiscordView> {
    match v {
        JsonView::Obj(f) => if discord_fields_ok(f) {
            Some(
                (DiscordView {
                    uid: spec_req_str_field(f, "uid"@)->0,
                    handle: spec_opt_str_field(f, "handle"@)->0,
                    display_name: spec_opt_str_field(f, "display_name"@)->0,
                    user_id: spec_req_num_field(f, "user_id"@)->0,
                }),
            )
        } else {
            None
        },
        _ => None,
    }
}

/// Does a wire value decode into an instagram record?
pub open spec fn instagram_fields_ok(f: Seq<(Seq<char>, JsonView)>) -> bool {
    &&& spec_opt_str_field(f, "handle"@) is Some
    &&& spec_opt_str_field(f, "display_name"@) is Some
    &&& spec_req_num_field(f, "user_id"@) is Some
}

/// The instagram record a wire value decodes into, if any.
pub open spec fn spec_decode_instagram(v: JsonView) -> Option<InstagramView> {
    match v {
        JsonView::Obj(f) => if instagram_fields_ok(f) {
            Some(
                (InstagramView {
                    handle: spec_opt_str_field(f, "handle"@)->0,
                    display_name: spec_opt_str_field(f, "display_name"@)->0,
                    user_id: spec_req_num_field(f, "user_id"@)->0,
                }),
            )
        } else {
            None
        },
        _ => None,
    }
}

/// The x record a wire value decodes into, if any.
pub open spec fn spec_decode_x(v: JsonView) -> Option<XView> {
    match v {
        JsonView::Obj(f) => if instagram_fields_ok(f) {
            Some(
                (XView {
                    handle: spec_opt_str_field(f, "handle"@)->0,
                    display_name: spec_opt_str_field(f, "display_name"@)->0,
                    user_id: spec_req_num_field(f, "user_id"@)->0,
                }),
            )
        } else {
            None
        },
        _ => None,
    }
}

/// The school record a wire value decodes into, if any.
pub open spec fn spec_decode_school(v: JsonView) -> Option<SchoolView> {
    match v {
        JsonView::Obj(f) => if spec_req_str_field(f, "name"@) is Some && (spec_req_str_field(
            f,
            "schooltype"@,
        ) matches Some(t) && spec_school_type_of(t) is Some) {
            Some(
                (SchoolView {
                    name: spec_req_str_field(f, "name"@)->0,
                    schooltype: spec_school_type_of(spec_req_str_field(f, "schooltype"@)->0)->0,
                }),
            )
        } else {
            None
        },
        _ => None,
    }
}

/// The friend identifier a wire value decodes into, if any.
pub open spec fn spec_decode_friend(v: JsonView) -> Option<Seq<char>> {
    match v {
        JsonView::Obj(f) => spec_req_str_field(f, "uid"@),
        _ => None,
    }
}

/// Do all items of an array decode into school records?
pub open spec fn school_seq_ok(s: Seq<JsonView>) -> bool {
    forall|i: int| 0 <= i < s.len() ==> spec_decode_school(#[trigger] s[i]) is Some
}

/// The school records of an array that decodes.
pub open spec fn spec_decoded_schools(s: Seq<JsonView>) -> Seq<SchoolView> {
    Seq::new(s.len(), |i: int| spec_decode_school(s[i])->0)
}

/// Do all items of an array decode into friend edges?
pub open spec fn friend_seq_ok(s: Seq<JsonView>) -> bool {
    forall|i: int| 0 <= i < s.len() ==> spec_decode_friend(#[trigger] s[i]) is Some
}

/// The friend identifiers of an array that decodes.
pub open spec fn spec_decoded_friends(s: Seq<JsonView>) -> Seq<Seq<char>> {
    Seq::new(s.len(), |i: int| spec_decode_friend(s[i])->0)
}

/// Are all items of an array wire strings?
pub open spec fn str_seq_ok(s: Seq<JsonView>) -> bool {
    forall|i: int| 0 <= i < s.len() ==> #[trigger] s[i] is Str
}

/// The strings of an array of wire strings.
pub open spec fn spec_decoded_strs(s: Seq<JsonView>) -> Seq<Seq<char>> {
    Seq::new(s.len(), |i: int| s[i]->Str_0)
}

/// Does the optional discord field of a record decode?
pub open spec fn sub_discord_ok(f: Seq<(Seq<char>, JsonView)>) -> bool {
    match spec_lookup(f, "discord"@) {
        None => true,
        Some(JsonView::Null) => true,
        Some(o) => spec_decode_discord(o) is Some,
    }
}

/// The decoded optional discord field of a record.
pub open spec fn spec_sub_discord(f: Seq<(Seq<char>, JsonView)>) -> Option<DiscordView> {
    match spec_lookup(f, "discord"@) {
        None => None,
        Some(JsonView::Null) => None,
        Some(o) => spec_decode_discord(o),
    }
}

/// Does the optional instagram field of a record decode?
pub open spec fn sub_instagram_ok(f: Seq<(Seq<char>, JsonView)>) -> bool {
    match spec_lookup(f, "instagram"@) {
        None => true,
        Some(JsonView::Null) => true,
        Some(o) => spec_decode_instagram(o) is Some,
    }
}

/// The decoded optional instagram field of a record.
pub open spec fn spec_sub_instagram(f: Seq<(Seq<char>, JsonView)>) -> Option<InstagramView> {
    match spec_lookup(f, "instagram"@) {
        None => None,
        Some(JsonView::Null) => None,
        Some(o) => spec_decode_instagram(o),
    }
}

/// Does the optional x field of a record decode?
pub open spec fn sub_x_ok(f: Seq<(Seq<char>, JsonView)>) -> bool {
    match spec_lookup(f, "x"@) {
        None => true,
        Some(JsonView::Null) => true,
        Some(o) => spec_decode_x(o) is Some,
    }
}

/// The decoded optional x field of a record.
pub open spec fn spec_sub_x(f: Seq<(Seq<char>, JsonView)>) -> Option<XView> {
    match spec_lookup(f, "x"@) {
        None => None,
        Some(JsonView::Null) => None,
        Some(o) => spec_decode_x(o),
    }
}

/// Does the optional school list of a record decode?
pub open spec fn sub_school_ok(f: Seq<(Seq<char>, JsonView)>) -> bool {
    match spec_lookup(f, "school"@) {
        None => true,
        Some(JsonView::Null) => true,
        Some(JsonView::Arr(items)) => school_seq_ok(items),
        Some(_) => false,
    }
}

/// The decoded optional school list of a record.
pub open spec fn spec_sub_school(f: Seq<(Seq<char>, JsonView)>) -> Option<Seq<SchoolView>> {
    match spec_lookup(f, "school"@) {
        None => None,
        Some(JsonView::Null) => None,
        Some(JsonView::Arr(items)) => Some(spec_decoded_schools(items)),
        Some(_) => None,
    }
}

/// Does the optional friend list of a record decode?
pub open spec fn sub_friends_ok(f: Seq<(Seq<char>, JsonView)>) -> bool {
    match spec_lookup(f, "friends"@) {
        None => true,
        Some(JsonView::Null) => true,
        Some(JsonView::Arr(items)) => friend_seq_ok(items),
        Some(_) => false,
    }
}

/// The decoded optional friend list of a record.
pub open spec fn spec_sub_friends(f: Seq<(Seq<char>, JsonView)>) -> Option<Seq<Seq<char>>> {
    match spec_lookup(f, "friends"@) {
        None => None,
        Some(JsonView::Null) => None,
        Some(JsonView::Arr(items)) => Some(spec_decoded_friends(items)),
        Some(_) => None,
    }
}

/// Does the optional misc list of a record decode?
pub open spec fn sub_misc_ok(f: Seq<(Seq<char>, JsonView)>) -> bool {
    match spec_lookup(f, "misc"@) {
        None => true,
        Some(JsonView::Null) => true,
        Some(JsonView::Arr(items)) => str_seq_ok(items),
        Some(_) => false,
    }
}

/// The decoded optional misc list of a record.
pub open spec fn spec_sub_misc(f: Seq<(Seq<char>, JsonView)>) -> Option<Seq<Seq<char>>> {
    match spec_lookup(f, "misc"@) {
        None => None,
        Some(JsonView::Null) => None,
        Some(JsonView::Arr(items)) => Some(spec_decoded_strs(items)),
        Some(_) => None,
    }
}

/// Does a wire value decode into a whole record?
pub open spec fn person_fields_ok(f: Seq<(Seq<char>, JsonView)>) -> bool {
    &&& spec_opt_str_field(f, "uid"@) is Some
    &&& spec_opt_str_field(f, "name"@) is Some
    &&& spec_opt_str_field(f, "email"@) is Some
    &&& spec_opt_str_field(f, "snapchat"@) is Some
    &&& sub_discord_ok(f)
    &&& sub_instagram_ok(f)
    &&& sub_x_ok(f)
    &&& sub_school_ok(f)
    &&& sub_friends_ok(f)
    &&& sub_misc_ok(f)
}

/// A fresh decoding error.
fn decode_error() -> (r: ApiError)
    ensures
        r is SerializationFailure,
{
    ApiError::SerializationFailure(String::from_str("malformed record from the store"))
}

/// Reads an optional scalar field.
fn decode_opt_str_field(fields: &Vec<(String, JsonValue)>, key: &str) -> (r: Result<
    Option<String>,
    ApiError,
>)
    ensures
        r matches Ok(v) ==> spec_opt_str_field(fields_view(fields@), key@) == Some(v.deep_view()),
        r is Err <==> spec_opt_str_field(fields_view(fields@), key@) is None,
        r matches Err(e) ==> e is SerializationFailure,
{
    match lookup_field(fields, key) {
        None => Ok(None),
        Some(JsonValue::Null) => Ok(None),
        Some(JsonValue::Str(s)) => Ok(Some(s.clone())),
        Some(_) => Err(decode_error()),
    }
}

/// Reads a required string field.
fn decode_req_str_field(fields: &Vec<(String, JsonValue)>, key: &str) -> (r: Result<
    String,
    ApiError,
>)
    ensures
        r matches Ok(v) ==> spec_req_str_field(fields_view(fields@), key@) == Some(v@),
        r is Err <==> spec_req_str_field(fields_view(fields@), key@) is None,
        r matches Err(e) ==> e is SerializationFailure,
{
    match lookup_field(fields, key) {
        Some(JsonValue::Str(s)) => Ok(s.clone()),
        Some(_) => Err(decode_error()),
        None => Err(decode_error()),
    }
}

/// Reads a required numeric field.
fn decode_req_num_field(fields: &Vec<(String, JsonValue)>, key: &str) -> (r: Result<u64, ApiError>)
    ensures
        r matches Ok(v) ==> spec_req_num_field(fields_view(fields@), key@) == Some(v),
        r is Err <==> spec_req_num_field(fields_view(fields@), key@) is None,
        r matches Err(e) ==> e is SerializationFailure,
{
    match lookup_field(fields, key) {
        Some(JsonValue::Num(n)) => Ok(*n),
        Some(_) => Err(decode_error()),
        None => Err(decode_error()),
    }
}

/// Decodes a discord record.
fn decode_discord(v: &JsonValue) -> (r: Result<Discord, ApiError>)
    ensures
        r matches Ok(d) ==> spec_decode_discord(json_view(*v)) == Some(d@),
        r is Err <==> spec_decode_discord(json_view(*v)) is None,
        r matches Err(e) ==> e is SerializationFailure,
{
    let fields = match v {
        JsonValue::Obj(fields) => fields,
        _ => {
            return Err(decode_error());
        },
    };
    let uid = match decode_req_str_field(fields, "uid") {
        Ok(s) => s,
        Err(e) => {
            return Err(e);
        },
    };
    let handle = match decode_opt_str_field(fields, "handle") {
        Ok(s) => s,
        Err(e) => {
            return Err(e);
        },
    };
    let display_name = match decode_opt_str_field(fields, "display_name") {
        Ok(s) => s,
        Err(e) => {
            return Err(e);
        },
    };
    let user_id = match decode_req_num_field(fields, "user_id") {
        Ok(n) => n,
        Err(e) => {
            return Err(e);
        },
    };
    Ok(Discord { uid, handle, display_name, user_id })
}

/// Decodes an instagram record.
fn decode_instagram(v: &JsonValue) -> (r: Result<Instagram, ApiError>)
    ensures
        r matches Ok(g) ==> spec_decode_instagram(json_view(*v)) == Some(g@),
        r is Err <==> spec_decode_instagram(json_view(*v)) is None,
        r matches Err(e) ==> e is SerializationFailure,
{
    let fields = match v {
        JsonValue::Obj(fields) => fields,
        _ => {
            return Err(decode_error());
        },
    };
    let handle = match decode_opt_str_field(fields, "handle") {
        Ok(s) => s,
        Err(e) => {
            return Err(e);
        },
    };
    let display_name = match decode_opt_str_field(fields, "display_name") {
        Ok(s) => s,
        Err(e) => {
            return Err(e);
        },
    };
    let user_id = match decode_req_num_field(fields, "user_id") {
        Ok(n) => n,
        Err(e) => {
            return Err(e);
        },
    };
    Ok(Instagram { handle, display_name, user_id })
}

/// Decodes an x record.
fn decode_x(v: &JsonValue) -> (r: Result<X, ApiError>)
    ensures
        r matches Ok(w) ==> spec_decode_x(json_view(*v)) == Some(w@),
        r is Err <==> spec_decode_x(json_view(*v)) is None,
        r matches Err(e) ==> e is SerializationFailure,
{
    let fields = match v {
        JsonValue::Obj(fields) => fields,
        _ => {
            return Err(decode_error());
        },
    };
    let handle = match decode_opt_str_field(fields, "handle") {
        Ok(s) => s,
        Err(e) => {
            return Err(e);
        },
    };
    let display_name = match decode_opt_str_field(fields, "display_name") {
        Ok(s) => s,
        Err(e) => {
            return Err(e);
        },
    };
    let user_id = match decode_req_num_field(fields, "user_id") {
        Ok(n) => n,
        Err(e) => {
            return Err(e);
        },
    };
    Ok(X { handle, display_name, user_id })
}

/// Decodes a school record.
fn decode_school(v: &JsonValue) -> (r: Result<School, ApiError>)
    ensures
        r matches Ok(s) ==> spec_decode_school(json_view(*v)) == Some(s@),
        r is Err <==> spec_decode_school(json_view(*v)) is None,
        r matches Err(e) ==> e is SerializationFailure,
{
    let fields = match v {
        JsonValue::Obj(fields) => fields,
        _ => {
            return Err(decode_error());
        },
    };
    let name = match decode_req_str_field(fields, "name") {
        Ok(s) => s,
        Err(e) => {
            return Err(e);
        },
    };
    let level_name = match decode_req_str_field(fields, "schooltype") {
        Ok(s) => s,
        Err(e) => {
            return Err(e);
        },
    };
    let schooltype = if crate::text::str_eq(level_name.as_str(), "Elementary") {
        SchoolType::Elementary
    } else if crate::text::str_eq(level_name.as_str(), "Middle") {
        SchoolType::Middle
    } else if crate::text::str_eq(level_name.as_str(), "High") {
        SchoolType::High
    } else if crate::text::str_eq(level_name.as_str(), "College") {
        SchoolType::College
    } else if crate::text::str_eq(level_name.as_str(), "University") {
        SchoolType::University
    } else {
        return Err(decode_error());
    };
    Ok(School { name, schooltype })
}

/// Decodes a friend edge.
fn decode_friend(v: &JsonValue) -> (r: Result<Friend, ApiError>)
    ensures
        r matches Ok(f) ==> spec_decode_friend(json_view(*v)) == Some(f@),
        r is Err <==> spec_decode_friend(json_view(*v)) is None,
        r matches Err(e) ==> e is SerializationFailure,
{
    let fields = match v {
        JsonValue::Obj(fields) => fields,
        _ => {
            return Err(decode_error());
        },
    };
    match decode_req_str_field(fields, "uid") {
        Ok(s) => Ok(Friend { uid: s }),
        Err(e) => Err(e),
    }
}

/// Decodes an array of school records.
#[verifier::loop_isolation(false)]
fn decode_schools(items: &Vec<JsonValue>) -> (r: Result<Vec<School>, ApiError>)
    ensures
        r matches Ok(ss) ==> school_seq_ok(items_view(items@)) && ss.deep_view()
            == spec_decoded_schools(items_view(items@)),
        r is Err <==> !school_seq_ok(items_view(items@)),
        r matches Err(e) ==> e is SerializationFailure,
{
    broadcast use lemma_items_view_index, lemma_items_view_len;

    let ghost iv = items_view(items@);
    let n = items.len();
    let mut out: Vec<School> = Vec::new();
    let mut i: usize = 0;
    while i < n
        invariant
            0 <= i <= n,
            out@.len() == i,
            forall|j: int| 0 <= j < i ==> spec_decode_school(#[trigger] iv[j]) is Some,
            forall|j: int|
                0 <= j < i ==> out.deep_view()[j] == spec_decode_school(#[trigger] iv[j])->0,
        decreases n - i,
    {
        match decode_school(&items[i]) {
            Ok(s) => {
                out.push(s);
            },
            Err(e) => {
                proof {
                    assert(spec_decode_school(iv[i as int]) is None);
                }
                return Err(e);
            },
        }
        i = i + 1;
    }
    proof {
        assert(out.deep_view() =~= spec_decoded_schools(iv));
    }
    Ok(out)
}

/// Decodes an array of friend edges.
#[verifier::loop_isolation(false)]
fn decode_friends(items: &Vec<JsonValue>) -> (r: Result<Vec<Friend>, ApiError>)
    ensures
        r matches Ok(fs) ==> friend_seq_ok(items_view(items@)) && fs.deep_view()
            == spec_decoded_friends(items_view(items@)),
        r is Err <==> !friend_seq_ok(items_view(items@)),
        r matches Err(e) ==> e is SerializationFailure,
{
    broadcast use lemma_items_view_index, lemma_items_view_len;

    let ghost iv = items_view(items@);
    let n = items.len();
    let mut out: Vec<Friend> = Vec::new();
    let mut i: usize = 0;
    while i < n
        invariant
            0 <= i <= n,
            out@.len() == i,
            forall|j: int| 0 <= j < i ==> spec_decode_friend(#[trigger] iv[j]) is Some,
            forall|j: int|
                0 <= j < i ==> out.deep_view()[j] == spec_decode_friend(#[trigger] iv[j])->0,
        decreases n - i,
    {
        match decode_friend(&items[i]) {
            Ok(f) => {
                out.push(f);
            },
            Err(e) => {
                proof {
                    assert(spec_decode_friend(iv[i as int]) is None);
                }
                return Err(e);
            },
        }
        i = i + 1;
    }
    proof {
        assert(out.deep_view() =~= spec_decoded_friends(iv));
    }
    Ok(out)
}

/// Decodes an array of plain strings.
#[verifier::loop_isolation(false)]
fn decode_strings(items: &Vec<JsonValue>) -> (r: Result<Vec<String>, ApiError>)
    ensures
        r matches Ok(ms) ==> str_seq_ok(items_view(items@)) && ms.deep_view()
            == spec_decoded_strs(items_view(items@)),
        r is Err <==> !str_seq_ok(items_view(items@)),
        r matches Err(e) ==> e is SerializationFailure,
{
    broadcast use lemma_items_view_index, lemma_items_view_len;

    let ghost iv = items_view(items@);
    let n = items.len();
    let mut out: Vec<String> = Vec::new();
    let mut i: usize = 0;
    while i < n
        invariant
            0 <= i <= n,
            out@.len() == i,
            forall|j: int| 0 <= j < i ==> #[trigger] iv[j] is Str,
            forall|j: int| 0 <= j < i ==> out.deep_view()[j] == (#[trigger] iv[j])->Str_0,
        decreases n - i,
    {
        match &items[i] {
            JsonValue::Str(s) => {
                out.push(s.clone());
            },
            _ => {
                proof {
                    assert(!(iv[i as int] is Str));
                }
                return Err(decode_error());
            },
        }
        i = i + 1;
    }
    proof {
        assert(out.deep_view() =~= spec_decoded_strs(iv));
    }
    Ok(out)
}

/// Decodes a whole record off the wire. Success, and the record, are pinned
/// by `spec_decode_person`.
pub fn decode_person(v: &JsonValue) -> (r: Result<Person, ApiError>)
    ensures
        r matches Ok(p) ==> spec_decode_person(json_view(*v)) == Some(p@),
        r is Err <==> spec_decode_person(json_view(*v)) is None,
        r matches Err(e) ==> e is SerializationFailure,
{
    let fields = match v {
        JsonValue::Obj(fields) => fields,
        _ => {
            return Err(decode_error());
        },
    };
    let uid = match decode_opt_str_field(fields, "uid") {
        Ok(s) => s,
        Err(e) => {
            return Err(e);
        },
    };
    let name = match decode_opt_str_field(fields, "name") {
        Ok(s) => s,
        Err(e) => {
            return Err(e);
        },
    };
    let email = match decode_opt_str_field(fields, "email") {
        Ok(s) => s,
        Err(e) => {
            return Err(e);
        },
    };
    let snapchat = match decode_opt_str_field(fields, "snapchat") {
        Ok(s) => s,
        Err(e) => {
            return Err(e);
        },
    };
    let discord = match lookup_field(fields, "discord") {
        None => None,
        Some(JsonValue::Null) => None,
        Some(o) => match decode_discord(o) {
            Ok(d) => Some(d),
            Err(e) => {
                return Err(e);
            },
        },
    };
    let instagram = match lookup_field(fields, "instagram") {
        None => None,
        Some(JsonValue::Null) => None,
        Some(o) => match decode_instagram(o) {
            Ok(g) => Some(g),
            Err(e) => {
                return Err(e);
            },
        },
    };
    let x = match lookup_field(fields, "x") {
        None => None,
        Some(JsonValue::Null) => None,
        Some(o) => match decode_x(o) {
            Ok(w) => Some(w),
            Err(e) => {
                return Err(e);
            },
        },
    };
    let school = match lookup_field(fields, "school") {
        None => None,
        Some(JsonValue::Null) => None,
        Some(JsonValue::Arr(items)) => match decode_schools(items) {
            Ok(ss) => Some(ss),
            Err(e) => {
                return Err(e);
            },
        },
        Some(_) => {
            return Err(decode_error());
        },
    };
    let friends = match lookup_field(fields, "friends") {
        None => None,
        Some(JsonValue::Null) => None,
        Some(JsonValue::Arr(items)) => match decode_friends(items) {
            Ok(fs) => Some(fs),
            Err(e) => {
                return Err(e);
            },
        },
        Some(_) => {
            return Err(decode_error());
        },
    };
    let misc = match lookup_field(fields, "misc") {
        None => None,
        Some(JsonValue::Null) => None,
        Some(JsonValue::Arr(items)) => match decode_strings(items) {
            Ok(ms) => Some(ms),
            Err(e) => {
                return Err(e);
            },
        },
        Some(_) => {
            return Err(decode_error());
        },
    };
    Ok(Person { uid, name, email, discord, instagram, snapchat, x, school, friends, misc })
}

/// The record a wire value decodes into, if any: unknown fields are ignored,
/// absent and null fields are absent fields of the record.
pub open spec fn spec_decode_person(v: JsonView) -> Option<PersonView> {
    match v {
        JsonView::Obj(f) => if person_fields_ok(f) {
            Some(
                (PersonView {
                    uid: spec_opt_str_field(f, "uid"@)->0,
                    name: spec_opt_str_field(f, "name"@)->0,
                    email: spec_opt_str_field(f, "email"@)->0,
                    discord: spec_sub_discord(f),
                    instagram: spec_sub_instagram(f),
                    snapchat: spec_opt_str_field(f, "snapchat"@)->0,
                    x: spec_sub_x(f),
                    school: spec_sub_school(f),
                    friends: spec_sub_friends(f),
                    misc: spec_sub_misc(f),
                }),
            )
        } else {
            None
        },
        _ => None,
    }
}

/// Do all items of an array decode into whole records?
pub open spec fn person_seq_ok(s: Seq<JsonView>) -> bool {
    forall|i: int| 0 <= i < s.len() ==> spec_decode_person(#[trigger] s[i]) is Some
}

/// The records of an array that decodes.
pub open spec fn spec_decoded_people(s: Seq<JsonView>) -> Seq<PersonView> {
    Seq::new(s.len(), |i: int| spec_decode_person(s[i])->0)
}

/// The record list carried by a read response: an object whose `all` field
/// is an array of records.
pub open spec fn spec_decode_people(v: JsonView) -> Option<Seq<PersonView>> {
    match v {
        JsonView::Obj(f) => match spec_lookup(f, "all"@) {
            Some(JsonView::Arr(items)) => if person_seq_ok(items) {
                Some(spec_decoded_people(items))
            } else {
                None
            },
            _ => None,
        },
        _ => None,
    }
}

/// Decodes a read response into the records it carries. Success, and the
/// records, are pinned by `spec_decode_people`.
#[verifier::loop_isolation(false)]
pub fn decode_people(v: &JsonValue) -> (r: Result<Vec<Person>, ApiError>)
    ensures
        r matches Ok(ps) ==> spec_decode_people(json_view(*v)) == Some(ps.deep_view()),
        r is Err <==> spec_decode_people(json_view(*v)) is None,
        r matches Err(e) ==> e is SerializationFailure,
{
    broadcast use lemma_items_view_index, lemma_items_view_len;

    let fields = match v {
        JsonValue::Obj(fields) => fields,
        _ => {
            return Err(decode_error());
        },
    };
    let items = match lookup_field(fields, "all") {
        Some(JsonValue::Arr(items)) => items,
        Some(_) => {
            return Err(decode_error());
        },
        None => {
            return Err(decode_error());
        },
    };
    let ghost iv = items_view(items@);
    let n = items.len();
    let mut out: Vec<Person> = Vec::new();
    let mut i: usize = 0;
    while i < n
        invariant
            0 <= i <= n,
            out@.len() == i,
            forall|j: int| 0 <= j < i ==> spec_decode_person(#[trigger] iv[j]) is Some,
            forall|j: int|
                0 <= j < i ==> out.deep_view()[j] == spec_decode_person(#[trigger] iv[j])->0,
        decreases n - i,
    {
        match decode_person(&items[i]) {
            Ok(p) => {
                out.push(p);
            },
            Err(e) => {
                proof {
                    assert(spec_decode_person(iv[i as int]) is None);
                }
                return Err(e);
            },
        }
        i = i + 1;
    }
    proof {
        assert(out.deep_view() =~= spec_decoded_people(iv));
    }
    Ok(out)
}

/// The index projection a wire value decodes into, if any: an identifier
/// and a name.
pub open spec fn spec_decode_node(v: JsonView) -> Option<NodeView> {
    match v {
        JsonView::Obj(f) => if spec_req_str_field(f, "uid"@) is Some && spec_req_str_field(
            f,
            "name"@,
        ) is Some {
            Some(
                (NodeView {
                    uid: spec_req_str_field(f, "uid"@)->0,
                    name: spec_req_str_field(f, "name"@)->0,
                }),
            )
        } else {
            None
        },
        _ => None,
    }
}

/// Do all items of an array decode into index projections?
pub open spec fn node_seq_ok(s: Seq<JsonView>) -> bool {
    forall|i: int| 0 <= i < s.len() ==> spec_decode_node(#[trigger] s[i]) is Some
}

/// The index projections of an array that decodes.
pub open spec fn spec_decoded_nodes(s: Seq<JsonView>) -> Seq<NodeView> {
    Seq::new(s.len(), |i: int| spec_decode_node(s[i])->0)
}

/// The projection list carried by the index-building response: an object
/// whose `queryNodes` field is an array of identifier/name pairs.
pub open spec fn spec_decode_nodes(v: JsonView) -> Option<Seq<NodeView>> {
    match v {
        JsonView::Obj(f) => match spec_lookup(f, "queryNodes"@) {
            Some(JsonView::Arr(items)) => if node_seq_ok(items) {
                Some(spec_decoded_nodes(items))
            } else {
                None
            },
            _ => None,
        },
        _ => None,
    }
}

/// Decodes one index projection.
fn decode_node(v: &JsonValue) -> (r: Result<Node, ApiError>)
    ensures
        r matches Ok(nd) ==> spec_decode_node(json_view(*v)) == Some(nd@),
        r is Err <==> spec_decode_node(json_view(*v)) is None,
        r matches Err(e) ==> e is SerializationFailure,
{
    let fields = match v {
        JsonValue::Obj(fields) => fields,
        _ => {
            return Err(decode_error());
        },
    };
    let uid = match decode_req_str_field(fields, "uid") {
        Ok(s) => s,
        Err(e) => {
            return Err(e);
        },
    };
    let name = match decode_req_str_field(fields, "name") {
        Ok(s) => s,
        Err(e) => {
            return Err(e);
        },
    };
    Ok(Node { uid, name })
}

/// Decodes the index-building response into its identifier/name pairs.
/// Success, and the pairs, are pinned by `spec_decode_nodes`.
#[verifier::loop_isolation(false)]
pub fn decode_nodes(v: &JsonValue) -> (r: Result<Vec<Node>, ApiError>)
    ensures
        r matches Ok(ns) ==> spec_decode_nodes(json_view(*v)) == Some(ns.deep_view()),
        r is Err <==> spec_decode_nodes(json_view(*v)) is None,
        r matches Err(e) ==> e is SerializationFailure,
{
    broadcast use lemma_items_view_index, lemma_items_view_len;

    let fields = match v {
        JsonValue::Obj(fields) => fields,
        _ => {
            return Err(decode_error());
        },
    };
    let items = match lookup_field(fields, "queryNodes") {
        Some(JsonValue::Arr(items)) => items,
        Some(_) => {
            return Err(decode_error());
        },
        None => {
            return Err(decode_error());
        },
    };
    let ghost iv = items_view(items@);
    let n = items.len();
    let mut out: Vec<Node> = Vec::new();
    let mut i: usize = 0;
    while i < n
        invariant
            0 <= i <= n,
            out@.len() == i,
            forall|j: int| 0 <= j < i ==> spec_decode_node(#[trigger] iv[j]) is Some,
            forall|j: int|
                0 <= j < i ==> out.deep_view()[j] == spec_decode_node(#[trigger] iv[j])->0,
        decreases n - i,
    {
        match decode_node(&items[i]) {
            Ok(nd) => {
                out.push(nd);
            },
            Err(e) => {
                proof {
                    assert(spec_decode_node(iv[i as int]) is None);
                }
                return Err(e);
            },
        }
        i = i + 1;
    }
    proof {
        assert(out.deep_view() =~= spec_decoded_nodes(iv));
    }
    Ok(out)
}

/// A school level's wire name decodes back to the level.
proof fn lemma_school_type_round_trip(t: SchoolType)
    ensures
        spec_school_type_of(spec_school_type_name(t)) == Some(t),
{
    reveal_strlit("Elementary");
    reveal_strlit("Middle");
    reveal_strlit("High");
    reveal_strlit("College");
    reveal_strlit("University");
    assert("Elementary"@.len() == 10);
    assert("Middle"@.len() == 6);
    assert("High"@.len() == 4);
    assert("College"@.len() == 7);
    assert("University"@.len() == 10);
    assert("Elementary"@[0] == 'E');
    assert("University"@[0] == 'U');
}

/// An encoded discord record decodes back to itself.
proof fn lemma_discord_round_trip(d: DiscordView)
    ensures
        spec_decode_discord(spec_encode_discord(d)) == Some(d),
{
    reveal_strlit("uid");
    reveal_strlit("handle");
    reveal_strlit("display_name");
    reveal_strlit("user_id");
    assert("uid"@.len() == 3);
    assert("handle"@.len() == 6);
    assert("display_name"@.len() == 12);
    assert("user_id"@.len() == 7);
    let f = (spec_encode_discord(d))->Obj_0;
    lemma_lookup_at(f, "uid"@, 0);
    lemma_lookup_at(f, "handle"@, 1);
    lemma_lookup_at(f, "display_name"@, 2);
    lemma_lookup_at(f, "user_id"@, 3);
}

/// An encoded instagram record decodes back to itself.
proof fn lemma_instagram_round_trip(g: InstagramView)
    ensures
        spec_decode_instagram(spec_encode_instagram(g)) == Some(g),
{
    reveal_strlit("handle");
    reveal_strlit("display_name");
    reveal_strlit("user_id");
    assert("handle"@.len() == 6);
    assert("display_name"@.len() == 12);
    assert("user_id"@.len() == 7);
    let f = (spec_encode_instagram(g))->Obj_0;
    lemma_lookup_at(f, "handle"@, 0);
    lemma_lookup_at(f, "display_name"@, 1);
    lemma_lookup_at(f, "user_id"@, 2);
}

/// An encoded x record decodes back to itself.
proof fn lemma_x_round_trip(w: XView)
    ensures
        spec_decode_x(spec_encode_x(w)) == Some(w),
{
    reveal_strlit("handle");
    reveal_strlit("display_name");
    reveal_strlit("user_id");
    assert("handle"@.len() == 6);
    assert("display_name"@.len() == 12);
    assert("user_id"@.len() == 7);
    let f = (spec_encode_x(w))->Obj_0;
    lemma_lookup_at(f, "handle"@, 0);
    lemma_lookup_at(f, "display_name"@, 1);
    lemma_lookup_at(f, "user_id"@, 2);
}

/// An encoded school record decodes back to itself.
proof fn lemma_school_round_trip(s: SchoolView)
    ensures
        spec_decode_school(spec_encode_school(s)) == Some(s),
{
    reveal_strlit("name");
    reveal_strlit("schooltype");
    assert("name"@.len() == 4);
    assert("schooltype"@.len() == 10);
    let f = (spec_encode_school(s))->Obj_0;
    lemma_lookup_at(f, "name"@, 0);
    lemma_lookup_at(f, "schooltype"@, 1);
    lemma_school_type_round_trip(s.schooltype);
}

/// An encoded friend edge decodes back to its identifier.
proof fn lemma_friend_round_trip(uid: Seq<char>)
    ensures
        spec_decode_friend(spec_encode_friend(uid)) == Some(uid),
{
    let f = (spec_encode_friend(uid))->Obj_0;
    lemma_lookup_at(f, "uid"@, 0);
}

/// Round trip: any record, serialized and read back, is the record itself,
/// field for field — the identifier as well, since serializing substitutes
/// nothing; identifier substitution happens only when a commit response is
/// resolved.
pub proof fn lemma_person_round_trip(p: PersonView)
    ensures
        spec_decode_person(spec_encode_person(p)) == Some(p),
{
    reveal_strlit("uid");
    reveal_strlit("name");
    reveal_strlit("email");
    reveal_strlit("discord");
    reveal_strlit("instagram");
    reveal_strlit("snapchat");
    reveal_strlit("x");
    reveal_strlit("school");
    reveal_strlit("friends");
    reveal_strlit("misc");
    assert("uid"@.len() == 3);
    assert("name"@.len() == 4);
    assert("email"@.len() == 5);
    assert("discord"@.len() == 7);
    assert("instagram"@.len() == 9);
    assert("snapchat"@.len() == 8);
    assert("x"@.len() == 1);
    assert("school"@.len() == 6);
    assert("friends"@.len() == 7);
    assert("misc"@.len() == 4);
    assert("discord"@[0] == 'd');
    assert("friends"@[0] == 'f');
    assert("name"@[0] == 'n');
    assert("misc"@[0] == 'm');
    let f = (spec_encode_person(p))->Obj_0;
    lemma_lookup_at(f, "uid"@, 0);
    lemma_lookup_at(f, "name"@, 1);
    lemma_lookup_at(f, "email"@, 2);
    lemma_lookup_at(f, "discord"@, 3);
    lemma_lookup_at(f, "instagram"@, 4);
    lemma_lookup_at(f, "snapchat"@, 5);
    lemma_lookup_at(f, "x"@, 6);
    lemma_lookup_at(f, "school"@, 7);
    lemma_lookup_at(f, "friends"@, 8);
    lemma_lookup_at(f, "misc"@, 9);
    match p.discord {
        Some(d) => lemma_discord_round_trip(d),
        None => (),
    }
    match p.instagram {
        Some(g) => lemma_instagram_round_trip(g),
        None => (),
    }
    match p.x {
        Some(w) => lemma_x_round_trip(w),
        None => (),
    }
    match p.school {
        Some(ss) => {
            let items = Seq::new(ss.len(), |i: int| spec_encode_school(ss[i]));
            assert forall|i: int| 0 <= i < items.len() implies spec_decode_school(
                #[trigger] items[i],
            ) is Some by {
                lemma_school_round_trip(ss[i]);
            }
            assert(spec_decoded_schools(items) =~= ss) by {
                assert forall|i: int| 0 <= i < items.len() implies spec_decode_school(
                    #[trigger] items[i],
                )->0 == ss[i] by {
                    lemma_school_round_trip(ss[i]);
                }
            }
        },
        None => (),
    }
    match p.friends {
        Some(fs) => {
            let items = Seq::new(fs.len(), |i: int| spec_encode_friend(fs[i]));
            assert forall|i: int| 0 <= i < items.len() implies spec_decode_friend(
                #[trigger] items[i],
            ) is Some by {
                lemma_friend_round_trip(fs[i]);
            }
            assert(spec_decoded_friends(items) =~= fs) by {
                assert forall|i: int| 0 <= i < items.len() implies spec_decode_friend(
                    #[trigger] items[i],
                )->0 == fs[i] by {
                    lemma_friend_round_trip(fs[i]);
                }
            }
        },
        None => (),
    }
    match p.misc {
        Some(ms) => {
            let items = Seq::new(ms.len(), |i: int| JsonView::Str(ms[i]));
            assert(spec_decoded_strs(items) =~= ms);
        },
        None => (),
    }
}


} // verus!
