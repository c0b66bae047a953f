//! The merge updater: applies a sparse set of field patches onto a fetched
//! record, leaving every unmentioned field untouched.
//!
//! A patch is rejected as a whole — no partial write survives — when a
//! numeric value does not parse or a patch targets a sub-field of a nested
//! structure that the record does not carry.

use vstd::prelude::*;
use vstd::string::StringExecFns;
use crate::errors::ApiError;
use crate::model::{Discord, DiscordView, Instagram, InstagramView, Person, PersonView, School,
    SchoolType, SchoolView, X, XView};
use crate::numeric::spec_parse_u64;
use crate::numeric::parse_u64;

verus! {

/// A sparse update: every field a caller may target, each as the textual
/// value it arrived with, or nothing to leave the record's field alone.
#[derive(Clone, Debug, PartialEq)]
pub struct PersonPatch {
    pub discord_uid: Option<String>,
    pub discord_handle: Option<String>,
    pub discord_display_name: Option<String>,
    pub discord_user_id: Option<String>,
    pub instagram_handle: Option<String>,
    pub instagram_display_name: Option<String>,
    pub instagram_user_id: Option<String>,
    pub x_handle: Option<String>,
    pub x_display_name: Option<String>,
    pub x_user_id: Option<String>,
    pub school: Option<String>,
    pub name: Option<String>,
    pub email: Option<String>,
}

pub struct PersonPatchView {
    pub discord_uid: Option<Seq<char>>,
    pub discord_handle: Option<Seq<char>>,
    pub discord_display_name: Option<Seq<char>>,
    pub discord_user_id: Option<Seq<char>>,
    pub instagram_handle: Option<Seq<char>>,
    pub instagram_display_name: Option<Seq<char>>,
    pub instagram_user_id: Option<Seq<char>>,
    pub x_handle: Option<Seq<char>>,
    pub x_display_name: Option<Seq<char>>,
    pub x_user_id: Option<Seq<char>>,
    pub school: Option<Seq<char>>,
    pub name: Option<Seq<char>>,
    pub email: Option<Seq<char>>,
}

impl View for PersonPatch {
    type V = PersonPatchView;

    open spec fn view(&self) -> PersonPatchView {
        PersonPatchView {
            discord_uid: self.discord_uid.deep_view(),
            discord_handle: self.discord_handle.deep_view(),
            discord_display_name: self.discord_display_name.deep_view(),
            discord_user_id: self.discord_user_id.deep_view(),
            instagram_handle: self.instagram_handle.deep_view(),
            instagram_display_name: self.instagram_display_name.deep_view(),
            instagram_user_id: self.instagram_user_id.deep_view(),
            x_handle: self.x_handle.deep_view(),
            x_display_name: self.x_display_name.deep_view(),
            x_user_id: self.x_user_id.deep_view(),
            school: self.school.deep_view(),
            name: self.name.deep_view(),
            email: self.email.deep_view(),
        }
    }
}

impl PersonPatch {
    /// A patch that targets nothing.
    pub fn empty() -> (r: PersonPatch)
        ensures
            r@.discord_uid is None,
            r@.discord_handle is None,
            r@.discord_display_name is None,
            r@.discord_user_id is None,
            r@.instagram_handle is None,
            r@.instagram_display_name is None,
            r@.instagram_user_id is None,
            r@.x_handle is None,
            r@.x_display_name is None,
            r@.x_user_id is None,
            r@.school is None,
            r@.name is None,
            r@.email is None,
    {
        PersonPatch {
            discord_uid: None,
            discord_handle: None,
            discord_display_name: None,
            discord_user_id: None,
            instagram_handle: None,
            instagram_display_name: None,
            instagram_user_id: None,
            x_handle: None,
            x_display_name: None,
            x_user_id: None,
            school: None,
            name: None,
            email: None,
        }
    }
}

/// Does the patch touch a sub-field of the discord structure?
pub open spec fn targets_discord(q: PersonPatchView) -> bool {
    ||| q.discord_uid is Some
    ||| q.discord_handle is Some
    ||| q.discord_display_name is Some
    ||| q.discord_user_id is Some
}

/// Does the patch touch a sub-field of the instagram structure?
pub open spec fn targets_instagram(q: PersonPatchView) -> bool {
    ||| q.instagram_handle is Some
    ||| q.instagram_display_name is Some
    ||| q.instagram_user_id is Some
}

/// Does the patch touch a sub-field of the x structure?
pub open spec fn targets_x(q: PersonPatchView) -> bool {
    ||| q.x_handle is Some
    ||| q.x_display_name is Some
    ||| q.x_user_id is Some
}

/// A patch applies cleanly when every nested structure it targets already
/// exists on the record and every numeric value it carries parses as a `u64`.
pub open spec fn patch_ok(p: PersonView, q: PersonPatchView) -> bool {
    &&& targets_discord(q) ==> p.discord is Some
    &&& targets_instagram(q) ==> p.instagram is Some
    &&& targets_x(q) ==> p.x is Some
    &&& q.discord_user_id matches Some(t) ==> spec_parse_u64(t) is Some
    &&& q.instagram_user_id matches Some(t) ==> spec_parse_u64(t) is Some
    &&& q.x_user_id matches Some(t) ==> spec_parse_u64(t) is Some
}

/// The patched value of one optional scalar field.
pub open spec fn override_field(patch: Option<Seq<char>>, base: Option<Seq<char>>) -> Option<
    Seq<char>,
> {
    if patch is Some {
        patch
    } else {
        base
    }
}

/// The record after a clean patch: every targeted field carries the patch's
/// value, every other field is the base record's, sub-structure included.
pub open spec fn spec_patched(p: PersonView, q: PersonPatchView) -> PersonView {
    PersonView {
        uid: p.uid,
        name: override_field(q.name, p.name),
        email: override_field(q.email, p.email),
        snapchat: p.snapchat,
        discord: match p.discord {
            Some(d) => Some(
                DiscordView {
                    uid: match q.discord_uid {
                        Some(u) => u,
                        None => d.uid,
                    },
                    handle: override_field(q.discord_handle, d.handle),
                    display_name: override_field(q.discord_display_name, d.display_name),
                    user_id: match q.discord_user_id {
                        Some(t) => spec_parse_u64(t)->0,
                        None => d.user_id,
                    },
                },
            ),
            None => None,
        },
        instagram: match p.instagram {
            Some(g) => Some(
                InstagramView {
                    handle: override_field(q.instagram_handle, g.handle),
                    display_name: override_field(q.instagram_display_name, g.display_name),
                    user_id: match q.instagram_user_id {
                        Some(t) => spec_parse_u64(t)->0,
                        None => g.user_id,
                    },
                },
            ),
            None => None,
        },
        x: match p.x {
            Some(w) => Some(
                XView {
                    handle: override_field(q.x_handle, w.handle),
                    display_name: override_field(q.x_display_name, w.display_name),
                    user_id: match q.x_user_id {
                        Some(t) => spec_parse_u64(t)->0,
                        None => w.user_id,
                    },
                },
            ),
            None => None,
        },
        school: match q.school {
            Some(nm) => Some(seq![SchoolView { name: nm, schooltype: SchoolType::College }]),
            None => p.school,
        },
        friends: p.friends,
        misc: p.misc,
    }
}

/// Applies the patch to the record, atomically: the result is either the
/// fully patched record, or a validation error and no record at all.
///
/// Success and the patched value are pinned exactly: the call returns `Ok`
/// precisely when `patch_ok` holds of the two inputs.
pub fn apply_patch(p: Person, q: &PersonPatch) -> (r: Result<Person, ApiError>)
    ensures
        r matches Ok(np) ==> patch_ok(p@, q@) && np@ == spec_patched(p@, q@),
        r is Err <==> !patch_ok(p@, q@),
        r matches Err(e) ==> e is ValidationFailure,
{
    let Person { uid, name, email, discord, instagram, snapchat, x, school, friends, misc } = p;
    let new_discord: Option<Discord> = match discord {
        Some(d) => {
            let Discord { uid: duid, handle, display_name, user_id } = d;
            let nuid = match &q.discord_uid {
                Some(v) => v.clone(),
                None => duid,
            };
            let nhandle = match &q.discord_handle {
                Some(v) => Some(v.clone()),
                None => handle,
            };
            let ndisplay = match &q.discord_display_name {
                Some(v) => Some(v.clone()),
                None => display_name,
            };
            let nid = match &q.discord_user_id {
                Some(t) => match parse_u64(t.as_str()) {
                    Some(n) => n,
                    None => {
                        return Err(
                            ApiError::ValidationFailure(
                                String::from_str("discord-user_id must be a number"),
                            ),
                        );
                    },
                },
                None => user_id,
            };
            Some(Discord { uid: nuid, handle: nhandle, display_name: ndisplay, user_id: nid })
        },
        None => {
            if q.discord_uid.is_some() || q.discord_handle.is_some()
                || q.discord_display_name.is_some() || q.discord_user_id.is_some() {
                return Err(
                    ApiError::ValidationFailure(
                        String::from_str("no discord record to update"),
                    ),
                );
            }
            None
        },
    };
    let new_instagram: Option<Instagram> = match instagram {
        Some(g) => {
            let Instagram { handle, display_name, user_id } = g;
            let nhandle = match &q.instagram_handle {
                Some(v) => Some(v.clone()),
                None => handle,
            };
            let ndisplay = match &q.instagram_display_name {
                Some(v) => Some(v.clone()),
                None => display_name,
            };
            let nid = match &q.instagram_user_id {
                Some(t) => match parse_u64(t.as_str()) {
                    Some(n) => n,
                    None => {
                        return Err(
                            ApiError::ValidationFailure(
                                String::from_str("instagram-user_id must be a number"),
                            ),
                        );
                    },
                },
                None => user_id,
            };
            Some(Instagram { handle: nhandle, display_name: ndisplay, user_id: nid })
        },
        None => {
            if q.instagram_handle.is_some() || q.instagram_display_name.is_some()
                || q.instagram_user_id.is_some() {
                return Err(
                    ApiError::ValidationFailure(
                        String::from_str("no instagram record to update"),
                    ),
                );
            }
            None
        },
    };
    let new_x: Option<X> = match x {
        Some(w) => {
            let X { handle, display_name, user_id } = w;
            let nhandle = match &q.x_handle {
                Some(v) => Some(v.clone()),
                None => handle,
            };
            let ndisplay = match &q.x_display_name {
                Some(v) => Some(v.clone()),
                None => display_name,
            };
            let nid = match &q.x_user_id {
                Some(t) => match parse_u64(t.as_str()) {
                    Some(n) => n,
                    None => {
                        return Err(
                            ApiError::ValidationFailure(
                                String::from_str("x-user_id must be a number"),
                            ),
                        );
                    },
                },
                None => user_id,
            };
            Some(X { handle: nhandle, display_name: ndisplay, user_id: nid })
        },
        None => {
            if q.x_handle.is_some() || q.x_display_name.is_some() || q.x_user_id.is_some() {
                return Err(
                    ApiError::ValidationFailure(String::from_str("no x record to update")),
                );
            }
            None
        },
    };
    let new_school: Option<Vec<School>> = match &q.school {
        Some(v) => {
            let mut one: Vec<School> = Vec::new();
            one.push(School { name: v.clone(), schooltype: SchoolType::College });
            proof {
                assert(one.deep_view() =~= seq![
                    SchoolView { name: v@, schooltype: SchoolType::College },
                ]);
            }
            Some(one)
        },
        None => school,
    };
    let new_name = match &q.name {
        Some(v) => Some(v.clone()),
        None => name,
    };
    let new_email = match &q.email {
        Some(v) => Some(v.clone()),
        None => email,
    };
    Ok(
        Person {
            uid,
            name: new_name,
            email: new_email,
            discord: new_discord,
            instagram: new_instagram,
            snapchat,
            x: new_x,
            school: new_school,
            friends,
            misc,
        },
    )
}

/// Two patches touch disjoint field sets when no field is targeted by both.
pub open spec fn disjoint_patches(q1: PersonPatchView, q2: PersonPatchView) -> bool {
    &&& !(q1.discord_uid is Some && q2.discord_uid is Some)
    &&& !(q1.discord_handle is Some && q2.discord_handle is Some)
    &&& !(q1.discord_display_name is Some && q2.discord_display_name is Some)
    &&& !(q1.discord_user_id is Some && q2.discord_user_id is Some)
    &&& !(q1.instagram_handle is Some && q2.instagram_handle is Some)
    &&& !(q1.instagram_display_name is Some && q2.instagram_display_name is Some)
    &&& !(q1.instagram_user_id is Some && q2.instagram_user_id is Some)
    &&& !(q1.x_handle is Some && q2.x_handle is Some)
    &&& !(q1.x_display_name is Some && q2.x_display_name is Some)
    &&& !(q1.x_user_id is Some && q2.x_user_id is Some)
    &&& !(q1.school is Some && q2.school is Some)
    &&& !(q1.name is Some && q2.name is Some)
    &&& !(q1.email is Some && q2.email is Some)
}

/// Merge-patching is field-local: two patches over disjoint field sets,
/// each clean on the base record, apply cleanly in either order and both
/// orders end in the same record.
pub proof fn lemma_patch_commutes(p: PersonView, q1: PersonPatchView, q2: PersonPatchView)
    requires
        disjoint_patches(q1, q2),
        patch_ok(p, q1),
        patch_ok(p, q2),
    ensures
        patch_ok(spec_patched(p, q1), q2),
        patch_ok(spec_patched(p, q2), q1),
        spec_patched(spec_patched(p, q1), q2) == spec_patched(spec_patched(p, q2), q1),
{
}

} // verus!
