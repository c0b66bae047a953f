//! The record model: a `Person` and its nested sub-entities, together with
//! the mathematical views that the contracts of this crate speak of.

use vstd::prelude::*;

verus! {

/// A directed friend edge: holds only the referenced person's identifier.
#[derive(Clone, Debug, PartialEq)]
pub struct Friend {
    pub uid: String,
}

impl View for Friend {
    type V = Seq<char>;

    open spec fn view(&self) -> Seq<char> {
        self.uid@
    }
}

impl DeepView for Friend {
    type V = Seq<char>;

    open spec fn deep_view(&self) -> Seq<char> {
        self.uid@
    }
}

/// The level of a school.
#[derive(Clone, Copy, Debug, PartialEq, Eq, Structural)]
pub enum SchoolType {
    Elementary,
    Middle,
    High,
    College,
    University,
}

/// One school attended: a name plus its level.
#[derive(Clone, Debug, PartialEq)]
pub struct School {
    pub name: String,
    pub schooltype: SchoolType,
}

pub struct SchoolView {
    pub name: Seq<char>,
    pub schooltype: SchoolType,
}

impl View for School {
    type V = SchoolView;

    open spec fn view(&self) -> SchoolView {
        SchoolView { name: self.name@, schooltype: self.schooltype }
    }
}

impl DeepView for School {
    type V = SchoolView;

    open spec fn deep_view(&self) -> SchoolView {
        self.view()
    }
}

/// A discord account: its own nested identifier plus the common handle shape.
#[derive(Clone, Debug, PartialEq)]
pub struct Discord {
    pub uid: String,
    pub handle: Option<String>,
    pub display_name: Option<String>,
    pub user_id: u64,
}

pub struct DiscordView {
    pub uid: Seq<char>,
    pub handle: Option<Seq<char>>,
    pub display_name: Option<Seq<char>>,
    pub user_id: u64,
}

impl View for Discord {
    type V = DiscordView;

    open spec fn view(&self) -> DiscordView {
        DiscordView {
            uid: self.uid@,
            handle: self.handle.deep_view(),
            display_name: self.display_name.deep_view(),
            user_id: self.user_id,
        }
    }
}

impl DeepView for Discord {
    type V = DiscordView;

    open spec fn deep_view(&self) -> DiscordView {
        self.view()
    }
}

/// An instagram account.
#[derive(Clone, Debug, PartialEq)]
pub struct Instagram {
    pub handle: Option<String>,
    pub display_name: Option<String>,
    pub user_id: u64,
}

pub struct InstagramView {
    pub handle: Option<Seq<char>>,
    pub display_name: Option<Seq<char>>,
    pub user_id: u64,
}

impl View for Instagram {
    type V = InstagramView;

    open spec fn view(&self) -> InstagramView {
        InstagramView {
            handle: self.handle.deep_view(),
            display_name: self.display_name.deep_view(),
            user_id: self.user_id,
        }
    }
}

impl DeepView for Instagram {
    type V = InstagramView;

    open spec fn deep_view(&self) -> InstagramView {
        self.view()
    }
}

/// An account on x.
#[derive(Clone, Debug, PartialEq)]
pub struct X {
    pub handle: Option<String>,
    pub display_name: Option<String>,
    pub user_id: u64,
}

pub struct XView {
    pub handle: Option<Seq<char>>,
    pub display_name: Option<Seq<char>>,
    pub user_id: u64,
}

impl View for X {
    type V = XView;

    open spec fn view(&self) -> XView {
        XView {
            handle: self.handle.deep_view(),
            display_name: self.display_name.deep_view(),
            user_id: self.user_id,
        }
    }
}

impl DeepView for X {
    type V = XView;

    open spec fn deep_view(&self) -> XView {
        self.view()
    }
}

/// The central record of the directory.
///
/// Absence of a field is distinct from an explicitly empty value: patch logic
/// only overwrites fields it explicitly targets.
#[derive(Clone, Debug, PartialEq)]
pub struct Person {
    pub uid: Option<String>,
    pub name: Option<String>,
    pub email: Option<String>,
    pub discord: Option<Discord>,
    pub instagram: Option<Instagram>,
    pub snapchat: Option<String>,
    pub x: Option<X>,
    pub school: Option<Vec<School>>,
    pub friends: Option<Vec<Friend>>,
    pub misc: Option<Vec<String>>,
}

pub struct PersonView {
    pub uid: Option<Seq<char>>,
    pub name: Option<Seq<char>>,
    pub email: Option<Seq<char>>,
    pub discord: Option<DiscordView>,
    pub instagram: Option<InstagramView>,
    pub snapchat: Option<Seq<char>>,
    pub x: Option<XView>,
    pub school: Option<Seq<SchoolView>>,
    pub friends: Option<Seq<Seq<char>>>,
    pub misc: Option<Seq<Seq<char>>>,
}

impl View for Person {
    type V = PersonView;

    open spec fn view(&self) -> PersonView {
        PersonView {
            uid: self.uid.deep_view(),
            name: self.name.deep_view(),
            email: self.email.deep_view(),
            discord: self.discord.deep_view(),
            instagram: self.instagram.deep_view(),
            snapchat: self.snapchat.deep_view(),
            x: self.x.deep_view(),
            school: self.school.deep_view(),
            friends: self.friends.deep_view(),
            misc: self.misc.deep_view(),
        }
    }
}

impl DeepView for Person {
    type V = PersonView;

    open spec fn deep_view(&self) -> PersonView {
        self.view()
    }
}

/// A minimal projection (identifier + name), used solely to populate the
/// name/uid index.
#[derive(Clone, Debug, PartialEq)]
pub struct Node {
    pub uid: String,
    pub name: String,
}

pub struct NodeView {
    pub uid: Seq<char>,
    pub name: Seq<char>,
}

impl View for Node {
    type V = NodeView;

    open spec fn view(&self) -> NodeView {
        NodeView { uid: self.uid@, name: self.name@ }
    }
}

impl DeepView for Node {
    type V = NodeView;

    open spec fn deep_view(&self) -> NodeView {
        self.view()
    }
}

impl Person {
    /// Builds a record with a known identifier and the given fields.
    pub fn new(
        uid: String,
        name: Option<String>,
        email: Option<String>,
        discord: Option<Discord>,
        instagram: Option<Instagram>,
        snapchat: Option<String>,
        x: Option<X>,
        school: Option<Vec<School>>,
        friends: Option<Vec<Friend>>,
        misc: Option<Vec<String>>,
    ) -> (r: Person)
        ensures
            r@.uid == Some(uid@),
            r@.name == name.deep_view(),
            r@.email == email.deep_view(),
            r@.discord == discord.deep_view(),
            r@.instagram == instagram.deep_view(),
            r@.snapchat == snapchat.deep_view(),
            r@.x == x.deep_view(),
            r@.school == school.deep_view(),
            r@.friends == friends.deep_view(),
            r@.misc == misc.deep_view(),
    {
        Person {
            uid: Some(uid),
            name,
            email,
            discord,
            instagram,
            snapchat,
            x,
            school,
            friends,
            misc,
        }
    }

    /// The record's identifier; only for records that carry one.
    pub fn get_uid(&self) -> (r: String)
        requires
            self@.uid is Some,
        ensures
            Some(r@) == self@.uid,
    {
        self.uid.as_ref().unwrap().clone()
    }

    /// The record's display name; only for records that carry one.
    pub fn get_name(&self) -> (r: String)
        requires
            self@.name is Some,
        ensures
            Some(r@) == self@.name,
    {
        self.name.as_ref().unwrap().clone()
    }

    /// Appends one directed friend edge: the edge list grows by the given
    /// identifier at its end, never de-duplicating, and every other field
    /// stays as it was.
    pub fn append_friend(self, friend_uid: String) -> (r: Person)
        ensures
            r@ == spec_append_friend(self@, friend_uid@),
    {
        let Person { uid, name, email, discord, instagram, snapchat, x, school, friends, misc } =
            self;
        let new_friends: Vec<Friend> = match friends {
            Some(mut fs) => {
                fs.push(Friend { uid: friend_uid });
                proof {
                    assert(fs.deep_view() =~= spec_append_friend(self@, friend_uid@).friends->0);
                }
                fs
            },
            None => {
                let mut fs: Vec<Friend> = Vec::new();
                fs.push(Friend { uid: friend_uid });
                proof {
                    assert(fs.deep_view() =~= spec_append_friend(self@, friend_uid@).friends->0);
                }
                fs
            },
        };
        Person {
            uid,
            name,
            email,
            discord,
            instagram,
            snapchat,
            x,
            school,
            friends: Some(new_friends),
            misc,
        }
    }
}

/// The record after one friend edge is appended: the edge list, created if
/// absent, grows by the identifier at its end; nothing else moves.
pub open spec fn spec_append_friend(p: PersonView, friend_uid: Seq<char>) -> PersonView {
    PersonView {
        friends: Some(
            match p.friends {
                Some(fs) => fs.push(friend_uid),
                None => seq![friend_uid],
            },
        ),
        ..p
    }
}

/// Appending the same identifier twice to a record with no friend edges
/// leaves exactly two edges, both carrying that identifier: appends are
/// order-preserving and never de-duplicated.
pub proof fn lemma_append_friend_twice(p: PersonView, friend_uid: Seq<char>)
    requires
        p.friends is None || p.friends == Some(Seq::<Seq<char>>::empty()),
    ensures
        spec_append_friend(spec_append_friend(p, friend_uid), friend_uid).friends matches Some(fs)
            && fs.len() == 2 && fs[0] == friend_uid && fs[1] == friend_uid,
{
}

} // verus!
