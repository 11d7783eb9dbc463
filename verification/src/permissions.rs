//! The capabilities that a user or a group membership can hold.
//!
//! The list is closed. Each permission has one symbolic name, under which it
//! is stored and sent to clients. A stored name that belongs to no permission
//! grants nothing.

use vstd::prelude::*;
use crate::text::same_text;

verus! {

/// Something that a user, or a member of a group, may be allowed to do.
#[derive(Clone, Copy, Debug, PartialEq, Eq, Hash, Structural)]
pub enum Permission {
    /// See the profiles of other users.
    ViewUsers,
    /// Show the own profile to everyone on this server.
    PublishUsersLocally,
    /// Show the own profile to everyone, signed in or not.
    PublishUsersGlobally,
    /// Approve, reject and ban users.
    ModerateUsers,
    /// Follow other users.
    FollowUsers,
    /// Grant other users the permissions that new users start with.
    GrantBasicPermissions,
    /// See groups.
    ViewGroups,
    /// Found new groups.
    CreateGroups,
    /// Show own groups to everyone on this server.
    PublishGroupsLocally,
    /// Show own groups to everyone, signed in or not.
    PublishGroupsGlobally,
    /// Moderate every group on the server.
    ModerateGroups,
    /// Join groups, or ask to.
    JoinGroups,
    /// Read posts.
    ViewPosts,
    /// Write posts.
    CreatePosts,
    /// Show own posts to everyone on this server.
    PublishPostsLocally,
    /// Show own posts to everyone, signed in or not.
    PublishPostsGlobally,
    /// Approve, reject and remove posts.
    ModeratePosts,
    /// See events.
    ViewEvents,
    /// Announce events.
    CreateEvents,
    /// Show own events to everyone on this server.
    PublishEventsLocally,
    /// Show own events to everyone, signed in or not.
    PublishEventsGlobally,
    /// Approve, reject and remove events.
    ModerateEvents,
    /// Act through automated clients.
    RunBots,
    /// Do anything: whoever holds this passes every check for a single permission.
    Admin,
}

impl Permission {
    /// The symbolic name of the permission.
    pub open spec fn name(self) -> Seq<char> {
        match self {
            Permission::ViewUsers => "VIEW_USERS"@,
            Permission::PublishUsersLocally => "PUBLISH_USERS_LOCALLY"@,
            Permission::PublishUsersGlobally => "PUBLISH_USERS_GLOBALLY"@,
            Permission::ModerateUsers => "MODERATE_USERS"@,
            Permission::FollowUsers => "FOLLOW_USERS"@,
            Permission::GrantBasicPermissions => "GRANT_BASIC_PERMISSIONS"@,
            Permission::ViewGroups => "VIEW_GROUPS"@,
            Permission::CreateGroups => "CREATE_GROUPS"@,
            Permission::PublishGroupsLocally => "PUBLISH_GROUPS_LOCALLY"@,
            Permission::PublishGroupsGlobally => "PUBLISH_GROUPS_GLOBALLY"@,
            Permission::ModerateGroups => "MODERATE_GROUPS"@,
            Permission::JoinGroups => "JOIN_GROUPS"@,
            Permission::ViewPosts => "VIEW_POSTS"@,
            Permission::CreatePosts => "CREATE_POSTS"@,
            Permission::PublishPostsLocally => "PUBLISH_POSTS_LOCALLY"@,
            Permission::PublishPostsGlobally => "PUBLISH_POSTS_GLOBALLY"@,
            Permission::ModeratePosts => "MODERATE_POSTS"@,
            Permission::ViewEvents => "VIEW_EVENTS"@,
            Permission::CreateEvents => "CREATE_EVENTS"@,
            Permission::PublishEventsLocally => "PUBLISH_EVENTS_LOCALLY"@,
            Permission::PublishEventsGlobally => "PUBLISH_EVENTS_GLOBALLY"@,
            Permission::ModerateEvents => "MODERATE_EVENTS"@,
            Permission::RunBots => "RUN_BOTS"@,
            Permission::Admin => "ADMIN"@,
        }
    }

    /// The permission that is called `name`, if there is one.
    pub open spec fn named(name: Seq<char>) -> Option<Permission> {
        if exists|p: Permission| p.name() == name {
            Some(choose|p: Permission| p.name() == name)
        } else {
            None
        }
    }

    /// Gives the symbolic name of the permission.
    pub fn as_str_name(&self) -> (name: &'static str)
        ensures
            name@ == self.name(),
    {
        match self {
            Permission::ViewUsers => "VIEW_USERS",
            Permission::PublishUsersLocally => "PUBLISH_USERS_LOCALLY",
            Permission::PublishUsersGlobally => "PUBLISH_USERS_GLOBALLY",
            Permission::ModerateUsers => "MODERATE_USERS",
            Permission::FollowUsers => "FOLLOW_USERS",
            Permission::GrantBasicPermissions => "GRANT_BASIC_PERMISSIONS",
            Permission::ViewGroups => "VIEW_GROUPS",
            Permission::CreateGroups => "CREATE_GROUPS",
            Permission::PublishGroupsLocally => "PUBLISH_GROUPS_LOCALLY",
            Permission::PublishGroupsGlobally => "PUBLISH_GROUPS_GLOBALLY",
            Permission::ModerateGroups => "MODERATE_GROUPS",
            Permission::JoinGroups => "JOIN_GROUPS",
            Permission::ViewPosts => "VIEW_POSTS",
            Permission::CreatePosts => "CREATE_POSTS",
            Permission::PublishPostsLocally => "PUBLISH_POSTS_LOCALLY",
            Permission::PublishPostsGlobally => "PUBLISH_POSTS_GLOBALLY",
            Permission::ModeratePosts => "MODERATE_POSTS",
            Permission::ViewEvents => "VIEW_EVENTS",
            Permission::CreateEvents => "CREATE_EVENTS",
            Permission::PublishEventsLocally => "PUBLISH_EVENTS_LOCALLY",
            Permission::PublishEventsGlobally => "PUBLISH_EVENTS_GLOBALLY",
            Permission::ModerateEvents => "MODERATE_EVENTS",
            Permission::RunBots => "RUN_BOTS",
            Permission::Admin => "ADMIN",
        }
    }

    /// Gives the permission that is called `name`, or `None` where no
    /// permission has that name.
    pub fn from_str_name(name: &str) -> (permission: Option<Permission>)
        ensures
            permission == Permission::named(name@),
    {
        let permission = if same_text(name, "VIEW_USERS") {
            Some(Permission::ViewUsers)
        } else if same_text(name, "PUBLISH_USERS_LOCALLY") {
            Some(Permission::PublishUsersLocally)
        } else if same_text(name, "PUBLISH_USERS_GLOBALLY") {
            Some(Permission::PublishUsersGlobally)
        } else if same_text(name, "MODERATE_USERS") {
            Some(Permission::ModerateUsers)
        } else if same_text(name, "FOLLOW_USERS") {
            Some(Permission::FollowUsers)
        } else if same_text(name, "GRANT_BASIC_PERMISSIONS") {
            Some(Permission::GrantBasicPermissions)
        } else if same_text(name, "VIEW_GROUPS") {
            Some(Permission::ViewGroups)
        } else if same_text(name, "CREATE_GROUPS") {
            Some(Permission::CreateGroups)
        } else if same_text(name, "PUBLISH_GROUPS_LOCALLY") {
            Some(Permission::PublishGroupsLocally)
        } else if same_text(name, "PUBLISH_GROUPS_GLOBALLY") {
            Some(Permission::PublishGroupsGlobally)
        } else if same_text(name, "MODERATE_GROUPS") {
            Some(Permission::ModerateGroups)
        } else if same_text(name, "JOIN_GROUPS") {
            Some(Permission::JoinGroups)
        } else if same_text(name, "VIEW_POSTS") {
            Some(Permission::ViewPosts)
        } else if same_text(name, "CREATE_POSTS") {
            Some(Permission::CreatePosts)
        } else if same_text(name, "PUBLISH_POSTS_LOCALLY") {
            Some(Permission::PublishPostsLocally)
        } else if same_text(name, "PUBLISH_POSTS_GLOBALLY") {
            Some(Permission::PublishPostsGlobally)
        } else if same_text(name, "MODERATE_POSTS") {
            Some(Permission::ModeratePosts)
        } else if same_text(name, "VIEW_EVENTS") {
            Some(Permission::ViewEvents)
        } else if same_text(name, "CREATE_EVENTS") {
            Some(Permission::CreateEvents)
        } else if same_text(name, "PUBLISH_EVENTS_LOCALLY") {
            Some(Permission::PublishEventsLocally)
        } else if same_text(name, "PUBLISH_EVENTS_GLOBALLY") {
            Some(Permission::PublishEventsGlobally)
        } else if same_text(name, "MODERATE_EVENTS") {
            Some(Permission::ModerateEvents)
        } else if same_text(name, "RUN_BOTS") {
            Some(Permission::RunBots)
        } else if same_text(name, "ADMIN") {
            Some(Permission::Admin)
        } else {
            None
        };
        proof {
            if let Some(p) = permission {
                lemma_name_round_trip(p, name@);
            }
        }
        permission
    }
}

/// No two permissions share a name.
pub proof fn lemma_names_differ()
    ensures
        forall|p: Permission, q: Permission| #[trigger] p.name() == #[trigger] q.name() ==> p == q,
{
    reveal_strlit("VIEW_USERS");
    reveal_strlit("PUBLISH_USERS_LOCALLY");
    reveal_strlit("PUBLISH_USERS_GLOBALLY");
    reveal_strlit("MODERATE_USERS");
    reveal_strlit("FOLLOW_USERS");
    reveal_strlit("GRANT_BASIC_PERMISSIONS");
    reveal_strlit("VIEW_GROUPS");
    reveal_strlit("CREATE_GROUPS");
    reveal_strlit("PUBLISH_GROUPS_LOCALLY");
    reveal_strlit("PUBLISH_GROUPS_GLOBALLY");
    reveal_strlit("MODERATE_GROUPS");
    reveal_strlit("JOIN_GROUPS");
    reveal_strlit("VIEW_POSTS");
    reveal_strlit("CREATE_POSTS");
    reveal_strlit("PUBLISH_POSTS_LOCALLY");
    reveal_strlit("PUBLISH_POSTS_GLOBALLY");
    reveal_strlit("MODERATE_POSTS");
    reveal_strlit("VIEW_EVENTS");
    reveal_strlit("CREATE_EVENTS");
    reveal_strlit("PUBLISH_EVENTS_LOCALLY");
    reveal_strlit("PUBLISH_EVENTS_GLOBALLY");
    reveal_strlit("MODERATE_EVENTS");
    reveal_strlit("RUN_BOTS");
    reveal_strlit("ADMIN");
    assert forall|p: Permission, q: Permission| #[trigger] p.name() == #[trigger] q.name() implies p
        == q by {
        // Two names of one length differ in their first, sixth or tenth character.
        let a = p.name();
        let b = q.name();
        assert(a.len() == b.len());
        assert(a[0] == b[0]);
        assert(a[5] == b[5]);
        assert(a[9] == b[9]);
    }
}

/// The name of a permission leads back to that permission, and a name leads
/// to a permission only if it is that permission's name.
pub proof fn lemma_name_round_trip(p: Permission, name: Seq<char>)
    ensures
        Permission::named(p.name()) == Some(p),
        Permission::named(name) == Some(p) <==> name == p.name(),
{
    lemma_names_differ();
}

/// The names that a stored permission set holds, in order.
pub open spec fn stored_names(stored: Seq<String>) -> Seq<Seq<char>> {
    stored.map_values(|name: String| name@)
}

/// The permissions that `names` stand for, in the order of the names. A name
/// of no permission adds nothing.
pub open spec fn permissions_named(names: Seq<Seq<char>>) -> Seq<Permission>
    decreases names.len(),
{
    if names.len() == 0 {
        Seq::empty()
    } else {
        let before = permissions_named(names.drop_last());
        match Permission::named(names.last()) {
            Some(p) => before.push(p),
            None => before,
        }
    }
}

/// The permissions that a set of stored names grants: those whose name is
/// among them.
pub open spec fn granted_by(names: Seq<Seq<char>>) -> Set<Permission> {
    Set::new(|p: Permission| names.contains(p.name()))
}

/// A permission is among those that `names` stand for exactly if its name is
/// among `names`.
pub proof fn lemma_permissions_named_grants(names: Seq<Seq<char>>)
    ensures
        permissions_named(names).to_set() == granted_by(names),
    decreases names.len(),
{
    let parsed = permissions_named(names);
    if names.len() > 0 {
        let before = names.drop_last();
        lemma_permissions_named_grants(before);
        assert forall|p: Permission| parsed.contains(p) <==> names.contains(p.name()) by {
            lemma_name_round_trip(p, names.last());
            if names.contains(p.name()) {
                let i = choose|i: int| 0 <= i < names.len() && names[i] == p.name();
                if i < names.len() - 1 {
                    assert(before[i] == p.name());
                    assert(permissions_named(before).to_set().contains(p));
                    let j = choose|j: int|
                        0 <= j < permissions_named(before).len() && permissions_named(before)[j]
                            == p;
                    assert(parsed[j] == p);
                } else {
                    assert(parsed.last() == p);
                }
            }
            if parsed.contains(p) {
                let j = choose|j: int| 0 <= j < parsed.len() && parsed[j] == p;
                if j < permissions_named(before).len() {
                    assert(permissions_named(before).contains(p));
                    assert(granted_by(before).contains(p));
                    let i = choose|i: int| 0 <= i < before.len() && before[i] == p.name();
                    assert(names[i] == p.name());
                } else {
                    assert(names[names.len() - 1] == p.name());
                }
            }
        }
    }
    assert(parsed.to_set() =~= granted_by(names));
}

/// Reads a stored permission set: each name that belongs to a permission
/// gives that permission, in the order in which the names are stored. Names
/// that belong to none are passed over.
pub fn to_proto_permissions(stored: &Vec<String>) -> (granted: Vec<Permission>)
    ensures
        granted@ == permissions_named(stored_names(stored@)),
        granted@.to_set() == granted_by(stored_names(stored@)),
{
    let ghost names = stored_names(stored@);
    let mut granted: Vec<Permission> = Vec::new();
    let mut i: usize = 0;
    while i < stored.len()
        invariant
            i <= stored@.len(),
            names == stored_names(stored@),
            granted@ == permissions_named(names.take(i as int)),
        decreases stored@.len() - i,
    {
        proof {
            assert(names.take(i + 1).drop_last() == names.take(i as int));
            assert(names.take(i + 1).last() == stored@[i as int]@);
        }
        if let Some(p) = Permission::from_str_name(stored[i].as_str()) {
            granted.push(p);
        }
        i += 1;
    }
    proof {
        assert(names.take(i as int) == names);
        lemma_permissions_named_grants(names);
    }
    granted
}

/// What a user may do from the day the account is made, unless the server is
/// set up otherwise.
pub open spec fn default_permissions() -> Seq<Permission> {
    seq![
        Permission::FollowUsers,
        Permission::CreateGroups,
        Permission::JoinGroups,
        Permission::ViewPosts,
        Permission::CreatePosts,
        Permission::ViewEvents,
        Permission::CreateEvents,
    ]
}

/// Gives the permissions that a new server grants to each new user.
pub fn default_user_permissions() -> (granted: Vec<Permission>)
    ensures
        granted@ == default_permissions(),
{
    vec![
        Permission::FollowUsers,
        Permission::CreateGroups,
        Permission::JoinGroups,
        Permission::ViewPosts,
        Permission::CreatePosts,
        Permission::ViewEvents,
        Permission::CreateEvents,
    ]
}

} // verus!
