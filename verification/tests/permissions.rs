use jonline::permissions::{default_user_permissions, to_proto_permissions, Permission};

fn every_permission() -> Vec<Permission> {
    vec![
        Permission::ViewUsers,
        Permission::PublishUsersLocally,
        Permission::PublishUsersGlobally,
        Permission::ModerateUsers,
        Permission::FollowUsers,
        Permission::GrantBasicPermissions,
        Permission::ViewGroups,
        Permission::CreateGroups,
        Permission::PublishGroupsLocally,
        Permission::PublishGroupsGlobally,
        Permission::ModerateGroups,
        Permission::JoinGroups,
        Permission::ViewPosts,
        Permission::CreatePosts,
        Permission::PublishPostsLocally,
        Permission::PublishPostsGlobally,
        Permission::ModeratePosts,
        Permission::ViewEvents,
        Permission::CreateEvents,
        Permission::PublishEventsLocally,
        Permission::PublishEventsGlobally,
        Permission::ModerateEvents,
        Permission::RunBots,
        Permission::Admin,
    ]
}

fn stored(names: &[&str]) -> Vec<String> {
    names.iter().map(|name| name.to_string()).collect()
}

#[test]
fn names_of_permissions() {
    assert_eq!(Permission::Admin.as_str_name(), "ADMIN");
    assert_eq!(Permission::ModerateUsers.as_str_name(), "MODERATE_USERS");
    assert_eq!(Permission::FollowUsers.as_str_name(), "FOLLOW_USERS");
    assert_eq!(Permission::CreateGroups.as_str_name(), "CREATE_GROUPS");
    assert_eq!(Permission::JoinGroups.as_str_name(), "JOIN_GROUPS");
    assert_eq!(Permission::ViewPosts.as_str_name(), "VIEW_POSTS");
    assert_eq!(Permission::CreatePosts.as_str_name(), "CREATE_POSTS");
    assert_eq!(Permission::ViewEvents.as_str_name(), "VIEW_EVENTS");
    assert_eq!(Permission::CreateEvents.as_str_name(), "CREATE_EVENTS");
    assert_eq!(Permission::PublishUsersLocally.as_str_name(), "PUBLISH_USERS_LOCALLY");
    assert_eq!(Permission::GrantBasicPermissions.as_str_name(), "GRANT_BASIC_PERMISSIONS");
    assert_eq!(Permission::RunBots.as_str_name(), "RUN_BOTS");
}

#[test]
fn every_name_leads_back_to_its_permission() {
    for permission in every_permission() {
        assert_eq!(Permission::from_str_name(permission.as_str_name()), Some(permission));
    }
}

#[test]
fn no_two_permissions_share_a_name() {
    let all = every_permission();
    for (i, p) in all.iter().enumerate() {
        for (j, q) in all.iter().enumerate() {
            assert_eq!(p.as_str_name() == q.as_str_name(), i == j);
        }
    }
}

#[test]
fn unknown_names_are_no_permission() {
    assert_eq!(Permission::from_str_name(""), None);
    assert_eq!(Permission::from_str_name("admin"), None);
    assert_eq!(Permission::from_str_name("Admin"), None);
    assert_eq!(Permission::from_str_name("ADMIN "), None);
    assert_eq!(Permission::from_str_name("ADMINS"), None);
    assert_eq!(Permission::from_str_name("ADMI"), None);
    assert_eq!(Permission::from_str_name("SUPERUSER"), None);
    assert_eq!(Permission::from_str_name("PERMISSION_UNKNOWN"), None);
}

#[test]
fn stored_sets_are_read_in_order() {
    let granted = to_proto_permissions(&stored(&["VIEW_POSTS", "ADMIN", "FOLLOW_USERS"]));
    assert_eq!(granted, vec![Permission::ViewPosts, Permission::Admin, Permission::FollowUsers]);
}

#[test]
fn unknown_stored_names_are_dropped() {
    let granted = to_proto_permissions(&stored(&["FLY", "VIEW_POSTS", "", "admin", "JOIN_GROUPS"]));
    assert_eq!(granted, vec![Permission::ViewPosts, Permission::JoinGroups]);
    assert_eq!(to_proto_permissions(&stored(&["FLY", "admin"])), vec![]);
}

#[test]
fn empty_stored_set_grants_nothing() {
    assert_eq!(to_proto_permissions(&Vec::new()), vec![]);
}

#[test]
fn repeated_stored_names_are_kept() {
    let granted = to_proto_permissions(&stored(&["ADMIN", "ADMIN"]));
    assert_eq!(granted, vec![Permission::Admin, Permission::Admin]);
}

#[test]
fn new_users_start_with_seven_permissions() {
    assert_eq!(
        default_user_permissions(),
        vec![
            Permission::FollowUsers,
            Permission::CreateGroups,
            Permission::JoinGroups,
            Permission::ViewPosts,
            Permission::CreatePosts,
            Permission::ViewEvents,
            Permission::CreateEvents,
        ]
    );
}

#[test]
fn default_permissions_survive_storing() {
    let names: Vec<String> =
        default_user_permissions().iter().map(|p| p.as_str_name().to_string()).collect();
    assert_eq!(to_proto_permissions(&names), default_user_permissions());
}
