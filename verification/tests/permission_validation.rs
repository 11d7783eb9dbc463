use jonline::errors::PermissionDenied;
use jonline::models::{Membership, User};
use jonline::permissions::Permission;
use jonline::rpcs::validations::permission_validation::{
    validate_any_group_permission, validate_any_permission, validate_group_admin,
    validate_group_permission, validate_group_user_moderator, validate_permission,
};

fn user(names: &[&str]) -> User {
    User { permissions: names.iter().map(|name| name.to_string()).collect() }
}

fn member(names: &[&str]) -> Membership {
    Membership { permissions: names.iter().map(|name| name.to_string()).collect() }
}

fn every_permission() -> Vec<Permission> {
    vec![
        Permission::ViewUsers,
        Permission::PublishUsersLocally,
        Permission::PublishUsersGlobally,
        Permission::ModerateUsers,
        Permission::FollowUsers,
        Permission::GrantBasicPermissions,
        Permission::ViewGroups,
        Permission::CreateGroups,
        Permission::PublishGroupsLocally,
        Permission::PublishGroupsGlobally,
        Permission::ModerateGroups,
        Permission::JoinGroups,
        Permission::ViewPosts,
        Permission::CreatePosts,
        Permission::PublishPostsLocally,
        Permission::PublishPostsGlobally,
        Permission::ModeratePosts,
        Permission::ViewEvents,
        Permission::CreateEvents,
        Permission::PublishEventsLocally,
        Permission::PublishEventsGlobally,
        Permission::ModerateEvents,
        Permission::RunBots,
        Permission::Admin,
    ]
}

#[test]
fn held_permission_passes() {
    let actor = user(&["VIEW_POSTS", "CREATE_POSTS"]);
    assert_eq!(validate_permission(&actor, Permission::ViewPosts), Ok(()));
    assert_eq!(validate_permission(&actor, Permission::CreatePosts), Ok(()));
}

#[test]
fn missing_permission_is_named_in_the_denial() {
    let actor = user(&["VIEW_POSTS"]);
    let denial = validate_permission(&actor, Permission::CreatePosts).unwrap_err();
    assert_eq!(denial, PermissionDenied::PermissionRequired(Permission::CreatePosts));
    assert_eq!(denial.reason(), "permission_CREATE_POSTS_required");
    assert!(!denial.is_membership_required());
}

#[test]
fn user_without_permissions_fails_every_check() {
    let actor = user(&[]);
    for permission in every_permission() {
        assert_eq!(
            validate_permission(&actor, permission),
            Err(PermissionDenied::PermissionRequired(permission))
        );
    }
}

#[test]
fn admin_passes_every_permission_check() {
    let only_admin = user(&["ADMIN"]);
    let admin_and_more = user(&["VIEW_POSTS", "ADMIN", "CREATE_EVENTS"]);
    for permission in every_permission() {
        assert_eq!(validate_permission(&only_admin, permission), Ok(()));
        assert_eq!(validate_permission(&admin_and_more, permission), Ok(()));
    }
}

#[test]
fn admin_passes_every_other_check() {
    let admin = user(&["ADMIN"]);
    assert_eq!(validate_any_permission(&admin, vec![Permission::RunBots]), Ok(()));
    assert_eq!(validate_group_admin(&admin, &None), Ok(()));
    assert_eq!(validate_group_admin(&admin, &Some(member(&[]))), Ok(()));
    assert_eq!(validate_group_user_moderator(&admin, &None), Ok(()));
    assert_eq!(validate_group_user_moderator(&admin, &Some(member(&[]))), Ok(()));
}

#[test]
fn unknown_stored_names_grant_nothing() {
    let actor = user(&["admin", "Admin", "ROOT", "VIEW_POSTS "]);
    assert_eq!(
        validate_permission(&actor, Permission::ViewPosts),
        Err(PermissionDenied::PermissionRequired(Permission::ViewPosts))
    );
    assert_eq!(
        validate_permission(&actor, Permission::Admin),
        Err(PermissionDenied::PermissionRequired(Permission::Admin))
    );
}

#[test]
fn any_of_the_wanted_permissions_passes() {
    let actor = user(&["MODERATE_POSTS"]);
    let wanted = vec![Permission::CreatePosts, Permission::ModeratePosts];
    assert_eq!(validate_any_permission(&actor, wanted), Ok(()));
}

#[test]
fn denial_names_the_first_wanted_permission() {
    let actor = user(&["VIEW_POSTS"]);
    let wanted = vec![Permission::PublishPostsGlobally, Permission::ModeratePosts];
    let denial = validate_any_permission(&actor, wanted).unwrap_err();
    assert_eq!(denial, PermissionDenied::PermissionRequired(Permission::PublishPostsGlobally));
    assert_eq!(denial.reason(), "permission_PUBLISH_POSTS_GLOBALLY_required");
}

#[test]
fn server_admin_passes_a_list_that_does_not_name_it() {
    let admin = user(&["ADMIN"]);
    let wanted = vec![Permission::PublishPostsGlobally, Permission::ModeratePosts];
    assert_eq!(validate_any_permission(&admin, wanted), Ok(()));
}

#[test]
fn group_admin_passes_a_list_only_where_it_is_named() {
    let lead = member(&["ADMIN"]);
    assert_eq!(
        validate_any_group_permission(&lead, vec![Permission::ModeratePosts]),
        Err(PermissionDenied::GroupPermissionRequired(Permission::ModeratePosts))
    );
    let denial = validate_any_group_permission(&lead, vec![Permission::ViewPosts]).unwrap_err();
    assert_eq!(denial, PermissionDenied::GroupPermissionRequired(Permission::ViewPosts));
    assert_eq!(denial.reason(), "group_permission_VIEW_POSTS_required");
    assert_eq!(
        validate_any_group_permission(&lead, vec![Permission::ViewPosts, Permission::Admin]),
        Ok(())
    );
    assert_eq!(validate_group_permission(&lead, Permission::ViewPosts), Ok(()));
}

#[test]
fn group_list_with_more_than_admin_in_the_membership() {
    let lead = member(&["ADMIN", "VIEW_EVENTS"]);
    assert_eq!(
        validate_any_group_permission(&lead, vec![Permission::ViewPosts, Permission::ModeratePosts]),
        Err(PermissionDenied::GroupPermissionRequired(Permission::ViewPosts))
    );
    assert_eq!(
        validate_any_group_permission(&lead, vec![Permission::ViewPosts, Permission::ViewEvents]),
        Ok(())
    );
}

#[test]
fn group_permission_is_checked_against_the_membership() {
    let lead = member(&["MODERATE_POSTS"]);
    assert_eq!(validate_group_permission(&lead, Permission::ModeratePosts), Ok(()));
    let denial = validate_group_permission(&lead, Permission::ModerateUsers).unwrap_err();
    assert_eq!(denial, PermissionDenied::GroupPermissionRequired(Permission::ModerateUsers));
    assert_eq!(denial.reason(), "group_permission_MODERATE_USERS_required");
    assert!(!denial.is_membership_required());
}

#[test]
fn group_admin_passes_every_group_check() {
    let lead = member(&["ADMIN"]);
    for permission in every_permission() {
        assert_eq!(validate_group_permission(&lead, permission), Ok(()));
    }
}

#[test]
fn group_denial_names_the_first_wanted_permission() {
    let plain = member(&["VIEW_POSTS"]);
    let wanted = vec![Permission::ModerateEvents, Permission::ModeratePosts];
    assert_eq!(
        validate_any_group_permission(&plain, wanted),
        Err(PermissionDenied::GroupPermissionRequired(Permission::ModerateEvents))
    );
    let wanted = vec![Permission::ModerateEvents, Permission::ViewPosts];
    assert_eq!(validate_any_group_permission(&plain, wanted), Ok(()));
}

#[test]
fn group_permission_does_not_count_on_the_server() {
    let actor = user(&["VIEW_POSTS"]);
    let lead = member(&["MODERATE_POSTS"]);
    assert_eq!(validate_group_permission(&lead, Permission::ModeratePosts), Ok(()));
    assert_eq!(
        validate_permission(&actor, Permission::ModeratePosts),
        Err(PermissionDenied::PermissionRequired(Permission::ModeratePosts))
    );
}

#[test]
fn group_admin_without_membership_is_told_to_join() {
    let actor = user(&["VIEW_POSTS"]);
    let denial = validate_group_admin(&actor, &None).unwrap_err();
    assert_eq!(denial, PermissionDenied::AdminGroupMembershipRequired);
    assert_eq!(denial.reason(), "admin_group_membership_required");
    assert!(denial.is_membership_required());
}

#[test]
fn group_admin_with_plain_membership_is_told_what_is_missing() {
    let actor = user(&["VIEW_POSTS"]);
    let denial = validate_group_admin(&actor, &Some(member(&["MODERATE_USERS"]))).unwrap_err();
    assert_eq!(denial, PermissionDenied::GroupPermissionRequired(Permission::Admin));
    assert_eq!(denial.reason(), "group_permission_ADMIN_required");
    assert_ne!(denial.reason(), "admin_group_membership_required");
    assert!(!denial.is_membership_required());
}

#[test]
fn group_admin_passes_with_admin_in_the_group() {
    let actor = user(&[]);
    assert_eq!(validate_group_admin(&actor, &Some(member(&["ADMIN"]))), Ok(()));
}

#[test]
fn moderator_passes_with_moderate_users_in_the_group() {
    let actor = user(&[]);
    assert_eq!(validate_group_user_moderator(&actor, &Some(member(&["MODERATE_USERS"]))), Ok(()));
    assert_eq!(validate_group_user_moderator(&actor, &Some(member(&["ADMIN"]))), Ok(()));
}

#[test]
fn moderate_users_on_the_server_is_not_enough_for_a_group() {
    let actor = user(&["MODERATE_USERS"]);
    assert_eq!(
        validate_group_user_moderator(&actor, &None),
        Err(PermissionDenied::ModeratorGroupMembershipRequired)
    );
    assert_eq!(
        validate_group_user_moderator(&actor, &Some(member(&["VIEW_POSTS"]))),
        Err(PermissionDenied::GroupPermissionRequired(Permission::ModerateUsers))
    );
}

#[test]
fn moderator_without_membership_is_told_to_join() {
    let actor = user(&["VIEW_POSTS"]);
    let denial = validate_group_user_moderator(&actor, &None).unwrap_err();
    assert_eq!(denial, PermissionDenied::ModeratorGroupMembershipRequired);
    assert_eq!(denial.reason(), "moderator_group_membership_required");
    assert!(denial.is_membership_required());
}

#[test]
fn moderator_with_plain_membership_is_told_what_is_missing() {
    let actor = user(&["VIEW_POSTS"]);
    let denial = validate_group_user_moderator(&actor, &Some(member(&["VIEW_POSTS"]))).unwrap_err();
    assert_eq!(denial, PermissionDenied::GroupPermissionRequired(Permission::ModerateUsers));
    assert_eq!(denial.reason(), "group_permission_MODERATE_USERS_required");
}

#[test]
fn every_denial_reads_differently() {
    let mut reasons: Vec<String> = vec![
        PermissionDenied::AdminGroupMembershipRequired.reason(),
        PermissionDenied::ModeratorGroupMembershipRequired.reason(),
    ];
    for permission in every_permission() {
        reasons.push(PermissionDenied::PermissionRequired(permission).reason());
        reasons.push(PermissionDenied::GroupPermissionRequired(permission).reason());
    }
    for (i, a) in reasons.iter().enumerate() {
        for (j, b) in reasons.iter().enumerate() {
            assert_eq!(a == b, i == j);
        }
    }
}
