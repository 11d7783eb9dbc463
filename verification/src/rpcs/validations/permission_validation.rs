//! Whether a user may do what they ask for.
//!
//! `Admin` on the whole server passes every check of a user. What a user holds
//! within a group counts only where the check is about the group. A check of a
//! membership against a list of permissions passes on what the list names and
//! on nothing else. A user who is turned away for not belonging to a group is
//! told so, and not that a permission is missing.

use vstd::prelude::*;
use crate::errors::{lemma_reasons_differ, PermissionDenied};
use crate::models::{group_capabilities, Membership, User};
use crate::permissions::{to_proto_permissions, Permission};

verus! {

/// Whether `granted` holds one of `wanted`.
pub open spec fn holds_one_of(granted: Set<Permission>, wanted: Seq<Permission>) -> bool {
    exists|i: int| 0 <= i < wanted.len() && granted.contains(#[trigger] wanted[i])
}

/// Whether `granted` holds `Admin` or one of `wanted`.
pub open spec fn passes(granted: Set<Permission>, wanted: Seq<Permission>) -> bool {
    granted.contains(Permission::Admin) || holds_one_of(granted, wanted)
}

/// The outcome of asking a user for one of `wanted`: a denial names the first
/// of them.
pub open spec fn permission_verdict(granted: Set<Permission>, wanted: Seq<Permission>) -> Result<
    (),
    PermissionDenied,
> {
    if passes(granted, wanted) {
        Ok(())
    } else {
        Err(PermissionDenied::PermissionRequired(wanted[0]))
    }
}

/// The outcome of asking a membership for one of `wanted`: only what is
/// listed passes, and a denial names the first of the list.
pub open spec fn group_permission_verdict(
    granted: Set<Permission>,
    wanted: Seq<Permission>,
) -> Result<(), PermissionDenied> {
    if holds_one_of(granted, wanted) {
        Ok(())
    } else {
        Err(PermissionDenied::GroupPermissionRequired(wanted[0]))
    }
}

/// The outcome of asking a membership for `permission`: `Admin` within the
/// group will do as well, and a denial names `permission`.
pub open spec fn single_group_permission_verdict(
    granted: Set<Permission>,
    permission: Permission,
) -> Result<(), PermissionDenied> {
    group_permission_verdict(granted, seq![permission, Permission::Admin])
}

/// The outcome of asking whether a user administers a group: `Admin` on the
/// server will do, else `Admin` within the group, for which the user has to
/// belong to it.
pub open spec fn group_admin_verdict(
    user: Set<Permission>,
    membership: Option<Set<Permission>>,
) -> Result<(), PermissionDenied> {
    if user.contains(Permission::Admin) {
        Ok(())
    } else {
        match membership {
            Some(granted) => single_group_permission_verdict(granted, Permission::Admin),
            None => Err(PermissionDenied::AdminGroupMembershipRequired),
        }
    }
}

/// The outcome of asking whether a user moderates the users of a group: who
/// administers the group does, else `ModerateUsers` within the group is needed,
/// for which the user has to belong to it.
pub open spec fn group_user_moderator_verdict(
    user: Set<Permission>,
    membership: Option<Set<Permission>>,
) -> Result<(), PermissionDenied> {
    if group_admin_verdict(user, membership) is Ok {
        Ok(())
    } else {
        match membership {
            Some(granted) => single_group_permission_verdict(
                granted,
                Permission::ModerateUsers,
            ),
            None => Err(PermissionDenied::ModeratorGroupMembershipRequired),
        }
    }
}

/// Whether `permission` is among `granted`.
fn holds(granted: &Vec<Permission>, permission: Permission) -> (found: bool)
    ensures
        found == granted@.contains(permission),
{
    let mut i: usize = 0;
    while i < granted.len()
        invariant
            i <= granted@.len(),
            forall|j: int| 0 <= j < i ==> granted@[j] != permission,
        decreases granted@.len() - i,
    {
        if granted[i] == permission {
            return true;
        }
        i += 1;
    }
    false
}

/// Whether one of `wanted` is among `granted`.
fn holds_any(granted: &Vec<Permission>, wanted: &Vec<Permission>) -> (found: bool)
    ensures
        found == holds_one_of(granted@.to_set(), wanted@),
{
    let mut i: usize = 0;
    while i < wanted.len()
        invariant
            i <= wanted@.len(),
            forall|j: int| 0 <= j < i ==> !granted@.to_set().contains(#[trigger] wanted@[j]),
        decreases wanted@.len() - i,
    {
        if holds(granted, wanted[i]) {
            return true;
        }
        i += 1;
    }
    false
}

/// Passes a user who administers the group: one who holds `Admin` on the
/// server, or who belongs to the group and holds `Admin` within it.
///
/// A user without `Admin` who does not belong to the group is told that
/// membership is required; one who belongs to it, that `Admin` within the group
/// is.
pub fn validate_group_admin(user: &User, membership: &Option<Membership>) -> (verdict: Result<
    (),
    PermissionDenied,
>)
    ensures
        verdict == group_admin_verdict(user.capabilities(), group_capabilities(*membership)),
{
    match validate_permission(user, Permission::Admin) {
        Ok(_) => Ok(()),
        Err(_) => match membership {
            Some(membership) => validate_group_permission(membership, Permission::Admin),
            None => Err(PermissionDenied::AdminGroupMembershipRequired),
        },
    }
}

/// Passes a user who moderates the users of the group: one who administers
/// it, or who belongs to it and holds `ModerateUsers` within it.
///
/// A user who neither administers the group nor belongs to it is told that
/// membership is required; one who belongs to it, that `ModerateUsers` within
/// the group is.
pub fn validate_group_user_moderator(user: &User, membership: &Option<Membership>) -> (verdict:
    Result<(), PermissionDenied>)
    ensures
        verdict == group_user_moderator_verdict(
            user.capabilities(),
            group_capabilities(*membership),
        ),
{
    match validate_group_admin(user, membership) {
        Ok(_) => Ok(()),
        Err(_) => match membership {
            Some(membership) => validate_group_permission(membership, Permission::ModerateUsers),
            None => Err(PermissionDenied::ModeratorGroupMembershipRequired),
        },
    }
}

/// Passes a user who holds `permission` or `Admin` on the server. The denial
/// names `permission`.
pub fn validate_permission(user: &User, permission: Permission) -> (verdict: Result<
    (),
    PermissionDenied,
>)
    ensures
        verdict == permission_verdict(user.capabilities(), seq![permission]),
        verdict is Ok <==> user.capabilities().contains(permission) || user.capabilities().contains(
            Permission::Admin,
        ),
{
    let wanted = vec![permission, Permission::Admin];
    proof {
        lemma_admin_adds_nothing(user.capabilities(), permission);
    }
    validate_any_permission(user, wanted)
}

/// Passes a user who holds `Admin` or one of `permissions` on the server. The
/// denial names the first of `permissions`, so the most telling one belongs in
/// front.
pub fn validate_any_permission(user: &User, permissions: Vec<Permission>) -> (verdict: Result<
    (),
    PermissionDenied,
>)
    requires
        permissions@.len() > 0,
    ensures
        verdict == permission_verdict(user.capabilities(), permissions@),
{
    let granted = to_proto_permissions(&user.permissions);
    if !holds(&granted, Permission::Admin) && !holds_any(&granted, &permissions) {
        return Err(PermissionDenied::PermissionRequired(permissions[0]));
    }
    Ok(())
}

/// Passes a membership that holds `permission` or `Admin` within its group.
/// The denial names `permission`.
pub fn validate_group_permission(membership: &Membership, permission: Permission) -> (verdict:
    Result<(), PermissionDenied>)
    ensures
        verdict == single_group_permission_verdict(membership.capabilities(), permission),
        verdict is Ok <==> membership.capabilities().contains(permission)
            || membership.capabilities().contains(Permission::Admin),
{
    let wanted = vec![permission, Permission::Admin];
    proof {
        lemma_admin_adds_nothing(membership.capabilities(), permission);
    }
    validate_any_group_permission(membership, wanted)
}

/// Passes a membership that holds one of `permissions` within its group, and
/// no other: `Admin` within the group passes only where the list names it. The
/// denial names the first of `permissions`.
pub fn validate_any_group_permission(membership: &Membership, permissions: Vec<Permission>) -> (verdict:
    Result<(), PermissionDenied>)
    requires
        permissions@.len() > 0,
    ensures
        verdict == group_permission_verdict(membership.capabilities(), permissions@),
{
    let granted = to_proto_permissions(&membership.permissions);
    if !holds_any(&granted, &permissions) {
        return Err(PermissionDenied::GroupPermissionRequired(permissions[0]));
    }
    Ok(())
}

/// A list of a permission and `Admin` is held exactly by who holds one of the
/// two, and for a user, whom `Admin` passes in any case, it asks no more than
/// the permission alone.
proof fn lemma_admin_adds_nothing(granted: Set<Permission>, permission: Permission)
    ensures
        holds_one_of(granted, seq![permission, Permission::Admin]) <==> granted.contains(permission)
            || granted.contains(Permission::Admin),
        passes(granted, seq![permission, Permission::Admin]) == passes(granted, seq![permission]),
        passes(granted, seq![permission]) <==> granted.contains(permission) || granted.contains(
            Permission::Admin,
        ),
        seq![permission, Permission::Admin][0] == permission,
{
    let one = seq![permission];
    let two = seq![permission, Permission::Admin];
    assert(one[0] == permission);
    assert(two[0] == permission);
    assert(two[1] == Permission::Admin);
}

/// Whoever holds `Admin` on the server passes every check: whether or not
/// they hold what is asked for, and whether or not they belong to the group.
pub proof fn lemma_admin_passes_every_check(
    user: User,
    membership: Option<Membership>,
    permission: Permission,
    permissions: Seq<Permission>,
)
    requires
        user.capabilities().contains(Permission::Admin),
    ensures
        permission_verdict(user.capabilities(), seq![permission]) == Ok::<(), PermissionDenied>(()),
        permission_verdict(user.capabilities(), permissions) == Ok::<(), PermissionDenied>(()),
        group_admin_verdict(user.capabilities(), group_capabilities(membership)) == Ok::<
            (),
            PermissionDenied,
        >(()),
        group_user_moderator_verdict(user.capabilities(), group_capabilities(membership)) == Ok::<
            (),
            PermissionDenied,
        >(()),
{
}

/// What a user holds within a group counts for the group only: a user
/// without `Admin` and without `permission` on the server, whose membership
/// holds `permission`, passes the check of the membership and fails the check
/// of the user, which names `permission`.
pub proof fn lemma_group_permission_stays_in_group(
    user: User,
    membership: Membership,
    permission: Permission,
)
    requires
        !user.capabilities().contains(Permission::Admin),
        !user.capabilities().contains(permission),
        membership.capabilities().contains(permission),
    ensures
        single_group_permission_verdict(membership.capabilities(), permission) == Ok::<
            (),
            PermissionDenied,
        >(()),
        permission_verdict(user.capabilities(), seq![permission]) == Err::<(), PermissionDenied>(
            PermissionDenied::PermissionRequired(permission),
        ),
{
    lemma_admin_adds_nothing(user.capabilities(), permission);
    lemma_admin_adds_nothing(membership.capabilities(), permission);
    assert(seq![permission][0] == permission);
}

/// A user without `Admin` who asks to administer a group is told one of two
/// things, and they read differently: that membership is required, if the user
/// does not belong to the group, and that `Admin` within the group is, if the
/// user belongs to it without holding `Admin` there.
pub proof fn lemma_membership_required_is_told_apart(user: User, membership: Membership)
    requires
        !user.capabilities().contains(Permission::Admin),
        !membership.capabilities().contains(Permission::Admin),
    ensures
        group_admin_verdict(user.capabilities(), None) == Err::<(), PermissionDenied>(
            PermissionDenied::AdminGroupMembershipRequired,
        ),
        group_admin_verdict(user.capabilities(), Some(membership.capabilities())) == Err::<
            (),
            PermissionDenied,
        >(PermissionDenied::GroupPermissionRequired(Permission::Admin)),
        PermissionDenied::AdminGroupMembershipRequired.reason_text()
            == "admin_group_membership_required"@,
        PermissionDenied::AdminGroupMembershipRequired.reason_text()
            != PermissionDenied::GroupPermissionRequired(Permission::Admin).reason_text(),
{
    lemma_admin_adds_nothing(membership.capabilities(), Permission::Admin);
    assert(seq![Permission::Admin][0] == Permission::Admin);
    if PermissionDenied::AdminGroupMembershipRequired.reason_text()
        == PermissionDenied::GroupPermissionRequired(Permission::Admin).reason_text() {
        lemma_reasons_differ(
            PermissionDenied::AdminGroupMembershipRequired,
            PermissionDenied::GroupPermissionRequired(Permission::Admin),
        );
    }
}

/// A list asked of a membership passes on what it names and on nothing else:
/// a membership that holds none of the list is denied with the first of the
/// list, whether or not it holds `Admin` within the group, and a list that
/// names `Admin` passes a membership that holds it.
pub proof fn lemma_group_list_passes_what_it_names(
    membership: Membership,
    permissions: Seq<Permission>,
)
    requires
        permissions.len() > 0,
    ensures
        (forall|i: int|
            0 <= i < permissions.len() ==> !membership.capabilities().contains(
                #[trigger] permissions[i],
            )) ==> group_permission_verdict(membership.capabilities(), permissions) == Err::<
            (),
            PermissionDenied,
        >(PermissionDenied::GroupPermissionRequired(permissions[0])),
        membership.capabilities().contains(Permission::Admin) ==> group_permission_verdict(
            membership.capabilities(),
            permissions.push(Permission::Admin),
        ) == Ok::<(), PermissionDenied>(()),
{
    let with_admin = permissions.push(Permission::Admin);
    assert(with_admin[permissions.len() as int] == Permission::Admin);
}

} // verus!
