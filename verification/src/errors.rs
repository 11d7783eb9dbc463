//! The failures that this crate reports.
//!
//! Every failure is a plain value. It ends the request it belongs to: none of
//! them is worth a retry.

use vstd::prelude::*;
use vstd::string::*;
use crate::permissions::{lemma_names_differ, Permission};

verus! {

/// Why a public identifier could not be turned into a storage key.
#[derive(Clone, Copy, Debug, PartialEq, Eq, Structural)]
pub enum DecodeError {
    /// The text is not base 58, or does not stand for eight bytes holding a
    /// value that some key maps to.
    MalformedInput,
    /// The text stands for the key zero, which no entity has.
    InvalidIdentifier,
}

/// What was wrong with a field of a request.
#[derive(Clone, Copy, Debug, PartialEq, Eq, Structural)]
pub enum FailureKind {
    /// Fewer characters than the field needs.
    TooShort,
    /// More characters than the field admits.
    TooLong,
    /// A character that is no letter, digit or underscore.
    InvalidCharacter,
    /// A value that is kept for the server's own paths.
    ReservedValue,
    /// A public identifier that names no storage key.
    InvalidIdentifier,
}

/// A field of a request that was rejected, and why.
#[derive(Debug, PartialEq, Eq)]
pub struct ValidationFailure {
    /// The name of the rejected field.
    pub field: String,
    /// What was wrong with it.
    pub kind: FailureKind,
}

impl ValidationFailure {
    /// Whether this failure is about the field named `field` and of kind `kind`.
    pub open spec fn is_about(&self, field: Seq<char>, kind: FailureKind) -> bool {
        self.field@ == field && self.kind == kind
    }

    /// Rejects the field named `field_name` for the reason `kind`.
    pub fn new(field_name: &str, kind: FailureKind) -> (failure: ValidationFailure)
        ensures
            failure.is_about(field_name@, kind),
    {
        ValidationFailure { field: field_name.to_owned(), kind }
    }

    /// The text by which clients recognise the failure.
    pub open spec fn reason_text(&self) -> Seq<char> {
        match self.kind {
            FailureKind::TooShort => self.field@ + "_too_short"@,
            FailureKind::TooLong => self.field@ + "_too_long"@,
            FailureKind::InvalidCharacter => self.field@ + "_invalid_characters"@,
            FailureKind::ReservedValue => self.field@ + "_reserved"@,
            FailureKind::InvalidIdentifier => "invalid_id_"@ + self.field@,
        }
    }

    /// Gives the text by which clients recognise the failure.
    pub fn reason(&self) -> (reason: String)
        ensures
            reason@ == self.reason_text(),
    {
        match self.kind {
            FailureKind::TooShort => join(self.field.as_str(), "_too_short"),
            FailureKind::TooLong => join(self.field.as_str(), "_too_long"),
            FailureKind::InvalidCharacter => join(self.field.as_str(), "_invalid_characters"),
            FailureKind::ReservedValue => join(self.field.as_str(), "_reserved"),
            FailureKind::InvalidIdentifier => join("invalid_id_", self.field.as_str()),
        }
    }
}

/// Whether `verdict` reports exactly `fault` for the field named `field`: no
/// failure where there is no fault, and else a failure of that kind about that
/// field.
pub open spec fn reports(
    verdict: Result<(), ValidationFailure>,
    field: Seq<char>,
    fault: Option<FailureKind>,
) -> bool {
    match fault {
        None => verdict is Ok,
        Some(kind) => verdict matches Err(failure) && failure.is_about(field, kind),
    }
}

/// Why a user may not do what they asked for.
#[derive(Clone, Copy, Debug, PartialEq, Eq, Structural)]
pub enum PermissionDenied {
    /// The user holds neither the permission nor `Admin`.
    PermissionRequired(Permission),
    /// The membership holds neither the permission nor `Admin`.
    GroupPermissionRequired(Permission),
    /// Only a member of the group could pass as its administrator, and the
    /// user is none.
    AdminGroupMembershipRequired,
    /// Only a member of the group could pass as its moderator, and the user is
    /// none.
    ModeratorGroupMembershipRequired,
}

impl PermissionDenied {
    /// Whether the user was turned away for not being a member of the group,
    /// rather than for lacking a permission.
    pub open spec fn membership_required(self) -> bool {
        self is AdminGroupMembershipRequired || self is ModeratorGroupMembershipRequired
    }

    /// The text by which clients recognise the denial.
    pub open spec fn reason_text(self) -> Seq<char> {
        match self {
            PermissionDenied::PermissionRequired(p) => "permission_"@ + p.name() + "_required"@,
            PermissionDenied::GroupPermissionRequired(p) => "group_permission_"@ + p.name()
                + "_required"@,
            PermissionDenied::AdminGroupMembershipRequired => "admin_group_membership_required"@,
            PermissionDenied::ModeratorGroupMembershipRequired =>
                "moderator_group_membership_required"@,
        }
    }

    /// Says whether the user was turned away for not being a member of the
    /// group.
    pub fn is_membership_required(&self) -> (required: bool)
        ensures
            required == self.membership_required(),
    {
        match self {
            PermissionDenied::AdminGroupMembershipRequired => true,
            PermissionDenied::ModeratorGroupMembershipRequired => true,
            _ => false,
        }
    }

    /// Gives the text by which clients recognise the denial.
    pub fn reason(&self) -> (reason: String)
        ensures
            reason@ == self.reason_text(),
    {
        match self {
            PermissionDenied::PermissionRequired(p) => {
                let mut reason = join("permission_", p.as_str_name());
                reason.append("_required");
                reason
            },
            PermissionDenied::GroupPermissionRequired(p) => {
                let mut reason = join("group_permission_", p.as_str_name());
                reason.append("_required");
                reason
            },
            PermissionDenied::AdminGroupMembershipRequired => {
                "admin_group_membership_required".to_owned()
            },
            PermissionDenied::ModeratorGroupMembershipRequired => {
                "moderator_group_membership_required".to_owned()
            },
        }
    }
}

/// Two denials with the same text are the same denial: clients can tell every
/// reason from every other, and every permission in it from every other.
pub proof fn lemma_reasons_differ(a: PermissionDenied, b: PermissionDenied)
    requires
        a.reason_text() == b.reason_text(),
    ensures
        a == b,
{
    reveal_strlit("permission_");
    reveal_strlit("group_permission_");
    reveal_strlit("_required");
    reveal_strlit("admin_group_membership_required");
    reveal_strlit("moderator_group_membership_required");
    lemma_names_differ();
    let x = a.reason_text();
    let y = b.reason_text();
    assert(x[0] == y[0]);
    match (a, b) {
        (PermissionDenied::PermissionRequired(p), PermissionDenied::PermissionRequired(q)) => {
            lemma_middle_is_same("permission_"@, p.name(), q.name(), "_required"@);
        },
        (
            PermissionDenied::GroupPermissionRequired(p),
            PermissionDenied::GroupPermissionRequired(q),
        ) => {
            lemma_middle_is_same("group_permission_"@, p.name(), q.name(), "_required"@);
        },
        _ => {},
    }
}

/// Texts that agree, and begin and end with the same parts, agree in the
/// middle.
proof fn lemma_middle_is_same(head: Seq<char>, a: Seq<char>, b: Seq<char>, tail: Seq<char>)
    requires
        head + a + tail == head + b + tail,
    ensures
        a == b,
{
    let x = head + a + tail;
    let y = head + b + tail;
    assert(x.len() == y.len());
    assert(a.len() == b.len());
    assert forall|i: int| 0 <= i < a.len() implies a[i] == b[i] by {
        assert(x[head.len() + i] == a[i]);
        assert(y[head.len() + i] == b[i]);
    }
    assert(a =~= b);
}

/// Puts `tail` behind `head`.
fn join(head: &str, tail: &str) -> (joined: String)
    ensures
        joined@ == head@ + tail@,
{
    let mut joined = head.to_owned();
    joined.append(tail);
    joined
}

} // verus!
