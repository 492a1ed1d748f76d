//! Roles and what each of them may do.
//!
//! There are three: `admin`, `super_user` and `user`. A role is stored by its
//! name, so a name must read back as the role that wrote it.

use std::str::FromStr;
use vstd::prelude::*;

verus! {

#[derive(Debug, Clone, Copy, PartialEq, Eq, Structural)]
pub enum Role {
    Admin,
    SuperUser,
    User,
}

/// A stored name that stands for no role.
#[derive(Debug, Clone)]
pub struct UnknownRole {
    pub name: String,
}

/// The name under which a role is stored.
pub open spec fn role_name(role: Role) -> Seq<char> {
    match role {
        Role::Admin => "admin"@,
        Role::SuperUser => "super_user"@,
        Role::User => "user"@,
    }
}

/// Whether some role is stored under `name`.
pub open spec fn is_role_name(name: Seq<char>) -> bool {
    name == role_name(Role::Admin) || name == role_name(Role::SuperUser) || name == role_name(
        Role::User,
    )
}

/// The role stored under `name`, where there is one.
pub open spec fn role_named(name: Seq<char>) -> Option<Role> {
    if name == role_name(Role::Admin) {
        Some(Role::Admin)
    } else if name == role_name(Role::SuperUser) {
        Some(Role::SuperUser)
    } else if name == role_name(Role::User) {
        Some(Role::User)
    } else {
        None
    }
}

pub open spec fn may_upload(role: Role) -> bool {
    role == Role::Admin || role == Role::SuperUser
}

pub open spec fn may_delete(role: Role) -> bool {
    role == Role::Admin || role == Role::SuperUser
}

pub open spec fn may_manage_users(role: Role) -> bool {
    role == Role::Admin
}

impl Role {
    pub fn can_upload(self) -> (r: bool)
        ensures
            r == may_upload(self),
    {
        matches!(self, Role::Admin | Role::SuperUser)
    }

    pub fn can_delete(self) -> (r: bool)
        ensures
            r == may_delete(self),
    {
        matches!(self, Role::Admin | Role::SuperUser)
    }

    pub fn can_manage_users(self) -> (r: bool)
        ensures
            r == may_manage_users(self),
    {
        matches!(self, Role::Admin)
    }

    /// The name under which the role is stored.
    pub fn to_string(&self) -> (name: String)
        ensures
            name@ == role_name(*self),
    {
        match self {
            Role::Admin => "admin".to_owned(),
            Role::SuperUser => "super_user".to_owned(),
            Role::User => "user".to_owned(),
        }
    }
}

impl FromStr for Role {
    type Err = UnknownRole;

    /// Reads a stored name back; any other text is refused and handed back.
    fn from_str(s: &str) -> (r: Result<Self, UnknownRole>)
        ensures
            match r {
                Ok(role) => role_named(s@) == Some(role),
                Err(e) => role_named(s@) is None && e.name@ == s@,
            },
    {
        let name = s.to_owned();
        if name == Role::Admin.to_string() {
            Ok(Role::Admin)
        } else if name == Role::SuperUser.to_string() {
            Ok(Role::SuperUser)
        } else if name == Role::User.to_string() {
            Ok(Role::User)
        } else {
            Err(UnknownRole { name })
        }
    }
}

impl UnknownRole {
    /// The refusal as text.
    pub fn message(&self) -> (text: String)
        ensures
            text@ == "unknown role: "@ + self.name@,
    {
        "unknown role: ".to_owned().concat(self.name.as_str())
    }
}

/// No two roles share a name.
pub proof fn law_role_names_differ(a: Role, b: Role)
    ensures
        role_name(a) == role_name(b) <==> a == b,
{
    reveal_strlit("admin");
    reveal_strlit("super_user");
    reveal_strlit("user");
    if a != b {
        assert(role_name(a).len() != role_name(b).len());
    }
}

/// A stored role reads back as itself.
pub proof fn law_role_round_trip(role: Role)
    ensures
        role_named(role_name(role)) == Some(role),
{
    law_role_names_differ(role, Role::Admin);
    law_role_names_differ(role, Role::SuperUser);
    law_role_names_differ(role, Role::User);
}

/// A name reads as a role exactly when that role is stored under it; every
/// other name is refused.
pub proof fn law_only_role_names_are_read(name: Seq<char>)
    ensures
        forall|role: Role| role_named(name) == Some(role) <==> name == #[trigger] role_name(role),
        role_named(name) is Some <==> is_role_name(name),
{
    assert forall|role: Role| role_named(name) == Some(role) <==> name == #[trigger] role_name(
        role,
    ) by {
        law_role_round_trip(role);
    }
}

/// Capabilities only grow from `user` through `super_user` to `admin`:
/// whoever manages users may delete, whoever may delete may upload and the
/// other way round, and a plain user may do none of these.
pub proof fn law_capabilities_are_nested(role: Role)
    ensures
        may_manage_users(role) ==> may_delete(role),
        may_delete(role) <==> may_upload(role),
        may_manage_users(role) <==> role == Role::Admin,
        role == Role::User <==> !may_upload(role),
{
}

/// A role is stored as `admin`, `super_user` or `user`, letter for letter, and
/// no other text is read as a role.
pub proof fn law_roles_have_their_names(name: Seq<char>)
    ensures
        role_name(Role::Admin) == "admin"@,
        role_name(Role::SuperUser) == "super_user"@,
        role_name(Role::User) == "user"@,
        role_named(name) == Some(Role::Admin) <==> name == "admin"@,
        role_named(name) == Some(Role::SuperUser) <==> name == "super_user"@,
        role_named(name) == Some(Role::User) <==> name == "user"@,
{
    law_only_role_names_are_read(name);
    assert(name == role_name(Role::Admin) <==> name == "admin"@);
    assert(name == role_name(Role::SuperUser) <==> name == "super_user"@);
    assert(name == role_name(Role::User) <==> name == "user"@);
}

/// An administrator and a super user may upload and delete; only an
/// administrator may manage users.
pub proof fn law_capabilities(role: Role, upload: bool, delete: bool, manage: bool)
    requires
        call_ensures(Role::can_upload, (role,), upload),
        call_ensures(Role::can_delete, (role,), delete),
        call_ensures(Role::can_manage_users, (role,), manage),
    ensures
        upload <==> role != Role::User,
        delete <==> role != Role::User,
        manage <==> role == Role::Admin,
{
}

} // verus!
