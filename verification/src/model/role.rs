//! The role of a user: an administrator or an ordinary user.
use vstd::prelude::*;

verus! {

/// A user's role. Its name in storage is the variant's name, `"ADMIN"` or `"USER"`.
#[derive(Debug, Clone, Copy, PartialEq, Eq, Structural)]
pub enum Role {
    ADMIN,
    USER,
}

/// A role name that names no role.
#[derive(Debug, Clone, Copy, PartialEq, Eq, Structural)]
pub enum RoleParseError {
    VariantNotFound,
}

/// The stored name of a role.
pub open spec fn role_name(role: Role) -> Seq<char> {
    match role {
        Role::ADMIN => seq!['A', 'D', 'M', 'I', 'N'],
        Role::USER => seq!['U', 'S', 'E', 'R'],
    }
}

/// The role that a name denotes, if any.
pub open spec fn role_named(name: Seq<char>) -> Option<Role> {
    if name == role_name(Role::ADMIN) {
        Some(Role::ADMIN)
    } else if name == role_name(Role::USER) {
        Some(Role::USER)
    } else {
        None
    }
}

impl Role {
    /// Every role, in declaration order.
    pub open spec fn spec_all() -> Seq<Role> {
        seq![Role::ADMIN, Role::USER]
    }

    /// The role's stored name.
    pub fn as_str(&self) -> (name: &'static str)
        ensures
            name@ == role_name(*self),
    {
        match self {
            Role::ADMIN => {
                let s = "ADMIN";
                proof {
                    reveal_strlit("ADMIN");
                }
                s
            },
            Role::USER => {
                let s = "USER";
                proof {
                    reveal_strlit("USER");
                }
                s
            },
        }
    }

    /// Reads a role from its stored name; names are matched exactly, case included.
    pub fn parse(name: &str) -> (r: Result<Role, RoleParseError>)
        ensures
            match role_named(name@) {
                Some(role) => r == Ok::<Role, RoleParseError>(role),
                None => r == Err::<Role, RoleParseError>(RoleParseError::VariantNotFound),
            },
    {
        let given = String::from_str(name);
        let admin = String::from_str(Role::ADMIN.as_str());
        if given == admin {
            return Ok(Role::ADMIN);
        }
        let user = String::from_str(Role::USER.as_str());
        if given == user {
            return Ok(Role::USER);
        }
        Err(RoleParseError::VariantNotFound)
    }

    /// Every role, in declaration order.
    pub fn all() -> (roles: Vec<Role>)
        ensures
            roles@ == Self::spec_all(),
    {
        vec![Role::ADMIN, Role::USER]
    }
}

impl Default for Role {
    /// A new account is an ordinary user.
    fn default() -> (role: Role)
        ensures
            role == Role::USER,
    {
        Role::USER
    }
}

/// Reading back a role's stored name gives the role again.
pub proof fn lemma_role_name_round_trip(role: Role)
    ensures
        role_named(role_name(role)) == Some(role),
{
    assert(role_name(Role::ADMIN) != role_name(Role::USER)) by {
        assert(role_name(Role::ADMIN).len() != role_name(Role::USER).len());
    }
}

/// A name that reads as a role is that role's stored name: no two names denote one role.
pub proof fn lemma_role_named_is_injective(name: Seq<char>)
    ensures
        role_named(name) matches Some(role) ==> role_name(role) == name,
{
}

/// Every role appears once in the list of all roles.
pub proof fn lemma_all_roles_listed(role: Role)
    ensures
        Role::spec_all().contains(role),
        Role::spec_all().no_duplicates(),
{
    assert(Role::spec_all()[0] == Role::ADMIN);
    assert(Role::spec_all()[1] == Role::USER);
    match role {
        Role::ADMIN => assert(Role::spec_all()[0] == role),
        Role::USER => assert(Role::spec_all()[1] == role),
    }
}

} // verus!
