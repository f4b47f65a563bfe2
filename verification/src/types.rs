//! Data model of the governance engine: roles, configuration, multi-signature
//! settings, proposals, and pending admin transfers.
//!
//! Principals are identified by plain `u64` values: the engine only ever
//! compares identities for equality, so any equality-bearing token works and
//! the host maps its own opaque account identifiers onto these.

use vstd::prelude::*;

verus! {

/// A principal's identity as the engine sees it.
pub type Address = u64;

/// The three-level role hierarchy: `Guest < Member < Admin`.
#[derive(Clone, Copy, Debug, PartialEq, Eq, Structural)]
pub enum UserRole {
    Guest,
    Member,
    Admin,
}

/// Position of a role in the hierarchy; higher means more authority.
pub open spec fn role_rank(r: UserRole) -> int {
    match r {
        UserRole::Guest => 0,
        UserRole::Member => 1,
        UserRole::Admin => 2,
    }
}

/// Lowercase image of a Unicode scalar value under ASCII case folding.
pub open spec fn lower_scalar(c: char) -> int {
    if 65 <= c as int <= 90 {
        c as int + 32
    } else {
        c as int
    }
}

/// Case-insensitive (ASCII) equality of two character sequences.
pub open spec fn ci_eq(s: Seq<char>, t: Seq<char>) -> bool {
    &&& s.len() == t.len()
    &&& forall|i: int| 0 <= i < s.len() ==> lower_scalar(s[i]) == lower_scalar(t[i])
}

/// The role a name denotes, compared ignoring ASCII case.
pub open spec fn parse_role(s: Seq<char>) -> Option<UserRole> {
    if ci_eq(s, "guest"@) {
        Some(UserRole::Guest)
    } else if ci_eq(s, "member"@) {
        Some(UserRole::Member)
    } else if ci_eq(s, "admin"@) {
        Some(UserRole::Admin)
    } else {
        None
    }
}

impl UserRole {
    /// Name of the role.
    pub open spec fn name(self) -> Seq<char> {
        match self {
            UserRole::Guest => "Guest"@,
            UserRole::Member => "Member"@,
            UserRole::Admin => "Admin"@,
        }
    }

    /// Whether this role suffices for an operation requiring `required`.
    pub open spec fn covers(self, required: UserRole) -> bool {
        role_rank(self) >= role_rank(required)
    }

    /// Check if this role has sufficient privileges for the required role:
    /// true if this role is at least as high in the hierarchy.
    pub fn has_access(&self, required_role: &UserRole) -> (r: bool)
        ensures
            r == self.covers(*required_role),
    {
        let own = match self {
            UserRole::Guest => 0u8,
            UserRole::Member => 1u8,
            UserRole::Admin => 2u8,
        };
        let need = match required_role {
            UserRole::Guest => 0u8,
            UserRole::Member => 1u8,
            UserRole::Admin => 2u8,
        };
        own >= need
    }

    /// String representation of the role.
    pub fn as_str(&self) -> (r: &'static str)
        ensures
            r@ == self.name(),
    {
        match self {
            UserRole::Guest => "Guest",
            UserRole::Member => "Member",
            UserRole::Admin => "Admin",
        }
    }

    /// Parse a role from its name, ignoring ASCII case.
    pub fn parse_from_str(role_str: &str) -> (r: Option<UserRole>)
        ensures
            r == parse_role(role_str@),
    {
        if eq_ignore_ascii_case(role_str, "guest") {
            Some(UserRole::Guest)
        } else if eq_ignore_ascii_case(role_str, "member") {
            Some(UserRole::Member)
        } else if eq_ignore_ascii_case(role_str, "admin") {
            Some(UserRole::Admin)
        } else {
            None
        }
    }
}

/// Compare two strings for equality ignoring ASCII case.
fn eq_ignore_ascii_case(s: &str, t: &str) -> (r: bool)
    ensures
        r == ci_eq(s@, t@),
{
    let n = s.unicode_len();
    if n != t.unicode_len() {
        return false;
    }
    let mut i: usize = 0;
    while i < n
        invariant
            i <= n,
            n == s@.len(),
            n == t@.len(),
            forall|j: int| 0 <= j < i ==> lower_scalar(s@[j]) == lower_scalar(t@[j]),
        decreases n - i,
    {
        let sc = s.get_char(i) as u32;
        let tc = t.get_char(i) as u32;
        let sl = if 65 <= sc && sc <= 90 { sc + 32 } else { sc };
        let tl = if 65 <= tc && tc <= 90 { tc + 32 } else { tc };
        if sl != tl {
            return false;
        }
        i = i + 1;
    }
    true
}

} // verus!
