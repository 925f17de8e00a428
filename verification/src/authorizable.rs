//! Roles, permissions and the default authorization policy.

use vstd::prelude::*;
use vstd::string::*;

verus! {

/// The outcome of an authorization check.
#[derive(Debug, Clone, PartialEq, Eq)]
pub struct Authorization {
    pub allowed: bool,
    pub reason: Option<String>,
}

impl Authorization {
    /// Allowed, with no reason.
    pub fn allow() -> (a: Self)
        ensures
            a.allowed,
            a.reason is None,
    {
        Self { allowed: true, reason: None }
    }

    /// Denied, with the given reason (converted into a `String`; for a
    /// string slice, the same characters).
    pub fn deny<R: Into<String>>(reason: R) -> (a: Self)
        ensures
            !a.allowed,
            a.reason matches Some(r) && call_ensures(R::into, (reason,), r),
    {
        Self { allowed: false, reason: Some(reason.into()) }
    }
}

/// `String::from` on a string slice (std's `impl From<&str> for String`),
/// which std documents as converting the slice into a `String`: the result
/// holds the same characters as `s`.
pub assume_specification<'a, 'b>[ <String as From<&'a str>>::from ](s: &'b str) -> (r: String)
    ensures
        r@ == s@,
;

/// `name` occurs (by its characters) in `names`.
pub open spec fn lists(names: Seq<String>, name: Seq<char>) -> bool {
    exists|i: int| 0 <= i < names.len() && #[trigger] names[i]@ == name
}

/// Whether `name` occurs in `names`.
pub fn name_listed(names: &Vec<String>, name: &str) -> (b: bool)
    ensures
        b == lists(names@, name@),
{
    let wanted = String::from_str(name);
    let mut i: usize = 0;
    while i < names.len()
        invariant
            i <= names.len(),
            wanted@ == name@,
            forall|j: int| 0 <= j < i ==> names@[j]@ != name@,
        decreases names.len() - i,
    {
        if names[i] == wanted {
            assert(names@[i as int]@ == name@);
            return true;
        }
        i = i + 1;
    }
    false
}

/// Law: `name_listed` finds a name at any position. If the name occurs at
/// some index of the list (the first, the last or any other), the answer is
/// yes; and a yes means that the name occurs at some index.
pub proof fn lemma_name_listed_searches_every_position(names: &Vec<String>, name: &str, b: bool)
    requires
        call_ensures(name_listed, (names, name), b),
    ensures
        forall|i: int| 0 <= i < names@.len() && #[trigger] names@[i]@ == name@ ==> b,
        b ==> exists|i: int| 0 <= i < names@.len() && #[trigger] names@[i]@ == name@,
        names@.len() == 0 ==> !b,
{
}

/// The authorization for a decided check: allowed, or denied as "forbidden".
pub fn authorization_for(allowed: bool) -> (a: Authorization)
    ensures
        a.allowed == allowed,
        allowed ==> a.reason is None,
        !allowed ==> (a.reason matches Some(r) && r@ == "forbidden"@),
{
    if allowed {
        Authorization::allow()
    } else {
        Authorization { allowed: false, reason: Some(String::from_str("forbidden")) }
    }
}

/// Roles and permissions of a user. Implemented by the application's user
/// type; every method has a default.
pub trait Authorizable: Clone + Send + Sync + 'static {
    /// The user's roles; none by default.
    fn roles(&self) -> (r: Vec<String>)
        default_ensures
            r@.len() == 0,
    {
        Vec::new()
    }

    /// The user's permissions; none by default.
    fn permissions(&self) -> (r: Vec<String>)
        default_ensures
            r@.len() == 0,
    {
        Vec::new()
    }

    /// By default: `role` is among `roles()`.
    fn has_role(&self, role: &str) -> (b: bool)
        default_ensures
            exists|rs: Vec<String>| call_ensures(Self::roles, (self,), rs) && b == lists(rs@, role@),
    {
        name_listed(&self.roles(), role)
    }

    /// By default: `perm` is among `permissions()`.
    fn has_permission(&self, perm: &str) -> (b: bool)
        default_ensures
            exists|ps: Vec<String>| call_ensures(Self::permissions, (self,), ps) && b == lists(ps@, perm@),
    {
        name_listed(&self.permissions(), perm)
    }

    /// By default: the permission `ability` is held, or the role "admin".
    fn can(&self, ability: &str) -> (b: bool)
        default_ensures
            b ==> (call_ensures(Self::has_permission, (self, ability), true)
                || call_ensures(Self::has_role, (self, "admin"), true)),
            !b ==> call_ensures(Self::has_permission, (self, ability), false)
                && call_ensures(Self::has_role, (self, "admin"), false),
    {
        self.has_permission(ability) || self.has_role("admin")
    }

    /// By default: allowed when `can(ability)`, else denied as "forbidden".
    fn authorize(&self, ability: &str) -> (a: Authorization)
        default_ensures
            call_ensures(Self::can, (self, ability), a.allowed),
            a.allowed ==> a.reason is None,
            !a.allowed ==> (a.reason matches Some(r) && r@ == "forbidden"@),
    {
        authorization_for(self.can(ability))
    }
}

} // verus!

