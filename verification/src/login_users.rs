use vstd::prelude::*;

use crate::db_object::DbObject;
use crate::model::user::{rank, User, Usertype};
use crate::model::{token_role, token_user_id, user_id_query, Persistance};
use crate::query::Query;
use crate::sql_value::SqlValue;
use crate::text::str_equal;

verus! {

/// Proof that the request comes from a logged-in admin.
#[derive(Copy, Clone, Debug)]
pub struct AdminUser {}

/// Proof that the request comes from a logged-in user of any role.
#[derive(Copy, Clone, Debug)]
pub struct NormalUser {}

impl From<AdminUser> for Usertype {
    fn from(a: AdminUser) -> (t: Usertype) {
        Usertype::Admin
    }
}

impl vstd::std_specs::convert::FromSpecImpl<AdminUser> for Usertype {
    open spec fn obeys_from_spec() -> bool {
        true
    }

    open spec fn from_spec(a: AdminUser) -> Usertype {
        Usertype::Admin
    }
}

impl From<NormalUser> for Usertype {
    fn from(n: NormalUser) -> (t: Usertype) {
        Usertype::User
    }
}

impl vstd::std_specs::convert::FromSpecImpl<NormalUser> for Usertype {
    open spec fn obeys_from_spec() -> bool {
        true
    }

    open spec fn from_spec(n: NormalUser) -> Usertype {
        Usertype::User
    }
}

/// Whether a request whose session has this role passes as an admin.
pub open spec fn admin_admits(role: Option<Usertype>) -> bool {
    role == Some(Usertype::Admin)
}

/// Whether a request whose session has this role passes as a user.
pub open spec fn user_admits(role: Option<Usertype>) -> bool {
    role matches Some(t) && rank(t) <= rank(Usertype::User)
}

/// Every logged-in session passes as a user, and an admin passes wherever a user does.
pub proof fn lemma_admin_is_user(role: Option<Usertype>)
    ensures
        user_admits(role) <==> role is Some,
        admin_admits(role) ==> user_admits(role),
{
}

impl AdminUser {
    /// Admits the request when its session's role is `Admin`; anything else is passed on.
    pub fn from_role(role: Option<Usertype>) -> (r: Option<AdminUser>)
        ensures
            r is Some <==> admin_admits(role),
    {
        match role {
            Some(Usertype::Admin) => Some(AdminUser {}),
            _ => None,
        }
    }
}

impl NormalUser {
    /// Admits the request when its session's role ranks at most `User`, which every role
    /// does; a request without a session is passed on.
    pub fn from_role(role: Option<Usertype>) -> (r: Option<NormalUser>)
        ensures
            r is Some <==> user_admits(role),
    {
        match role {
            Some(t) => {
                if t.at_most(Usertype::User) {
                    Some(NormalUser {})
                } else {
                    None
                }
            },
            None => None,
        }
    }
}

impl Persistance {
    /// The role of the request with this token cookie: none without a cookie or when the
    /// token is not logged in.
    pub fn role_for_request(&self, token: Option<&str>) -> (r: Option<Usertype>)
        ensures
            match token {
                Some(t) => r == token_role(self@, t@),
                None => r is None,
            },
    {
        match token {
            Some(t) => self.get_user_role(t),
            None => None,
        }
    }

    /// The query for the user of the request with this token cookie: none without a
    /// cookie or when the token is not logged in.
    pub fn user_query_for_request(&self, token: Option<&str>) -> (r: Option<Query<User>>)
        ensures
            match token {
                Some(t) => match token_user_id(self@, t@) {
                    Some(id) => r matches Some(q) && q@ == user_id_query(id),
                    None => r is None,
                },
                None => r is None,
            },
    {
        match token {
            Some(t) => match self.get_user_id(t) {
                Some(id) => Some(User::query().Where("id", SqlValue::Integer(id))),
                None => None,
            },
            None => None,
        }
    }

    /// Whether a response goes back to the login page: it does when the path is not the
    /// login page `/`, the page was not found, and the request has no token cookie or one
    /// that is not logged in. Then the path is returned, to be kept in the `redirect_to`
    /// cookie.
    pub fn logon_redirect(&self, path: &str, not_found: bool, token: Option<&str>) -> (r: Option<
        String,
    >)
        ensures
            r is Some <==> (path@ != "/"@ && not_found && match token {
                Some(t) => token_role(self@, t@) is None,
                None => true,
            }),
            r matches Some(p) ==> p@ == path@,
    {
        if !str_equal(path, "/") && not_found {
            let logged_out = match token {
                Some(t) => self.get_user_role(t).is_none(),
                None => true,
            };
            if logged_out {
                Some(path.to_string())
            } else {
                None
            }
        } else {
            None
        }
    }
}

} // verus!
