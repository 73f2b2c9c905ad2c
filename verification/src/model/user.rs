use vstd::prelude::*;

use crate::db_object::{
    create_table_text, lemma_update_conditions, save_action_is, statement_is, value_columns,
    SaveAction,
};
use crate::sql_object::SqlObject;
use crate::sql_types::{SqlType, SqlTyped};
use crate::sql_value::{params_view, SqlStatement, SqlValue, SqlValueView};
use crate::text::{str_equal, str_trim, trimmed};

verus! {

/// The role of a user. `Admin` ranks before `User`: an admin may do what a user may.
#[derive(Copy, Clone, Debug, PartialEq, Eq, Hash, PartialOrd, Ord, Structural)]
pub enum Usertype {
    Admin,
    User,
}

/// The rank of a role in the order `Admin < User`.
pub open spec fn rank(t: Usertype) -> int {
    match t {
        Usertype::Admin => 0,
        Usertype::User => 1,
    }
}

/// The name of a role.
pub open spec fn usertype_name(t: Usertype) -> Seq<char> {
    match t {
        Usertype::Admin => "Admin"@,
        Usertype::User => "User"@,
    }
}

/// The role a name stands for: `Admin` or `User`, and nothing for any other string.
pub open spec fn usertype_named(s: Seq<char>) -> Option<Usertype> {
    if s == "Admin"@ {
        Some(Usertype::Admin)
    } else if s == "User"@ {
        Some(Usertype::User)
    } else {
        None
    }
}

/// Which pages a role may see: admin pages and user pages.
#[derive(Copy, Clone, Debug, PartialEq, Eq, Structural)]
pub struct UsertypeFlags {
    pub admin: bool,
    pub user: bool,
}

impl Usertype {
    /// The role named `s`, which must be `Admin` or `User`.
    pub fn from_str(s: &str) -> (t: Usertype)
        requires
            usertype_named(s@) is Some,
        ensures
            usertype_named(s@) == Some(t),
    {
        if str_equal(s, "Admin") {
            Usertype::Admin
        } else {
            proof {
                reveal_strlit("Admin");
                reveal_strlit("User");
            }
            Usertype::User
        }
    }

    /// The name of the role.
    pub fn to_str(self) -> (s: &'static str)
        ensures
            s@ == usertype_name(self),
    {
        match self {
            Usertype::Admin => "Admin",
            Usertype::User => "User",
        }
    }

    /// The role named `s`, which must be `Admin` or `User`.
    pub fn from_string(s: String) -> (t: Usertype)
        requires
            usertype_named(s@) is Some,
        ensures
            usertype_named(s@) == Some(t),
    {
        Self::from_str(s.as_str())
    }

    /// Whether the role ranks at most `other` in the order `Admin < User`.
    pub fn at_most(self, other: Usertype) -> (r: bool)
        ensures
            r == (rank(self) <= rank(other)),
    {
        match (self, other) {
            (Usertype::User, Usertype::Admin) => false,
            _ => true,
        }
    }

    /// The page flags of the role: the admin flag when it ranks at most `Admin`, the user
    /// flag when it ranks at most `User`.
    pub fn flags(self) -> (f: UsertypeFlags)
        ensures
            f.admin == (rank(self) <= rank(Usertype::Admin)),
            f.user == (rank(self) <= rank(Usertype::User)),
    {
        UsertypeFlags { admin: self.at_most(Usertype::Admin), user: self.at_most(Usertype::User) }
    }
}

/// Reading the name of a role gives the role back, and each valid name is the name of the
/// role it stands for.
pub proof fn lemma_usertype_name_round_trip(t: Usertype, s: Seq<char>)
    ensures
        usertype_named(usertype_name(t)) == Some(t),
        usertype_named(s) matches Some(u) ==> usertype_name(u) == s,
{
    reveal_strlit("Admin");
    reveal_strlit("User");
    assert("Admin"@[0] == 'A' && "User"@[0] == 'U');
}

/// A user account. `usertype` holds the name of the role.
#[derive(Debug, PartialEq, Eq)]
pub struct User {
    pub id: Option<i64>,
    pub usertype: String,
    pub email: String,
    pub card_hash: String,
    pub current_project: String,
}

impl Clone for User {
    fn clone(&self) -> (r: User)
        ensures
            r == *self,
    {
        User {
            id: self.id,
            usertype: self.usertype.clone(),
            email: self.email.clone(),
            card_hash: self.card_hash.clone(),
            current_project: self.current_project.clone(),
        }
    }
}

/// The webdav server answers a request with good credentials with `200 OK`.
pub open spec fn webdav_accepts(status: Option<u16>) -> bool {
    status == Some(200u16)
}

/// Judges the webdav server's answer to a request made with the user's email and the
/// entered password: the password is right exactly when the server answered `200 OK`
/// (`None`: the request failed).
fn verify_webdav_access(status: Option<u16>) -> (r: bool)
    ensures
        r == webdav_accepts(status),
{
    match status {
        Some(code) => code == 200,
        None => false,
    }
}

impl User {
    /// A new user, not yet in the database.
    pub fn new(usertype: Usertype, email: &str, card_hash: &str, active_project: &str) -> (u: User)
        ensures
            u.id is None,
            u.usertype@ == usertype_name(usertype),
            u.email@ == email@,
            u.card_hash@ == card_hash@,
            u.current_project@ == active_project@,
    {
        User {
            id: None,
            usertype: usertype.to_str().to_string(),
            email: email.to_string(),
            card_hash: card_hash.to_string(),
            current_project: active_project.to_string(),
        }
    }

    /// Whether the password is right, given the HTTP status of the webdav server's answer
    /// to a request with the user's email and the password (`None`: the request failed).
    /// Only `200 OK` accepts it.
    pub fn verify(&self, status: Option<u16>) -> (r: bool)
        ensures
            r == webdav_accepts(status),
    {
        verify_webdav_access(status)
    }
}

/// What the admin form for a new user leads to.
pub enum UserCreation {
    /// The user is created.
    Create(User),
    /// The card hash is empty.
    CardHashTooShort,
    /// The email is too short or belongs to another user already.
    EmailAlreadyRegistered,
}

impl UserCreation {
    /// The message shown after the form.
    pub fn message(&self) -> (s: &'static str)
        ensures
            self is Create ==> s@ == "User created"@,
            self is CardHashTooShort ==> s@ == "Card hash too short"@,
            self is EmailAlreadyRegistered ==> s@ == "Email already registered"@,
    {
        match self {
            UserCreation::Create(_) => "User created",
            UserCreation::CardHashTooShort => "Card hash too short",
            UserCreation::EmailAlreadyRegistered => "Email already registered",
        }
    }
}

/// Whether an email may be given to a new user: longer than one byte and not the email of
/// any of the existing users.
pub open spec fn email_available(users: Seq<User>, email: &str) -> bool {
    &&& email.len() > 1
    &&& forall|i: int| 0 <= i < users.len() ==> (#[trigger] users[i]).email@ != email@
}

impl User {
    /// Builds a user from what was read from the columns of its row: `id`, `usertype`,
    /// `email`, `card_hash` and `current_project`, in this order. The first column that
    /// could not be read gives the error.
    pub fn from_columns<E>(
        id: Result<Option<i64>, E>,
        usertype: Result<String, E>,
        email: Result<String, E>,
        card_hash: Result<String, E>,
        current_project: Result<String, E>,
    ) -> (r: Result<User, E>)
        ensures
            id matches Err(e) ==> r == Err::<User, E>(e),
            id is Ok ==> (usertype matches Err(e) ==> r == Err::<User, E>(e)),
            id is Ok && usertype is Ok ==> (email matches Err(e) ==> r == Err::<User, E>(e)),
            id is Ok && usertype is Ok && email is Ok ==> (
                card_hash matches Err(e) ==> r == Err::<User, E>(e)
            ),
            id is Ok && usertype is Ok && email is Ok && card_hash is Ok ==> (
                current_project matches Err(e) ==> r == Err::<User, E>(e)
            ),
            id matches Ok(i) ==> (
                usertype matches Ok(t) ==> (
                    email matches Ok(m) ==> (
                        card_hash matches Ok(c) ==> (
                            current_project matches Ok(p) ==> r == Ok::<User, E>(
                                (User {
                                    id: i,
                                    usertype: t,
                                    email: m,
                                    card_hash: c,
                                    current_project: p,
                                }),
                            )
                        )
                    )
                )
            ),
    {
        let id = match id {
            Ok(v) => v,
            Err(e) => return Err(e),
        };
        let usertype = match usertype {
            Ok(v) => v,
            Err(e) => return Err(e),
        };
        let email = match email {
            Ok(v) => v,
            Err(e) => return Err(e),
        };
        let card_hash = match card_hash {
            Ok(v) => v,
            Err(e) => return Err(e),
        };
        let current_project = match current_project {
            Ok(v) => v,
            Err(e) => return Err(e),
        };
        Ok(User { id, usertype, email, card_hash, current_project })
    }
}

/// Whether `u` is the first admin made from the text of the file `first_user`: a new
/// admin whose email is that text without the white space around it, with no card hash
/// and no project.
pub open spec fn is_first_admin(u: User, file_contents: Seq<char>) -> bool {
    &&& u.id is None
    &&& u.usertype@ == usertype_name(Usertype::Admin)
    &&& u.email@ == trimmed(file_contents)
    &&& u.card_hash@ == Seq::<char>::empty()
    &&& u.current_project@ == Seq::<char>::empty()
}

/// An email that any existing user has, at whatever position of the list, is not
/// available for a new user.
pub proof fn lemma_registered_email_unavailable(users: Seq<User>, email: &str, k: int)
    requires
        0 <= k < users.len(),
        users[k].email@ == email@,
    ensures
        !email_available(users, email),
{
}

/// An available email is longer than one byte and differs from the email of every
/// existing user.
pub proof fn lemma_available_email_is_new(users: Seq<User>, email: &str)
    requires
        email_available(users, email),
    ensures
        email.len() > 1,
        forall|k: int| 0 <= k < users.len() ==> #[trigger] users[k].email@ != email@,
{
}

impl User {
    /// The admin to create at start-up: only when the database file was new
    /// (`database_was_new`) and a file `first_user` exists (`first_user` is its text);
    /// otherwise nobody is created.
    pub fn first_admin_if_new(database_was_new: bool, first_user: Option<&str>) -> (r: Option<User>)
        ensures
            r is Some <==> database_was_new && first_user is Some,
            r matches Some(u) ==> (first_user matches Some(c) && is_first_admin(u, c@)),
    {
        if database_was_new {
            match first_user {
                Some(contents) => Some(User::first_admin(contents)),
                None => None,
            }
        } else {
            None
        }
    }

    /// The first admin, whose email is read from a file: the file's text with the white
    /// space around it removed.
    pub fn first_admin(file_contents: &str) -> (u: User)
        ensures
            is_first_admin(u, file_contents@),
    {
        let email = str_trim(file_contents);
        proof {
            reveal_strlit("");
        }
        let u = User::new(Usertype::Admin, email, "", "");
        assert(u.card_hash@ =~= Seq::<char>::empty());
        assert(u.current_project@ =~= Seq::<char>::empty());
        u
    }

    /// Decides the admin form for a new user, given all existing users: a taken or too
    /// short email is refused first, then an empty card hash; else the user is created
    /// with the form's role, email, card hash and project.
    pub fn plan_creation(
        users: &Vec<User>,
        usertype: &str,
        email: &str,
        card_hash: &str,
        current_project: &str,
    ) -> (r: UserCreation)
        requires
            email_available(users@, email) && card_hash@.len() > 0 ==> usertype_named(usertype@) is Some,
        ensures
            !email_available(users@, email) ==> r is EmailAlreadyRegistered,
            email_available(users@, email) && card_hash@.len() == 0 ==> r is CardHashTooShort,
            email_available(users@, email) && card_hash@.len() > 0 ==> (r matches UserCreation::Create(u)
                && u.id is None
                && u.usertype@ == usertype@
                && u.email@ == email@
                && u.card_hash@ == card_hash@
                && u.current_project@ == current_project@),
            (exists|k: int| 0 <= k < users@.len() && #[trigger] users@[k].email@ == email@)
                ==> r is EmailAlreadyRegistered,
            r matches UserCreation::Create(u) ==> email.len() > 1 && forall|k: int|
                0 <= k < users@.len() ==> #[trigger] users@[k].email@ != u.email@,
    {
        let mut free = true;
        let mut i: usize = 0;
        while i < users.len()
            invariant
                0 <= i <= users@.len(),
                free == forall|j: int| 0 <= j < i ==> (#[trigger] users@[j]).email@ != email@,
            decreases users@.len() - i,
        {
            if str_equal(users[i].email.as_str(), email) {
                free = false;
            }
            i = i + 1;
        }
        if email.len() > 1 && free {
            if !card_hash.is_empty() {
                let t = Usertype::from_str(usertype);
                proof {
                    lemma_usertype_name_round_trip(t, usertype@);
                }
                UserCreation::Create(User::new(t, email, card_hash, current_project))
            } else {
                UserCreation::CardHashTooShort
            }
        } else {
            UserCreation::EmailAlreadyRegistered
        }
    }

    /// Applies the admin form that edits a user: with a card hash, the role name, email,
    /// card hash and project are replaced and `true` is returned; with an empty card hash
    /// nothing changes and `false` is returned.
    pub fn apply_admin_update(
        &mut self,
        usertype: String,
        email: String,
        card_hash: String,
        current_project: String,
    ) -> (updated: bool)
        ensures
            updated == (card_hash@.len() > 0),
            updated ==> *final(self) == (User {
                id: old(self).id,
                usertype,
                email,
                card_hash,
                current_project,
            }),
            !updated ==> *final(self) == *old(self),
    {
        if !card_hash.as_str().is_empty() {
            self.usertype = usertype;
            self.email = email;
            self.card_hash = card_hash;
            self.current_project = current_project;
            true
        } else {
            false
        }
    }
}

impl SqlObject for User {
    open spec fn id_of(&self) -> Option<i64> {
        self.id
    }

    open spec fn table_name() -> Seq<char> {
        "User"@
    }

    open spec fn columns() -> Seq<(Seq<char>, SqlType)> {
        seq![
            ("usertype"@, SqlType::Text),
            ("email"@, SqlType::Text),
            ("card_hash"@, SqlType::Text),
            ("current_project"@, SqlType::Text),
        ]
    }

    open spec fn values_of(&self) -> Seq<(Seq<char>, SqlValue)> {
        seq![
            ("usertype"@, SqlValue::Text(self.usertype)),
            ("email"@, SqlValue::Text(self.email)),
            ("card_hash"@, SqlValue::Text(self.card_hash)),
            ("current_project"@, SqlValue::Text(self.current_project)),
        ]
    }

    fn set_id(&mut self, id: Option<i64>) {
        self.id = id;
    }

    fn get_id(&self) -> (r: Option<i64>) {
        self.id
    }

    fn get_table_name() -> (r: &'static str) {
        "User"
    }

    fn fields_with_sqltypes() -> (r: Vec<(&'static str, SqlType)>) {
        let r = vec![
            ("usertype", <String as SqlTyped>::get_sql_type()),
            ("email", <String as SqlTyped>::get_sql_type()),
            ("card_hash", <String as SqlTyped>::get_sql_type()),
            ("current_project", <String as SqlTyped>::get_sql_type()),
        ];
        assert(crate::sql_object::column_types_view(r@) =~= Self::columns());
        r
    }

    fn fields_with_values(&self) -> (r: Vec<(&'static str, SqlValue)>) {
        let r = vec![
            ("usertype", SqlValue::Text(self.usertype.clone())),
            ("email", SqlValue::Text(self.email.clone())),
            ("card_hash", SqlValue::Text(self.card_hash.clone())),
            ("current_project", SqlValue::Text(self.current_project.clone())),
        ];
        assert(crate::sql_object::column_values_view(r@) =~= self.values_of());
        r
    }
}

/// Saving a stored user writes each field into the column of its name: the row with the
/// user's id gets the role name in `usertype`, the email in `email`, the card hash in
/// `card_hash` and the project in `current_project`.
pub proof fn lemma_user_save_writes_fields(u: User, a: SaveAction)
    requires
        u.id is Some,
        save_action_is(a, User::table_name(), u.id_of(), u.values_of()),
    ensures
        a matches SaveAction::Update(st) && st.sql@
            == "UPDATE User SET usertype = ?, email = ?, card_hash = ?, current_project = ? WHERE id = ?"@
            && params_view(st.params@) == seq![
            SqlValueView::Text(u.usertype@),
            SqlValueView::Text(u.email@),
            SqlValueView::Text(u.card_hash@),
            SqlValueView::Text(u.current_project@),
            SqlValueView::Integer(u.id.unwrap()),
        ],
{
    reveal_strlit(
        "UPDATE User SET usertype = ?, email = ?, card_hash = ?, current_project = ? WHERE id = ?",
    );
    reveal_strlit("UPDATE ");
    reveal_strlit(" SET ");
    reveal_strlit(" = ?");
    reveal_strlit(", ");
    reveal_strlit(" WHERE id = ?");
    reveal_strlit("User");
    reveal_strlit("usertype");
    reveal_strlit("email");
    reveal_strlit("card_hash");
    reveal_strlit("current_project");
    let c0 = Seq::<Seq<char>>::empty();
    let c1 = c0.push("usertype"@);
    let c2 = c1.push("email"@);
    let c3 = c2.push("card_hash"@);
    let c4 = c3.push("current_project"@);
    assert(value_columns(u.values_of()) =~= c4);
    lemma_update_conditions(c0, "usertype"@);
    lemma_update_conditions(c1, "email"@);
    lemma_update_conditions(c2, "card_hash"@);
    lemma_update_conditions(c3, "current_project"@);
    if let SaveAction::Update(st) = a {
        assert(st.sql@
            =~= "UPDATE User SET usertype = ?, email = ?, card_hash = ?, current_project = ? WHERE id = ?"@);
    }
}

/// The table of the user records has one column per field, in the order of the fields,
/// each with the sqlite type of the field.
pub proof fn lemma_user_table_columns(st: SqlStatement)
    requires
        statement_is(st, create_table_text(User::table_name(), User::columns()), Seq::empty()),
    ensures
        st.sql@ == "CREATE TABLE IF NOT EXISTS User (id INTEGER PRIMARY KEY, usertype text, email text, card_hash text, current_project text)"@,
{
    reveal_strlit("CREATE TABLE IF NOT EXISTS User (id INTEGER PRIMARY KEY, usertype text, email text, card_hash text, current_project text)");
    reveal_strlit("CREATE TABLE IF NOT EXISTS ");
    reveal_strlit(" (");
    reveal_strlit("id INTEGER PRIMARY KEY");
    reveal_strlit(", ");
    reveal_strlit(" ");
    reveal_strlit(")");
    reveal_strlit("User");
    reveal_strlit("usertype");
    reveal_strlit("email");
    reveal_strlit("card_hash");
    reveal_strlit("current_project");
    reveal_strlit("text");
    let d0 = Seq::<(Seq<char>, SqlType)>::empty();
    let d1 = d0.push(("usertype"@, SqlType::Text));
    assert(d1.drop_last() =~= d0);
    assert(crate::db_object::column_definitions(d1) == crate::db_object::column_definitions(
        d0,
    ) + ", "@ + "usertype"@ + " "@ + crate::sql_types::sqlite_type_name(SqlType::Text));
    let d2 = d1.push(("email"@, SqlType::Text));
    assert(d2.drop_last() =~= d1);
    assert(crate::db_object::column_definitions(d2) == crate::db_object::column_definitions(
        d1,
    ) + ", "@ + "email"@ + " "@ + crate::sql_types::sqlite_type_name(SqlType::Text));
    let d3 = d2.push(("card_hash"@, SqlType::Text));
    assert(d3.drop_last() =~= d2);
    assert(crate::db_object::column_definitions(d3) == crate::db_object::column_definitions(
        d2,
    ) + ", "@ + "card_hash"@ + " "@ + crate::sql_types::sqlite_type_name(SqlType::Text));
    let d4 = d3.push(("current_project"@, SqlType::Text));
    assert(d4.drop_last() =~= d3);
    assert(crate::db_object::column_definitions(d4) == crate::db_object::column_definitions(
        d3,
    ) + ", "@ + "current_project"@ + " "@ + crate::sql_types::sqlite_type_name(SqlType::Text));
    assert(User::columns() =~= d4);
    assert(st.sql@ =~= "CREATE TABLE IF NOT EXISTS User (id INTEGER PRIMARY KEY, usertype text, email text, card_hash text, current_project text)"@);
}

} // verus!
