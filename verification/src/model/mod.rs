use vstd::prelude::*;

use rusqlite::Connection;
use vstd::hash_map::StringHashMap;

use crate::db_object::{create_table_text, statement_is, DbObject};
use crate::persistence_provider::{Persistence, PersistenceError};
use crate::query::{empty_query, Query, QueryView};
use crate::sql_object::SqlObject;
use crate::sql_value::{SqlStatement, SqlValue};

pub mod config;
pub mod log;
pub mod user;

use self::config::Config;
use self::log::Log;
use self::user::{usertype_named, webdav_accepts, User, Usertype};

verus! {

/// Whether `c` is a lowercase hexadecimal digit.
pub open spec fn is_lower_hex(c: char) -> bool {
    ('0' <= c <= '9') || ('a' <= c <= 'f')
}

/// Whether `s` is a UUID in hyphenated form: 32 lowercase hexadecimal digits in groups of
/// 8, 4, 4, 4 and 12, joined by hyphens.
pub open spec fn is_hyphenated_uuid(s: Seq<char>) -> bool {
    &&& s.len() == 36
    &&& forall|i: int|
        0 <= i < 36 ==> if i == 8 || i == 13 || i == 18 || i == 23 {
            #[trigger] s[i] == '-'
        } else {
            is_lower_hex(s[i])
        }
}

/// Calls `uuid::Uuid::new_v4` and writes the random UUID in hyphenated form. The value is
/// random; what holds of every outcome is the form the `uuid` crate writes: 36 characters,
/// lowercase hexadecimal digits with hyphens at positions 8, 13, 18 and 23, and the
/// version digit `4` at position 14.
#[verifier::external_body]
fn new_session_token() -> (t: String)
    ensures
        is_hyphenated_uuid(t@),
        t@[14] == '4',
{
    uuid::Uuid::new_v4().hyphenated().to_string()
}

/// The statements that create the tables of users, logs and settings.
pub fn initialize() -> (v: Vec<SqlStatement>)
    ensures
        v@.len() == 3,
        statement_is(v@[0], create_table_text(User::table_name(), User::columns()), Seq::empty()),
        statement_is(v@[1], create_table_text(Log::table_name(), Log::columns()), Seq::empty()),
        statement_is(
            v@[2],
            create_table_text(Config::table_name(), Config::columns()),
            Seq::empty(),
        ),
{
    let mut v: Vec<SqlStatement> = Vec::new();
    v.push(<User as DbObject>::initialize());
    v.push(<Log as DbObject>::initialize());
    v.push(<Config as DbObject>::initialize());
    v
}

/// Why a login failed.
#[derive(Debug, PartialEq, Eq, Structural)]
pub enum LoginError {
    UsernameNotFound,
    PasswordIncorrect,
}

/// Why a logout failed: the token was not logged in.
#[derive(Debug, PartialEq, Eq, Structural)]
pub enum LogoutError {
    TokenUnknown,
}

impl LoginError {
    /// The text of the error, as the application reports it.
    pub fn message(&self) -> (s: &'static str)
        ensures
            *self == LoginError::UsernameNotFound ==> s@ == "Username not found"@,
            *self == LoginError::PasswordIncorrect ==> s@ == "Password incorrect"@,
    {
        match self {
            LoginError::UsernameNotFound => "Username not found",
            LoginError::PasswordIncorrect => "Password incorrect",
        }
    }
}

impl LogoutError {
    /// The text of the error, as the application reports it.
    pub fn message(&self) -> (s: &'static str)
        ensures
            s@ == "Error aquiring lock"@,
    {
        "Error aquiring lock"
    }
}

/// Why a card could not unlock the laser.
#[derive(Debug, PartialEq, Eq, Structural)]
pub enum LaserError {
    /// Someone holds the laser already.
    AlreadyInUse,
    /// No user has the presented card.
    UserNotInDb,
}

impl LaserError {
    /// The text of the error, as the application reports it.
    pub fn message(&self) -> (s: &'static str)
        ensures
            *self == LaserError::AlreadyInUse ==> s@ == "Laser already in use"@,
            *self == LaserError::UserNotInDb ==> s@ == "User not in db"@,
    {
        match self {
            LaserError::AlreadyInUse => "Laser already in use",
            LaserError::UserNotInDb => "User not in db",
        }
    }
}

/// The reply to a card that unlocked the laser.
pub fn unlocked_message() -> (s: &'static str)
    ensures
        s@ == "Laser unlocked"@,
{
    "Laser unlocked"
}

/// The state of the application: the database, the logged-in sessions (token to user id
/// and role), the user that currently holds the laser with the log of that use, and the
/// last card hash that was presented.
pub struct Persistance {
    p: Persistence,
    tokens: StringHashMap<(i64, Usertype)>,
    current_user: Option<User>,
    current_log: Option<Log>,
    last_hash: String,
}

/// What the application state holds: the storage of the database it works on, the
/// sessions, the holder of the laser with the log of the use, and the last card hash.
pub struct PersistanceView {
    pub database: Persistence,
    pub tokens: Map<Seq<char>, (i64, Usertype)>,
    pub current_user: Option<User>,
    pub current_log: Option<Log>,
    pub last_hash: Seq<char>,
}

impl View for Persistance {
    type V = PersistanceView;

    closed spec fn view(&self) -> PersistanceView {
        PersistanceView {
            database: self.p,
            tokens: self.tokens@,
            current_user: self.current_user,
            current_log: self.current_log,
            last_hash: self.last_hash@,
        }
    }
}

/// The role of the session with this token, if it is logged in.
pub open spec fn token_role(v: PersistanceView, token: Seq<char>) -> Option<Usertype> {
    if v.tokens.contains_key(token) {
        Some(v.tokens[token].1)
    } else {
        None
    }
}

/// The user id of the session with this token, if it is logged in.
pub open spec fn token_user_id(v: PersistanceView, token: Seq<char>) -> Option<i64> {
    if v.tokens.contains_key(token) {
        Some(v.tokens[token].0)
    } else {
        None
    }
}

/// The state after a session with this token logs in as the given user and role.
pub open spec fn logged_in(v: PersistanceView, token: Seq<char>, id: i64, role: Usertype) -> PersistanceView {
    PersistanceView { tokens: v.tokens.insert(token, (id, role)), ..v }
}

/// The state after the session with this token logs out.
pub open spec fn logged_out(v: PersistanceView, token: Seq<char>) -> PersistanceView {
    PersistanceView { tokens: v.tokens.remove(token), ..v }
}

/// The state with another user holding the laser (or none).
pub open spec fn with_current_user(v: PersistanceView, u: Option<User>) -> PersistanceView {
    PersistanceView { current_user: u, ..v }
}

/// The state with another log of the current use (or none).
pub open spec fn with_current_log(v: PersistanceView, l: Option<Log>) -> PersistanceView {
    PersistanceView { current_log: l, ..v }
}

/// The state with another last card hash.
pub open spec fn with_last_hash(v: PersistanceView, h: Seq<char>) -> PersistanceView {
    PersistanceView { last_hash: h, ..v }
}

/// The state with `u` holding the laser and `l` the log of that use.
pub open spec fn in_use_by(v: PersistanceView, u: User, l: Log) -> PersistanceView {
    PersistanceView { current_user: Some(u), current_log: Some(l), ..v }
}

/// The state with the laser released: no user holds it and there is no log of a use.
pub open spec fn released(v: PersistanceView) -> PersistanceView {
    PersistanceView { current_user: None, current_log: None, ..v }
}

/// The log `l` once it is stored under `id` (nothing, when there is no log).
pub open spec fn log_with_id(l: Option<Log>, id: i64) -> Option<Log> {
    match l {
        Some(cur) => Some(Log { id: Some(id), ..cur }),
        None => None,
    }
}

/// The log of a use of the laser that `u` starts at `now`, before it is stored.
pub open spec fn opened_log(u: User, now: i64) -> Log {
    Log {
        id: None,
        user_email: u.email,
        entry: u.current_project,
        timestamp_start: now,
        timestamp_end: 0,
    }
}

/// A change of the application state, as one of its methods makes it.
pub enum StateChange {
    /// A session logs in with this token, user id and role.
    LogIn { token: Seq<char>, id: i64, role: Usertype },
    /// The session with this token logs out.
    LogOut { token: Seq<char> },
    /// Another user (or none) holds the laser.
    SetUser { user: Option<User> },
    /// Another log (or none) of the current use.
    SetLog { log: Option<Log> },
    /// A card with this hash was presented.
    SetHash { hash: Seq<char> },
    /// A user starts using the laser, with this log.
    StartUse { holder: User, opened: Log },
    /// The log of the current use was stored under this id.
    LogSaved { id: i64 },
    /// The laser is released.
    Release,
}

/// The state after one change.
pub open spec fn apply(v: PersistanceView, e: StateChange) -> PersistanceView {
    match e {
        StateChange::LogIn { token, id, role } => logged_in(v, token, id, role),
        StateChange::LogOut { token } => logged_out(v, token),
        StateChange::SetUser { user } => with_current_user(v, user),
        StateChange::SetLog { log } => with_current_log(v, log),
        StateChange::SetHash { hash } => with_last_hash(v, hash),
        StateChange::StartUse { holder, opened } => in_use_by(v, holder, opened),
        StateChange::LogSaved { id } => with_current_log(v, log_with_id(v.current_log, id)),
        StateChange::Release => released(v),
    }
}

/// The state after a sequence of changes, in order.
pub open spec fn apply_all(v: PersistanceView, es: Seq<StateChange>) -> PersistanceView
    decreases es.len(),
{
    if es.len() == 0 {
        v
    } else {
        apply(apply_all(v, es.drop_last()), es.last())
    }
}

/// Whether the change logs the session with this token in or out.
pub open spec fn touches_session(e: StateChange, token: Seq<char>) -> bool {
    match e {
        StateChange::LogIn { token: t, .. } => t == token,
        StateChange::LogOut { token: t } => t == token,
        _ => false,
    }
}

/// Whether nobody holds the laser, so that a presented card is looked up.
pub open spec fn laser_free(v: PersistanceView) -> bool {
    v.current_user is None
}

/// The query for the user with the given card hash.
pub open spec fn card_hash_query(card_hash: String) -> QueryView {
    QueryView {
        constraints: seq![("card_hash"@, SqlValue::Text(card_hash))],
        ..empty_query()
    }
}

/// A query with the single constraint `column = text` and nothing else.
pub open spec fn is_text_lookup(q: QueryView, column: Seq<char>, text: Seq<char>) -> bool {
    &&& q.constraints.len() == 1
    &&& q.constraints[0].0 == column
    &&& q.constraints[0].1 matches SqlValue::Text(t) && t@ == text
    &&& q.limit is None
    &&& q.order.len() == 0
    &&& q.group.len() == 0
}

/// The query for the user with the given id.
pub open spec fn user_id_query(id: i64) -> QueryView {
    QueryView { constraints: seq![("id"@, SqlValue::Integer(id))], ..empty_query() }
}

/// What finishing a use of the laser does.
pub enum LockStep {
    /// Nobody holds the laser: nothing changes.
    NotInUse,
    /// The holder's log, if there is one, ends now and is saved; then the user and the
    /// log are cleared.
    Release(Option<Log>),
}

impl LockStep {
    /// The reply to the request to lock the laser.
    pub fn reply(&self) -> (s: &'static str)
        ensures
            self is Release ==> s@ == "Laser locked"@,
            self is NotInUse ==> s@ == "Laser already in use"@,
    {
        match self {
            LockStep::Release(_) => "Laser locked",
            LockStep::NotInUse => "Laser already in use",
        }
    }
}

impl Persistance {
    /// The state of a freshly started application on the given database: no sessions, the
    /// laser free, no card hash seen.
    pub fn new(p: Persistence) -> (s: Persistance)
        ensures
            s@.database == p,
            s@.tokens == Map::<Seq<char>, (i64, Usertype)>::empty(),
            s@.current_user is None,
            s@.current_log is None,
            s@.last_hash == Seq::<char>::empty(),
    {
        Persistance {
            p,
            tokens: StringHashMap::new(),
            current_user: None,
            current_log: None,
            last_hash: String::new(),
        }
    }

    /// The log of the current use of the laser.
    pub fn get_current_log(&self) -> (l: Option<Log>)
        ensures
            l == self@.current_log,
    {
        match &self.current_log {
            Some(l) => Some(l.clone()),
            None => None,
        }
    }

    /// Replaces the log of the current use of the laser.
    pub fn set_current_log(&mut self, new_log: Option<Log>)
        ensures
            final(self)@ == apply(old(self)@, StateChange::SetLog { log: new_log }),
    {
        self.current_log = new_log;
    }

    /// The user that holds the laser.
    pub fn get_current_user(&self) -> (u: Option<User>)
        ensures
            u == self@.current_user,
    {
        match &self.current_user {
            Some(u) => Some(u.clone()),
            None => None,
        }
    }

    /// Replaces the user that holds the laser.
    pub fn set_current_user(&mut self, new_user: Option<User>)
        ensures
            final(self)@ == apply(old(self)@, StateChange::SetUser { user: new_user }),
    {
        self.current_user = new_user;
    }

    /// The last card hash that was presented.
    pub fn get_last_hash(&self) -> (h: String)
        ensures
            h@ == self@.last_hash,
    {
        self.last_hash.clone()
    }

    /// Replaces the last card hash.
    pub fn set_last_hash(&mut self, new_hash: String)
        ensures
            final(self)@ == apply(old(self)@, StateChange::SetHash { hash: new_hash@ }),
    {
        self.last_hash = new_hash;
    }

    /// The connection to the database.
    pub fn get_conn(&self) -> (r: Result<&Connection, PersistenceError>)
        ensures
            r is Ok <==> self@.database.is_initialized(),
            r is Err ==> r matches Err(PersistenceError::NotInitialized),
            r matches Ok(c) ==> *c == self@.database.connection(),
    {
        self.p.get_connection()
    }

    /// The role of the session with this token, if it is logged in.
    pub fn get_user_role(&self, token: &str) -> (r: Option<Usertype>)
        ensures
            r == token_role(self@, token@),
    {
        match self.tokens.get(token) {
            Some(entry) => Some(entry.1),
            None => None,
        }
    }

    /// The user id of the session with this token, if it is logged in.
    pub fn get_user_id(&self, token: &str) -> (r: Option<i64>)
        ensures
            r == token_user_id(self@, token@),
    {
        match self.tokens.get(token) {
            Some(entry) => Some(entry.0),
            None => None,
        }
    }

    /// The query that finds the user logging in by email.
    pub fn login_query(email: &str) -> (q: Query<User>)
        ensures
            is_text_lookup(q@, "email"@, email@),
    {
        User::query().Where("email", SqlValue::Text(email.to_string()))
    }

    /// Logs in the user that the login query found. `webdav_status` is the HTTP status of
    /// the webdav server's answer to a request with the user's email and the entered
    /// password (`None`: the request failed). When the server accepted, a new random session
    /// token is returned and maps to the user's id and role; otherwise nothing changes.
    pub fn log_in(&mut self, found: Option<User>, webdav_status: Option<u16>) -> (r: Result<
        String,
        LoginError,
    >)
        requires
            webdav_accepts(webdav_status) ==> (found matches Some(u) ==> u.id is Some
                && usertype_named(u.usertype@) is Some),
        ensures
            match found {
                None => r == Err::<String, LoginError>(LoginError::UsernameNotFound)
                    && final(self)@ == old(self)@,
                Some(u) => if webdav_accepts(webdav_status) {
                    r matches Ok(t) && is_hyphenated_uuid(t@) && t@[14] == '4' && final(self)@
                        == apply(
                        old(self)@,
                        StateChange::LogIn {
                            token: t@,
                            id: u.id.unwrap(),
                            role: usertype_named(u.usertype@).unwrap(),
                        },
                    )
                } else {
                    r == Err::<String, LoginError>(LoginError::PasswordIncorrect)
                        && final(self)@ == old(self)@
                },
            },
    {
        match found {
            None => Err(LoginError::UsernameNotFound),
            Some(u) => {
                if u.verify(webdav_status) {
                    let token = new_session_token();
                    let id = u.id.unwrap();
                    let role = Usertype::from_str(u.usertype.as_str());
                    self.tokens.insert(token.clone(), (id, role));
                    Ok(token)
                } else {
                    Err(LoginError::PasswordIncorrect)
                }
            },
        }
    }

    /// Logs out the session with this token; fails when it is not logged in.
    pub fn log_out(&mut self, token: &str) -> (r: Result<(), LogoutError>)
        ensures
            r is Ok <==> old(self)@.tokens.contains_key(token@),
            final(self)@ == apply(old(self)@, StateChange::LogOut { token: token@ }),
    {
        let present = self.tokens.contains_key(token);
        self.tokens.remove(token);
        if present {
            Ok(())
        } else {
            Err(LogoutError::TokenUnknown)
        }
    }

    /// A card is presented to unlock the laser. Its hash is recorded; when nobody holds the
    /// laser, the query for the card's user is returned, else `AlreadyInUse`.
    pub fn unlock(&mut self, card_hash: String) -> (r: Result<Query<User>, LaserError>)
        ensures
            final(self)@ == apply(old(self)@, StateChange::SetHash { hash: card_hash@ }),
            r is Ok <==> laser_free(old(self)@),
            r matches Ok(q) ==> q@ == card_hash_query(card_hash),
            r matches Err(e) ==> e == LaserError::AlreadyInUse,
    {
        let lookup = card_hash.clone();
        self.last_hash = card_hash;
        if self.current_user.is_none() {
            Ok(User::query().Where("card_hash", SqlValue::Text(lookup)))
        } else {
            Err(LaserError::AlreadyInUse)
        }
    }

    /// The card's user, as the query of `unlock` found it, starts using the laser at `now`:
    /// the user holds the laser and a new log of the use is opened and returned, to be
    /// stored. Without a user nothing changes (`UserNotInDb`); nor does anything when
    /// someone holds the laser already (`AlreadyInUse`).
    pub fn start_use(&mut self, found: Option<User>, now: i64) -> (r: Result<Log, LaserError>)
        ensures
            !laser_free(old(self)@) ==> (r matches Err(e) && e == LaserError::AlreadyInUse
                && final(self)@ == old(self)@),
            laser_free(old(self)@) ==> match found {
                None => r matches Err(e) && e == LaserError::UserNotInDb && final(self)@
                    == old(self)@,
                Some(u) => r matches Ok(l) && l == opened_log(u, now) && final(self)@ == apply(
                    old(self)@,
                    StateChange::StartUse { holder: u, opened: l },
                ),
            },
    {
        if self.current_user.is_some() {
            return Err(LaserError::AlreadyInUse);
        }
        match found {
            None => Err(LaserError::UserNotInDb),
            Some(u) => {
                let l = Log::opened_by(&u, now);
                self.current_user = Some(u);
                self.current_log = Some(l.clone());
                Ok(l)
            },
        }
    }

    /// The log of the current use was stored under `id`; the state keeps that id.
    pub fn log_saved(&mut self, id: i64)
        ensures
            final(self)@ == apply(old(self)@, StateChange::LogSaved { id }),
    {
        match &mut self.current_log {
            Some(l) => {
                l.id = Some(id);
            },
            None => {},
        }
    }

    /// Releases the laser after `lock`: nobody holds it and there is no log of a use.
    pub fn release(&mut self)
        ensures
            final(self)@ == apply(old(self)@, StateChange::Release),
    {
        self.current_user = None;
        self.current_log = None;
    }

    /// The laser is locked at time `now`: when someone holds it, their log ends now.
    pub fn lock(&self, now: i64) -> (step: LockStep)
        ensures
            laser_free(self@) ==> step is NotInUse,
            !laser_free(self@) ==> (step matches LockStep::Release(l) && match self@.current_log {
                Some(cur) => l == Some(Log { timestamp_end: now, ..cur }),
                None => l is None,
            }),
    {
        if self.current_user.is_some() {
            match &self.current_log {
                Some(cur) => {
                    let mut finished = cur.clone();
                    finished.timestamp_end = now;
                    LockStep::Release(Some(finished))
                },
                None => LockStep::Release(None),
            }
        } else {
            LockStep::NotInUse
        }
    }
}

/// A session that logs in can be looked up by its token: the role and id it logged in
/// with, and no other token's session changes.
pub proof fn lemma_log_in_then_lookup(
    v: PersistanceView,
    token: Seq<char>,
    other: Seq<char>,
    id: i64,
    role: Usertype,
)
    requires
        other != token,
    ensures
        token_role(logged_in(v, token, id, role), token) == Some(role),
        token_user_id(logged_in(v, token, id, role), token) == Some(id),
        token_role(logged_in(v, token, id, role), other) == token_role(v, other),
        token_user_id(logged_in(v, token, id, role), other) == token_user_id(v, other),
{
}

/// A session that logs out is gone, no other token's session changes, and a second logout
/// of the same token fails.
pub proof fn lemma_log_out_then_lookup(v: PersistanceView, token: Seq<char>, other: Seq<char>)
    requires
        other != token,
    ensures
        token_role(logged_out(v, token), token) is None,
        token_user_id(logged_out(v, token), token) is None,
        !logged_out(v, token).tokens.contains_key(token),
        token_role(logged_out(v, token), other) == token_role(v, other),
        token_user_id(logged_out(v, token), other) == token_user_id(v, other),
{
}

/// Logging in and then out again with a fresh token leaves the sessions as they were.
pub proof fn lemma_log_in_out_round_trip(v: PersistanceView, token: Seq<char>, id: i64, role: Usertype)
    requires
        !v.tokens.contains_key(token),
    ensures
        logged_out(logged_in(v, token, id, role), token) == v,
{
    assert(logged_out(logged_in(v, token, id, role), token).tokens =~= v.tokens);
}

/// A session keeps its role and user id through every change that does not log that
/// token in or out: what the lookup by token gives stays as it was.
pub proof fn lemma_session_unchanged(v: PersistanceView, token: Seq<char>, es: Seq<StateChange>)
    requires
        forall|i: int| 0 <= i < es.len() ==> !touches_session(#[trigger] es[i], token),
    ensures
        token_role(apply_all(v, es), token) == token_role(v, token),
        token_user_id(apply_all(v, es), token) == token_user_id(v, token),
    decreases es.len(),
{
    if es.len() > 0 {
        let rest = es.drop_last();
        assert forall|i: int| 0 <= i < rest.len() implies !touches_session(
            #[trigger] rest[i],
            token,
        ) by {
            assert(rest[i] == es[i]);
        }
        lemma_session_unchanged(v, token, rest);
        assert(!touches_session(es[es.len() - 1], token));
    }
}

/// A session that logged in keeps the role and the user id it logged in with until its
/// token logs out (or logs in again), whatever else happens meanwhile.
pub proof fn lemma_logged_in_session_persists(
    v: PersistanceView,
    token: Seq<char>,
    id: i64,
    role: Usertype,
    es: Seq<StateChange>,
)
    requires
        forall|i: int| 0 <= i < es.len() ==> !touches_session(#[trigger] es[i], token),
    ensures
        token_role(apply_all(apply(v, StateChange::LogIn { token, id, role }), es), token)
            == Some(role),
        token_user_id(apply_all(apply(v, StateChange::LogIn { token, id, role }), es), token)
            == Some(id),
{
    lemma_session_unchanged(apply(v, StateChange::LogIn { token, id, role }), token, es);
}

/// A token that logged out has no session until it logs in again: its role and user id
/// stay unknown.
pub proof fn lemma_logged_out_session_stays_gone(
    v: PersistanceView,
    token: Seq<char>,
    es: Seq<StateChange>,
)
    requires
        forall|i: int| 0 <= i < es.len() ==> !touches_session(#[trigger] es[i], token),
    ensures
        token_role(apply_all(apply(v, StateChange::LogOut { token }), es), token) is None,
        token_user_id(apply_all(apply(v, StateChange::LogOut { token }), es), token) is None,
{
    lemma_session_unchanged(apply(v, StateChange::LogOut { token }), token, es);
}

/// The last card hash is the one most recently presented: after a hash is set, every
/// later change that sets no other hash keeps it.
pub proof fn lemma_last_hash_persists(v: PersistanceView, hash: Seq<char>, es: Seq<StateChange>)
    requires
        forall|i: int| 0 <= i < es.len() ==> !(#[trigger] es[i] is SetHash),
    ensures
        apply_all(apply(v, StateChange::SetHash { hash }), es).last_hash == hash,
    decreases es.len(),
{
    if es.len() > 0 {
        let rest = es.drop_last();
        assert forall|i: int| 0 <= i < rest.len() implies !(#[trigger] rest[i] is SetHash) by {
            assert(rest[i] == es[i]);
        }
        lemma_last_hash_persists(v, hash, rest);
        assert(!(es[es.len() - 1] is SetHash));
    }
}

/// No change of the application state touches its database: whatever sequence of calls
/// is made, the state works on the database it was built with, and its connection is the
/// one every later lookup gives.
pub proof fn lemma_database_unchanged(v: PersistanceView, es: Seq<StateChange>)
    ensures
        apply_all(v, es).database == v.database,
    decreases es.len(),
{
    if es.len() > 0 {
        lemma_database_unchanged(v, es.drop_last());
    }
}

/// The laser is held by at most one user: once a use starts, it lasts through every change
/// that neither releases the laser nor sets its user, so no other card can start a use;
/// after a release the laser is free again, with no log of a use.
pub proof fn lemma_laser_exclusive(v: PersistanceView, u: User, l: Log, es: Seq<StateChange>)
    requires
        forall|i: int|
            0 <= i < es.len() ==> !(#[trigger] es[i] is Release) && !(es[i] is SetUser),
    ensures
        !laser_free(apply_all(apply(v, StateChange::StartUse { holder: u, opened: l }), es)),
        laser_free(apply(v, StateChange::Release)),
        apply(v, StateChange::Release).current_log is None,
    decreases es.len(),
{
    if es.len() > 0 {
        let rest = es.drop_last();
        assert forall|i: int| 0 <= i < rest.len() implies !(#[trigger] rest[i] is Release)
            && !(rest[i] is SetUser) by {
            assert(rest[i] == es[i]);
        }
        lemma_laser_exclusive(v, u, l, rest);
        assert(!(es[es.len() - 1] is Release) && !(es[es.len() - 1] is SetUser));
    }
}

} // verus!
