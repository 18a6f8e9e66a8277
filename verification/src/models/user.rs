use vstd::prelude::*;
use vstd::string::StringExecFns;
use vstd::utf8::encode_utf8;

use crate::clock::epoch_seconds;
use crate::errors::auth;
use crate::errors::internal_server;
use crate::errors::Error;
use crate::ident::{uuid_text, write_uuid};
use crate::json::{
    decimal, decimal_digits, json_records, json_string_literal, lookup, member_number,
    member_text, parse_records, quote, record_view, records_view, signed_decimal,
    signed_decimal_digits, Member, MemberView,
};
use crate::password::{argon2_encoded, hash_password, password_matches};
use crate::token::{access_token, fresh_token, is_session_token, jwt_hs256};
use crate::useragent::{labels_of, parsed_agent, read_agent};

verus! {

/// Seconds for which a session stays valid: one day.
pub const SESSION_LIFE: u64 = 86400;

/// Seconds for which an access token stays valid: twenty minutes.
pub const ACCESS_TOKEN_LIFE: usize = 1200;

/// What a client sends to register. Nothing in it has been validated yet.
#[derive(Clone, Debug)]
pub struct UserInsert {
    pub displayname: String,
    pub username: String,
    pub email: String,
    pub password: String,
}

/// What a `UserInsert` holds, its texts as sequences of characters.
pub struct UserInsertView {
    pub displayname: Seq<char>,
    pub username: Seq<char>,
    pub email: Seq<char>,
    pub password: Seq<char>,
}

impl View for UserInsert {
    type V = UserInsertView;

    open spec fn view(&self) -> UserInsertView {
        UserInsertView {
            displayname: self.displayname@,
            username: self.username@,
            email: self.email@,
            password: self.password@,
        }
    }
}

/// What a client sends to log in.
#[derive(Clone, Debug)]
pub struct UserLogin {
    pub username: String,
    pub email: String,
    pub password: String,
}

/// What a `UserLogin` holds, its texts as sequences of characters.
pub struct UserLoginView {
    pub username: Seq<char>,
    pub email: Seq<char>,
    pub password: Seq<char>,
}

impl View for UserLogin {
    type V = UserLoginView;

    open spec fn view(&self) -> UserLoginView {
        UserLoginView { username: self.username@, email: self.email@, password: self.password@ }
    }
}

/// A user as stored, with the hash of the password. It never goes to a client: a
/// `UserSafe` does.
#[derive(Clone, Debug)]
pub struct User {
    /// The 128 bits of the user's UUID.
    pub id: u128,
    pub displayname: String,
    pub username: String,
    pub email: String,
    /// The encoded hash of the password.
    pub password: String,
    /// Seconds since the Unix epoch.
    pub created_at: i64,
}

/// What a `User` holds, its texts as sequences of characters.
pub struct UserView {
    pub id: u128,
    pub displayname: Seq<char>,
    pub username: Seq<char>,
    pub email: Seq<char>,
    pub password: Seq<char>,
    pub created_at: i64,
}

impl View for User {
    type V = UserView;

    open spec fn view(&self) -> UserView {
        UserView {
            id: self.id,
            displayname: self.displayname@,
            username: self.username@,
            email: self.email@,
            password: self.password@,
            created_at: self.created_at,
        }
    }
}

/// A user that is about to be stored: all of a `User` but the id, which the store gives.
#[derive(Clone, Debug)]
pub struct NewUser {
    pub displayname: String,
    pub username: String,
    pub email: String,
    /// The encoded hash of the password.
    pub password: String,
    /// Seconds since the Unix epoch.
    pub created_at: i64,
}

/// What a `NewUser` holds, its texts as sequences of characters.
pub struct NewUserView {
    pub displayname: Seq<char>,
    pub username: Seq<char>,
    pub email: Seq<char>,
    pub password: Seq<char>,
    pub created_at: i64,
}

impl View for NewUser {
    type V = NewUserView;

    open spec fn view(&self) -> NewUserView {
        NewUserView {
            displayname: self.displayname@,
            username: self.username@,
            email: self.email@,
            password: self.password@,
            created_at: self.created_at,
        }
    }
}

/// Why the store handed back no user for a username.
#[derive(Clone, Copy, Debug, PartialEq, Eq, Structural)]
pub enum LookupFailure {
    /// No user goes by that username.
    RowNotFound,
    /// The store failed in any other way.
    Other,
}

impl User {
    /// The row that is stored for a registration whose password hashed to `hash`, at the
    /// time `now`.
    pub open spec fn row_of(ins: UserInsertView, hash: Seq<char>, now: u64) -> NewUserView {
        NewUserView {
            displayname: ins.displayname,
            username: ins.username,
            email: ins.email,
            password: hash,
            created_at: now as i64,
        }
    }

    /// Puts together the row for a registration from the hash of its password and the
    /// time: there is a row exactly when the time fits the row's signed seconds.
    pub fn row(ins: UserInsert, hash: String, now: u64) -> (row: Option<NewUser>)
        ensures
            match row {
                Some(r) => now <= i64::MAX && r@ == Self::row_of(ins@, hash@, now),
                None => now > i64::MAX,
            },
    {
        if now > 9223372036854775807u64 {
            return None;
        }
        Some(
            NewUser {
                displayname: ins.displayname,
                username: ins.username,
                email: ins.email,
                password: hash,
                created_at: now as i64,
            },
        )
    }

    /// The row that goes to the store for a registration at the time that the clock gave,
    /// if it gave one: the payload with the hash of its password, made with the secret for
    /// salt, and the time. There is none where the hasher gives no hash, the clock no time,
    /// or the time does not fit the row.
    pub open spec fn prepared(
        secret: Seq<char>,
        ins: UserInsertView,
        now: Option<u64>,
    ) -> Option<NewUserView> {
        match (argon2_encoded(encode_utf8(ins.password), encode_utf8(secret)), now) {
            (Some(hash), Some(time)) => if time <= i64::MAX {
                Some(Self::row_of(ins, hash, time))
            } else {
                None
            },
            _ => None,
        }
    }

    /// What preparing a registration owes, given what the clock gave: the row, with a
    /// hash that verifies against the password, or an internal error where there is no row.
    pub open spec fn insert_owes(
        secret: Seq<char>,
        ins: UserInsertView,
        now: Option<u64>,
        row: Result<NewUser, Error>,
    ) -> bool {
        match Self::prepared(secret, ins, now) {
            Some(view) => row matches Ok(r) && r@ == view && password_matches(
                r.password@,
                ins.password,
            ),
            None => row matches Err(e) && e.is_internal(internal_server::ErrorVariants::AuthError),
        }
    }

    /// Prepares a validated registration for the store, given what the clock gave: hashes
    /// the password, with the secret for salt, and stamps the row with the time. The hash is
    /// made here, once, and verifies against the password.
    pub fn insert_at(secret: &str, ins: UserInsert, now: Option<u64>) -> (row: Result<
        NewUser,
        Error,
    >)
        ensures
            Self::insert_owes(secret@, ins@, now, row),
    {
        let hash = match hash_password(ins.password.as_str(), secret) {
            Some(hash) => hash,
            None => {
                return Err(internal_server::ErrorVariants::AuthError.to_error());
            },
        };
        let now = match now {
            Some(now) => now,
            None => {
                return Err(internal_server::ErrorVariants::AuthError.to_error());
            },
        };
        match Self::row(ins, hash, now) {
            Some(row) => Ok(row),
            None => Err(internal_server::ErrorVariants::AuthError.to_error()),
        }
    }

    /// Prepares a validated registration for the store at the time by the system clock.
    /// Where the password cannot be hashed or the clock gives no time that fits the row,
    /// the outcome is an internal error and nothing is to be stored.
    pub fn insert(secret: &str, ins: UserInsert) -> (row: Result<NewUser, Error>)
        ensures
            exists|now: Option<u64>| Self::insert_owes(secret@, ins@, now, row),
    {
        let now = epoch_seconds();
        let row = Self::insert_at(secret, ins, now);
        assert(Self::insert_owes(secret@, ins@, now, row));
        row
    }

    /// Settles what a lookup by username came to: the user where the store found one, an
    /// authentication error where no user goes by the name, and the internal error of the
    /// store, which says no more than that, where the store failed otherwise.
    pub fn get_by_username(found: Result<User, LookupFailure>) -> (user: Result<User, Error>)
        ensures
            match found {
                Ok(stored) => user matches Ok(u) && u == stored,
                Err(LookupFailure::RowNotFound) => user matches Err(e) && e.is_auth(
                    auth::ErrorVariants::UsernameNotFound,
                ),
                Err(LookupFailure::Other) => user matches Err(e) && e.is_internal(
                    internal_server::ErrorVariants::DBError,
                ),
            },
    {
        match found {
            Ok(stored) => Ok(stored),
            Err(LookupFailure::RowNotFound) => Err(auth::ErrorVariants::UsernameNotFound.to_error()),
            Err(LookupFailure::Other) => Err(internal_server::ErrorVariants::DBError.to_error()),
        }
    }
}

/// A user without the hash of the password: the only form in which a user goes to a
/// client.
#[derive(Clone, Debug)]
pub struct UserSafe {
    /// The 128 bits of the user's UUID.
    pub id: u128,
    pub displayname: String,
    pub username: String,
    pub email: String,
    /// Seconds since the Unix epoch.
    pub created_at: i64,
}

/// What a `UserSafe` holds, its texts as sequences of characters.
pub struct UserSafeView {
    pub id: u128,
    pub displayname: Seq<char>,
    pub username: Seq<char>,
    pub email: Seq<char>,
    pub created_at: i64,
}

impl View for UserSafe {
    type V = UserSafeView;

    open spec fn view(&self) -> UserSafeView {
        UserSafeView {
            id: self.id,
            displayname: self.displayname@,
            username: self.username@,
            email: self.email@,
            created_at: self.created_at,
        }
    }
}

impl UserSafe {
    /// The user as a JSON object. It has no member for a password.
    pub open spec fn json_text(user: UserSafeView) -> Seq<char> {
        "{\"id\":"@ + json_string_literal(uuid_text(user.id)) + ",\"displayname\":"@
            + json_string_literal(user.displayname) + ",\"username\":"@ + json_string_literal(
            user.username,
        ) + ",\"email\":"@ + json_string_literal(user.email) + ",\"created_at\":"@
            + signed_decimal_digits(user.created_at as int) + "}"@
    }

    /// Writes the user as a JSON object.
    pub fn to_json(&self) -> (text: String)
        ensures
            text@ == Self::json_text(self@),
    {
        let mut text = String::from_str("{\"id\":");
        text.append(quote(write_uuid(self.id).as_str()).as_str());
        text.append(",\"displayname\":");
        text.append(quote(self.displayname.as_str()).as_str());
        text.append(",\"username\":");
        text.append(quote(self.username.as_str()).as_str());
        text.append(",\"email\":");
        text.append(quote(self.email.as_str()).as_str());
        text.append(",\"created_at\":");
        text.append(signed_decimal(self.created_at).as_str());
        text.append("}");
        text
    }
}

/// One session of a user: the opaque token that the client holds, what is known of the
/// client, and when the session ends. A session is never extended: a renewed one is a new
/// session.
#[derive(Clone, Debug)]
pub struct UserSession {
    /// The 128 bits of the owner's UUID. It is not part of the session as stored: the
    /// store files a session under its owner.
    pub id: u128,
    pub token: String,
    pub os: String,
    pub browser: String,
    /// Seconds since the Unix epoch.
    pub expiry: u64,
}

/// What a `UserSession` holds, its texts as sequences of characters.
pub struct UserSessionView {
    pub id: u128,
    pub token: Seq<char>,
    pub os: Seq<char>,
    pub browser: Seq<char>,
    pub expiry: u64,
}

impl View for UserSession {
    type V = UserSessionView;

    open spec fn view(&self) -> UserSessionView {
        UserSessionView {
            id: self.id,
            token: self.token@,
            os: self.os@,
            browser: self.browser@,
            expiry: self.expiry,
        }
    }
}

/// The views of a list of sessions.
pub open spec fn session_views(sessions: Seq<UserSession>) -> Seq<UserSessionView> {
    sessions.map_values(|session: UserSession| session@)
}

/// The sessions of a list as JSON objects with commas between them.
pub open spec fn sessions_json_items(sessions: Seq<UserSessionView>) -> Seq<char>
    decreases sessions.len(),
{
    if sessions.len() == 0 {
        Seq::empty()
    } else if sessions.len() == 1 {
        UserSession::json_text(sessions[0])
    } else {
        sessions_json_items(sessions.drop_last()) + ","@ + UserSession::json_text(sessions.last())
    }
}

/// A list of sessions as a JSON array, in the order of the list.
pub open spec fn sessions_json(sessions: Seq<UserSessionView>) -> Seq<char> {
    "["@ + sessions_json_items(sessions) + "]"@
}

/// The session that a record stands for, filed under the user `id`: the record names a
/// token, an operating system and a browser as strings, and an expiry as a whole number.
/// Other members are passed over.
pub open spec fn session_of_record(id: u128, record: Seq<MemberView>) -> Option<UserSessionView> {
    match (
        member_text(record, "token"@),
        member_text(record, "os"@),
        member_text(record, "browser"@),
        member_number(record, "expiry"@),
    ) {
        (Some(token), Some(os), Some(browser), Some(expiry)) => Some(
            UserSessionView { id, token, os, browser, expiry },
        ),
        _ => None,
    }
}

/// The sessions that a sequence of records stands for, in their order: `None` where one of
/// the records is no session.
pub open spec fn sessions_of_records(id: u128, records: Seq<Seq<MemberView>>) -> Option<
    Seq<UserSessionView>,
>
    decreases records.len(),
{
    if records.len() == 0 {
        Some(Seq::empty())
    } else {
        match (
            sessions_of_records(id, records.drop_last()),
            session_of_record(id, records.last()),
        ) {
            (Some(sessions), Some(session)) => Some(sessions.push(session)),
            _ => None,
        }
    }
}

/// The sessions of the user `id` that the store holds, given what it has under the user's
/// key: none where it has nothing, else what the text stands for, and `None` where the text
/// is no list of sessions.
pub open spec fn stored_sessions(id: u128, stored: Option<Seq<char>>) -> Option<
    Seq<UserSessionView>,
> {
    match stored {
        None => Some(Seq::empty()),
        Some(text) => match json_records(text) {
            Some(records) => sessions_of_records(id, records),
            None => None,
        },
    }
}

/// No two sessions of the list have the same token.
pub open spec fn tokens_distinct(sessions: Seq<UserSessionView>) -> bool {
    forall|i: int, j: int|
        0 <= i < j < sessions.len() ==> sessions[i].token != sessions[j].token
}

/// The list holds a session with this token.
pub open spec fn holds_token(sessions: Seq<UserSessionView>, token: Seq<char>) -> bool {
    exists|i: int| 0 <= i < sessions.len() && sessions[i].token == token
}

/// The list with the session in it: the session goes to the end of the list, and a list
/// that already holds the session's token stays as it is, so that no token comes to stand
/// in a list twice.
pub open spec fn with_session(
    before: Seq<UserSessionView>,
    session: UserSessionView,
) -> Seq<UserSessionView> {
    if holds_token(before, session.token) {
        before
    } else {
        before.push(session)
    }
}

/// Whether the list holds a session with this token.
pub fn has_token(sessions: &Vec<UserSession>, token: &str) -> (held: bool)
    ensures
        held == holds_token(session_views(sessions@), token@),
{
    let ghost views = session_views(sessions@);
    let mut at: usize = 0;
    while at < sessions.len()
        invariant
            at <= sessions.len(),
            views == session_views(sessions@),
            forall|i: int| 0 <= i < at ==> views[i].token != token@,
        decreases sessions.len() - at,
    {
        assert(views[at as int] == sessions@[at as int]@);
        if sessions[at].token.as_str().eq(token) {
            return true;
        }
        at += 1;
    }
    false
}

/// The key under which the store keeps the sessions of the user `id`.
pub open spec fn session_key_text(id: u128) -> Seq<char> {
    "sessions:"@ + uuid_text(id)
}

/// Writes the key under which the store keeps the sessions of the user `id`.
pub fn session_key(id: u128) -> (key: String)
    ensures
        key@ == session_key_text(id),
{
    String::from_str("sessions:").concat(write_uuid(id).as_str())
}

/// Reads a session of the user `id` out of a record.
pub fn session_from_record(id: u128, record: &Vec<Member>) -> (session: Option<UserSession>)
    ensures
        match session_of_record(id, record_view(record@)) {
            Some(view) => session matches Some(s) && s@ == view,
            None => session is None,
        },
{
    let token = match lookup(record, "token") {
        Some(member) => match &member.1 {
            Some(text) => text.clone(),
            None => {
                return None;
            },
        },
        None => {
            return None;
        },
    };
    let os = match lookup(record, "os") {
        Some(member) => match &member.1 {
            Some(text) => text.clone(),
            None => {
                return None;
            },
        },
        None => {
            return None;
        },
    };
    let browser = match lookup(record, "browser") {
        Some(member) => match &member.1 {
            Some(text) => text.clone(),
            None => {
                return None;
            },
        },
        None => {
            return None;
        },
    };
    let expiry = match lookup(record, "expiry") {
        Some(member) => match member.2 {
            Some(number) => number,
            None => {
                return None;
            },
        },
        None => {
            return None;
        },
    };
    Some(UserSession { id, token, os, browser, expiry })
}

/// Reads the sessions of the user `id` out of records, in their order.
pub fn sessions_from_records(id: u128, records: &Vec<Vec<Member>>) -> (sessions: Option<
    Vec<UserSession>,
>)
    ensures
        match sessions_of_records(id, records_view(records@)) {
            Some(views) => sessions matches Some(list) && session_views(list@) == views,
            None => sessions is None,
        },
{
    let ghost views = records_view(records@);
    let mut sessions: Vec<UserSession> = Vec::new();
    let mut at: usize = 0;
    assert(views.take(0) =~= Seq::empty());
    while at < records.len()
        invariant
            at <= records.len(),
            views == records_view(records@),
            sessions_of_records(id, views.take(at as int)) == Some(session_views(sessions@)),
        decreases records.len() - at,
    {
        proof {
            let upto = views.take(at + 1);
            assert(upto.drop_last() =~= views.take(at as int));
            assert(upto.last() == record_view(records@[at as int]@));
        }
        match session_from_record(id, &records[at]) {
            Some(session) => {
                let ghost before = session_views(sessions@);
                sessions.push(session);
                assert(session_views(sessions@) =~= before.push(session@));
            },
            None => {
                proof {
                    lemma_unreadable_record_spoils(id, views, at as int);
                }
                return None;
            },
        }
        at += 1;
    }
    assert(views.take(at as int) =~= views);
    Some(sessions)
}

/// Where the sessions of the first records cannot be read, those of all cannot.
proof fn lemma_unreadable_record_spoils(id: u128, records: Seq<Seq<MemberView>>, at: int)
    requires
        0 <= at < records.len(),
        sessions_of_records(id, records.take(at + 1)) is None,
    ensures
        sessions_of_records(id, records) is None,
    decreases records.len(),
{
    if at + 1 < records.len() {
        assert(records.drop_last().take(at + 1) =~= records.take(at + 1));
        lemma_unreadable_record_spoils(id, records.drop_last(), at);
    } else {
        assert(records.take(at + 1) =~= records);
    }
}

/// Writes a list of sessions as a JSON array.
pub fn encode_sessions(sessions: &Vec<UserSession>) -> (text: String)
    ensures
        text@ == sessions_json(session_views(sessions@)),
{
    let ghost views = session_views(sessions@);
    let mut text = String::from_str("[");
    let ghost mut items: Seq<char> = Seq::empty();
    let mut at: usize = 0;
    assert(views.take(0) =~= Seq::empty());
    while at < sessions.len()
        invariant
            at <= sessions.len(),
            views == session_views(sessions@),
            items == sessions_json_items(views.take(at as int)),
            text@ == "["@ + items,
        decreases sessions.len() - at,
    {
        proof {
            let upto = views.take(at + 1);
            assert(upto.drop_last() =~= views.take(at as int));
            assert(upto.last() == sessions@[at as int]@);
            if at == 0 {
                assert(upto[0] == upto.last());
            }
        }
        if at > 0 {
            text.append(",");
            proof {
                items = items + ","@;
            }
        }
        text.append(sessions[at].to_json().as_str());
        proof {
            items = items + UserSession::json_text(sessions@[at as int]@);
        }
        at += 1;
    }
    assert(views.take(at as int) =~= views);
    text.append("]");
    text
}

/// Reads the sessions of the user `id` out of what the store has under the user's key:
/// none where it has nothing.
pub fn read_sessions(id: u128, stored: Option<&str>) -> (sessions: Option<Vec<UserSession>>)
    ensures
        match stored_sessions(
            id,
            match stored {
                Some(text) => Some(text@),
                None => None,
            },
        ) {
            Some(views) => sessions matches Some(list) && session_views(list@) == views,
            None => sessions is None,
        },
{
    match stored {
        None => {
            let sessions: Vec<UserSession> = Vec::new();
            assert(session_views(sessions@) =~= Seq::empty());
            Some(sessions)
        },
        Some(text) => match parse_records(text) {
            Some(records) => sessions_from_records(id, &records),
            None => None,
        },
    }
}

impl UserSession {
    /// The session issued to the user `id` at the time `now`, with `token` for its token
    /// and `labels` for the operating system and browser of the client. It ends one day
    /// after it was issued.
    pub open spec fn issued(
        id: u128,
        token: Seq<char>,
        labels: (Seq<char>, Seq<char>),
        now: u64,
    ) -> UserSessionView {
        UserSessionView {
            id,
            token,
            os: labels.0,
            browser: labels.1,
            expiry: (now + SESSION_LIFE) as u64,
        }
    }

    /// Puts a session together from its parts: there is a session exactly when a day can
    /// be counted from `now`.
    pub fn assemble(id: u128, token: String, labels: (String, String), now: u64) -> (session:
        Option<Self>)
        ensures
            match session {
                Some(s) => now + SESSION_LIFE <= u64::MAX && s@ == Self::issued(
                    id,
                    token@,
                    (labels.0@, labels.1@),
                    now,
                ),
                None => now + SESSION_LIFE > u64::MAX,
            },
    {
        if now > u64::MAX - SESSION_LIFE {
            return None;
        }
        Some(
            UserSession { id, token, os: labels.0, browser: labels.1, expiry: now + SESSION_LIFE },
        )
    }

    /// Issues a session to the user `id`: draws a fresh token, reads the client's operating
    /// system and browser out of its user-agent string (`Unknown` for both where the
    /// string says nothing) and sets the expiry one day from now by the system clock. Of
    /// the user-agent any string is taken. No session is issued where the clock gives no
    /// time from which a day can be counted.
    pub fn new(id: u128, useragent: &str) -> (session: Option<Self>)
        ensures
            session matches Some(s) ==> exists|token: Seq<char>, now: u64|
                is_session_token(token) && now + SESSION_LIFE <= u64::MAX && s@
                    == #[trigger] Self::issued(id, token, labels_of(parsed_agent(useragent@)), now),
    {
        let now = match epoch_seconds() {
            Some(now) => now,
            None => {
                return None;
            },
        };
        let token = fresh_token();
        let labels = read_agent(useragent);
        let session = Self::assemble(id, token, labels, now);
        assert(session matches Some(s) ==> s@ == Self::issued(
            id,
            s.token@,
            labels_of(parsed_agent(useragent@)),
            now,
        ));
        session
    }

    /// The session as the JSON object under which it is stored. The owner is not in it.
    pub open spec fn json_text(session: UserSessionView) -> Seq<char> {
        "{\"token\":"@ + json_string_literal(session.token) + ",\"os\":"@ + json_string_literal(
            session.os,
        ) + ",\"browser\":"@ + json_string_literal(session.browser) + ",\"expiry\":"@
            + decimal_digits(session.expiry as nat) + "}"@
    }

    /// Writes the session as the JSON object under which it is stored.
    pub fn to_json(&self) -> (text: String)
        ensures
            text@ == Self::json_text(self@),
    {
        let mut text = String::from_str("{\"token\":");
        text.append(quote(self.token.as_str()).as_str());
        text.append(",\"os\":");
        text.append(quote(self.os.as_str()).as_str());
        text.append(",\"browser\":");
        text.append(quote(self.browser.as_str()).as_str());
        text.append(",\"expiry\":");
        text.append(decimal(self.expiry).as_str());
        text.append("}");
        text
    }

    /// A copy of the session.
    pub fn duplicate(&self) -> (copy: Self)
        ensures
            copy@ == self@,
    {
        UserSession {
            id: self.id,
            token: self.token.clone(),
            os: self.os.clone(),
            browser: self.browser.clone(),
            expiry: self.expiry,
        }
    }

    /// Adds the session to those of its owner, given what the store has under the owner's
    /// key, and gives what the store is to hold from now on: the list of before, read in
    /// full, with this session at its end, written in full. A list that already holds the
    /// session's token is written as it was read: tokens that were distinct stay distinct.
    /// Sessions that have run out stay in the list. Nothing is to be written where what the
    /// store has cannot be read.
    pub fn set_session(&self, stored: Option<&str>) -> (written: Option<String>)
        ensures
            match stored_sessions(
                self.id,
                match stored {
                    Some(text) => Some(text@),
                    None => None,
                },
            ) {
                Some(before) => written matches Some(text) && text@ == sessions_json(
                    with_session(before, self@),
                ) && (tokens_distinct(before) ==> tokens_distinct(with_session(before, self@))),
                None => written is None,
            },
    {
        match read_sessions(self.id, stored) {
            Some(sessions) => {
                let mut sessions = sessions;
                let ghost before = session_views(sessions@);
                proof {
                    if tokens_distinct(before) {
                        lemma_with_session_keeps_tokens_distinct(before, self@);
                    }
                }
                if !has_token(&sessions, self.token.as_str()) {
                    sessions.push(self.duplicate());
                    assert(session_views(sessions@) =~= before.push(self@));
                }
                Some(encode_sessions(&sessions))
            },
            None => None,
        }
    }
}

/// What an access token says of a user: who the user is, and until when the token holds.
/// Claims are made from a stored user only, never from what a client sent.
#[derive(Clone, Debug)]
pub struct UserClaims {
    /// The 128 bits of the user's UUID.
    pub id: u128,
    pub displayname: String,
    pub username: String,
    pub email: String,
    /// Seconds since the Unix epoch.
    pub exp: usize,
}

/// What a `UserClaims` holds, its texts as sequences of characters.
pub struct UserClaimsView {
    pub id: u128,
    pub displayname: Seq<char>,
    pub username: Seq<char>,
    pub email: Seq<char>,
    pub exp: usize,
}

impl View for UserClaims {
    type V = UserClaimsView;

    open spec fn view(&self) -> UserClaimsView {
        UserClaimsView {
            id: self.id,
            displayname: self.displayname@,
            username: self.username@,
            email: self.email@,
            exp: self.exp,
        }
    }
}

impl UserClaims {
    /// The claims made of `user` at the time `now`: the user without the hash of the
    /// password, and an expiry twenty minutes on.
    pub open spec fn of_user(user: UserView, now: u64) -> UserClaimsView {
        UserClaimsView {
            id: user.id,
            displayname: user.displayname,
            username: user.username,
            email: user.email,
            exp: (now + ACCESS_TOKEN_LIFE) as usize,
        }
    }

    /// Makes the claims of a user at the time `now`: there are claims exactly when twenty
    /// minutes can be counted from `now`.
    pub fn at(user: User, now: u64) -> (claims: Option<Self>)
        ensures
            match claims {
                Some(c) => now + ACCESS_TOKEN_LIFE <= usize::MAX && c@ == Self::of_user(user@, now),
                None => now + ACCESS_TOKEN_LIFE > usize::MAX,
            },
    {
        if now > (usize::MAX - ACCESS_TOKEN_LIFE) as u64 {
            return None;
        }
        Some(
            UserClaims {
                id: user.id,
                displayname: user.displayname,
                username: user.username,
                email: user.email,
                exp: now as usize + ACCESS_TOKEN_LIFE,
            },
        )
    }

    /// Makes the claims of a user at the time by the system clock. No claims are made
    /// where the clock gives no time from which twenty minutes can be counted.
    pub fn from_user(user: User) -> (claims: Option<Self>)
        ensures
            claims matches Some(c) ==> exists|now: u64|
                now + ACCESS_TOKEN_LIFE <= usize::MAX && c@ == #[trigger] Self::of_user(
                    user@,
                    now,
                ),
    {
        let now = match epoch_seconds() {
            Some(now) => now,
            None => {
                return None;
            },
        };
        Self::at(user, now)
    }

    /// The claims as the JSON object that is signed.
    pub open spec fn json_text(claims: UserClaimsView) -> Seq<char> {
        "{\"id\":"@ + json_string_literal(uuid_text(claims.id)) + ",\"displayname\":"@
            + json_string_literal(claims.displayname) + ",\"username\":"@ + json_string_literal(
            claims.username,
        ) + ",\"email\":"@ + json_string_literal(claims.email) + ",\"exp\":"@ + decimal_digits(
            claims.exp as nat,
        ) + "}"@
    }

    /// Writes the claims as the JSON object that is signed.
    pub fn to_json(&self) -> (text: String)
        ensures
            text@ == Self::json_text(self@),
    {
        let mut text = String::from_str("{\"id\":");
        text.append(quote(write_uuid(self.id).as_str()).as_str());
        text.append(",\"displayname\":");
        text.append(quote(self.displayname.as_str()).as_str());
        text.append(",\"username\":");
        text.append(quote(self.username.as_str()).as_str());
        text.append(",\"email\":");
        text.append(quote(self.email.as_str()).as_str());
        text.append(",\"exp\":");
        text.append(decimal(self.exp as u64).as_str());
        text.append("}");
        text
    }

    /// The access token for the claims under a secret, as the signer gives it.
    pub open spec fn token_text(claims: UserClaimsView, secret: Seq<char>) -> Option<Seq<char>> {
        jwt_hs256(Self::json_text(claims), encode_utf8(secret))
    }

    /// Signs the claims with the secret: the access token. `None` where the signer gives
    /// none.
    pub fn to_token(self, secret: &str) -> (token: Option<String>)
        ensures
            token matches Some(text) ==> Self::token_text(self@, secret@) == Some(text@),
            token is None ==> Self::token_text(self@, secret@) is None,
    {
        access_token(self.to_json().as_str(), secret)
    }
}

/// The list after the sessions `added` have been put into `before` one by one, each into
/// what the one before left.
pub open spec fn appended_in_turn(
    before: Seq<UserSessionView>,
    added: Seq<UserSessionView>,
) -> Seq<UserSessionView>
    decreases added.len(),
{
    if added.len() == 0 {
        before
    } else {
        with_session(appended_in_turn(before, added.drop_last()), added.last())
    }
}

/// A list whose tokens are distinct stays so when a session is put into it.
pub proof fn lemma_with_session_keeps_tokens_distinct(
    before: Seq<UserSessionView>,
    session: UserSessionView,
)
    requires
        tokens_distinct(before),
    ensures
        tokens_distinct(with_session(before, session)),
{
    if !holds_token(before, session.token) {
        let after = before.push(session);
        assert forall|i: int, j: int| 0 <= i < j < after.len() implies after[i].token
            != after[j].token by {
            if j == before.len() {
                assert(after[i] == before[i]);
            }
        }
    }
}

/// Logins that come one after another lose no session: where no token occurs twice among
/// the sessions of before and the new ones, the list after the new ones have been put in
/// one by one holds those of before and then the new ones, in their order, so it has grown
/// by their number.
pub proof fn lemma_appends_lose_nothing(before: Seq<UserSessionView>, added: Seq<UserSessionView>)
    requires
        tokens_distinct(before + added),
    ensures
        appended_in_turn(before, added) == before + added,
        appended_in_turn(before, added).len() == before.len() + added.len(),
    decreases added.len(),
{
    let all = before + added;
    if added.len() == 0 {
        assert(all =~= before);
    } else {
        let firsts = before + added.drop_last();
        assert forall|i: int, j: int| 0 <= i < j < firsts.len() implies firsts[i].token
            != firsts[j].token by {
            assert(firsts[i] == all[i] && firsts[j] == all[j]);
        }
        lemma_appends_lose_nothing(before, added.drop_last());
        if holds_token(firsts, added.last().token) {
            let i = choose|i: int| 0 <= i < firsts.len() && firsts[i].token == added.last().token;
            assert(all[i] == firsts[i]);
            assert(all[all.len() - 1] == added.last());
        }
        assert(firsts.push(added.last()) =~= all);
    }
}

/// A write made from a reading that is no longer what the store holds would lose a
/// session: of two logins of one user that both read the list `seen`, what the later one
/// made of its reading holds the session of the later one and not that of the earlier.
pub proof fn lemma_stale_reading_loses_a_session(
    seen: Seq<UserSessionView>,
    earlier: UserSessionView,
    later: UserSessionView,
)
    requires
        earlier.token != later.token,
        !holds_token(seen, earlier.token),
    ensures
        holds_token(with_session(seen, later), later.token),
        !holds_token(with_session(seen, later), earlier.token),
{
    let written = with_session(seen, later);
    if !holds_token(seen, later.token) {
        assert(written[seen.len() as int].token == later.token);
    }
    if holds_token(written, earlier.token) {
        let i = choose|i: int| 0 <= i < written.len() && written[i].token == earlier.token;
        if i < seen.len() {
            assert(seen[i].token == earlier.token);
        }
    }
}

/// One attempt of a login to write its session: the list that the login had read, and
/// the session.
pub struct SessionWrite {
    pub seen: Seq<UserSessionView>,
    pub session: UserSessionView,
}

/// What the store holds after an attempt to write, where it held `held`: the write is
/// done only where the store still holds what the login had read, and the session is then
/// put into the list; else the list stays and the login reads again.
pub open spec fn after_write(held: Seq<UserSessionView>, write: SessionWrite) -> Seq<
    UserSessionView,
> {
    if write.seen == held {
        with_session(held, write.session)
    } else {
        held
    }
}

/// What the store holds after attempts to write, of whatever logins and in whatever order
/// they reach the store.
pub open spec fn after_writes(held: Seq<UserSessionView>, writes: Seq<SessionWrite>) -> Seq<
    UserSessionView,
>
    decreases writes.len(),
{
    if writes.len() == 0 {
        held
    } else {
        after_write(after_writes(held, writes.drop_last()), writes.last())
    }
}

/// The sessions of those attempts that were done, in the order in which they reached the
/// store. A login ends well only when one of its attempts was done.
pub open spec fn sessions_written(held: Seq<UserSessionView>, writes: Seq<SessionWrite>) -> Seq<
    UserSessionView,
>
    decreases writes.len(),
{
    if writes.len() == 0 {
        Seq::empty()
    } else if writes.last().seen == after_writes(held, writes.drop_last()) {
        sessions_written(held, writes.drop_last()).push(writes.last().session)
    } else {
        sessions_written(held, writes.drop_last())
    }
}

/// Logins that run at once lose no session: however their attempts to write reach the
/// store, it holds in the end the sessions of before and then the session of every attempt
/// that was done, once each, so that after K logins that ended well the list has grown by
/// K. This holds where no token occurs twice among the sessions of before and the written
/// ones.
pub proof fn lemma_guarded_writes_lose_nothing(
    held: Seq<UserSessionView>,
    writes: Seq<SessionWrite>,
)
    requires
        tokens_distinct(held + sessions_written(held, writes)),
    ensures
        after_writes(held, writes) == held + sessions_written(held, writes),
        after_writes(held, writes).len() == held.len() + sessions_written(held, writes).len(),
{
    lemma_writes_done_are_appends(held, writes);
    lemma_appends_lose_nothing(held, sessions_written(held, writes));
}

/// What the store holds after attempts to write is what it holds after the sessions of
/// the attempts that were done have been put in one by one.
proof fn lemma_writes_done_are_appends(held: Seq<UserSessionView>, writes: Seq<SessionWrite>)
    ensures
        after_writes(held, writes) == appended_in_turn(held, sessions_written(held, writes)),
    decreases writes.len(),
{
    if writes.len() > 0 {
        lemma_writes_done_are_appends(held, writes.drop_last());
        let rest = sessions_written(held, writes.drop_last());
        if writes.last().seen == after_writes(held, writes.drop_last()) {
            assert(rest.push(writes.last().session).drop_last() =~= rest);
        }
    }
}

} // verus!
