use vstd::prelude::*;
use vstd::utf8::encode_utf8;

use super::helpers::{check_password_hash, password_finding, SuccessMessage};
use crate::config::Config;
use crate::errors::auth;
use crate::errors::internal_server;
use crate::errors::validation::auth::ErrorVariants;
use crate::errors::{Error, ErrorCategories, ErrorKind};
use crate::json::json_string_literal;
use crate::models::user::{
    session_key, session_key_text, sessions_json, stored_sessions, with_session, LookupFailure, NewUser, User,
    UserClaims, UserInsert, UserLogin, UserSafe, UserSafeView, UserSession, UserSessionView,
    UserView, ACCESS_TOKEN_LIFE,
    SESSION_LIFE,
};
use crate::clock::epoch_seconds;
use crate::password::argon2_verdict;
use crate::token::{fresh_token, is_session_token};
use crate::useragent::{client_labels, read_client};
use crate::validation::registration::lemma_password_out_of_bounds_is_reported;
use crate::validation::{first_broken, new_password_length_ok, Validate};

verus! {

/// A cookie that a response sets.
#[derive(Clone, Debug)]
pub struct Cookie {
    pub name: &'static str,
    pub value: String,
    pub path: &'static str,
    /// Seconds for which the client keeps the cookie.
    pub max_age: u64,
}

/// What a `Cookie` holds, its texts as sequences of characters.
pub struct CookieView {
    pub name: Seq<char>,
    pub value: Seq<char>,
    pub path: Seq<char>,
    pub max_age: u64,
}

impl View for Cookie {
    type V = CookieView;

    open spec fn view(&self) -> CookieView {
        CookieView {
            name: self.name@,
            value: self.value@,
            path: self.path@,
            max_age: self.max_age,
        }
    }
}

/// What goes back to the client: a status, cookies to set, and a body of JSON.
#[derive(Clone, Debug)]
pub struct Response {
    pub status: u16,
    pub cookies: Vec<Cookie>,
    pub body: String,
}

/// What a `Response` holds, its texts as sequences of characters.
pub struct ResponseView {
    pub status: u16,
    pub cookies: Seq<CookieView>,
    pub body: Seq<char>,
}

impl View for Response {
    type V = ResponseView;

    open spec fn view(&self) -> ResponseView {
        ResponseView {
            status: self.status,
            cookies: self.cookies@.map_values(|cookie: Cookie| cookie@),
            body: self.body@,
        }
    }
}

/// The status with which a named error goes to the client: 400 for a validation error,
/// 404 for a username that is not found, 401 for a password that is incorrect, 500 for an
/// internal error.
pub open spec fn status_of_kind(kind: ErrorKind) -> u16 {
    match kind {
        ErrorKind::Validation(_) => 400,
        ErrorKind::Auth(auth::ErrorVariants::UsernameNotFound) => 404,
        ErrorKind::Auth(auth::ErrorVariants::IncorrectPassword) => 401,
        ErrorKind::Internal(_) => 500,
    }
}

/// The status with which an error goes to the client.
pub fn status_of(error: &Error) -> (status: u16)
    ensures
        forall|kind: ErrorKind| #[trigger] error.stands_for(kind) ==> status == status_of_kind(kind),
        status == 400 || status == 401 || status == 404 || status == 500,
{
    proof {
        auth::lemma_kinds_differ();
    }
    match &error.error.body {
        ErrorCategories::ValidationError(_) => 400,
        ErrorCategories::InternalServerError(_) => 500,
        ErrorCategories::AuthError(e) => if e.kind.eq("UsernameNotFound") {
            404
        } else {
            401
        },
    }
}

impl Response {
    /// The response that turns a request down with a named error: the status of the
    /// error, no cookie, and the error in its envelope for a body.
    pub open spec fn refusal(kind: ErrorKind) -> ResponseView {
        ResponseView { status: status_of_kind(kind), cookies: Seq::empty(), body: kind.json_text() }
    }

    /// The response to a registration that went through: 200, and the user without the
    /// password for a body.
    pub open spec fn registered(user: UserSafeView) -> ResponseView {
        ResponseView { status: 200, cookies: Seq::empty(), body: UserSafe::json_text(user) }
    }

    /// The response to a login that went through: 200, the refresh token in a cookie that
    /// lasts a day, the access token in one that lasts twenty minutes, both for the whole
    /// site, and a word of success for a body.
    pub open spec fn logged_in(refresh_token: Seq<char>, access_token: Seq<char>) -> ResponseView {
        ResponseView {
            status: 200,
            cookies: seq![
                CookieView {
                    name: "refresh_token"@,
                    value: refresh_token,
                    path: "/"@,
                    max_age: SESSION_LIFE,
                },
                CookieView {
                    name: "access_token"@,
                    value: access_token,
                    path: "/"@,
                    max_age: ACCESS_TOKEN_LIFE as u64,
                },
            ],
            body: "{\"message\":"@ + json_string_literal("Successfully Logged in"@) + "}"@,
        }
    }

    /// Turns a request down with an error.
    pub fn refuse(error: &Error) -> (response: Response)
        ensures
            response.status == 400 || response.status == 401 || response.status == 404
                || response.status == 500,
            response.cookies@.len() == 0,
            response.body@ == error.json_text(),
            forall|kind: ErrorKind| #[trigger]
                error.stands_for(kind) ==> response@ == Self::refusal(kind),
    {
        let response = Response {
            status: status_of(error),
            cookies: Vec::new(),
            body: error.to_json(),
        };
        assert(response@.cookies =~= Seq::empty());
        response
    }

    /// Answers a registration that went through.
    pub fn welcome(user: &UserSafe) -> (response: Response)
        ensures
            response@ == Self::registered(user@),
    {
        let response = Response { status: 200, cookies: Vec::new(), body: user.to_json() };
        assert(response@.cookies =~= Seq::empty());
        response
    }

    /// Answers a login that went through.
    pub fn greet(refresh_token: String, access_token: String) -> (response: Response)
        ensures
            response@ == Self::logged_in(refresh_token@, access_token@),
    {
        let mut cookies: Vec<Cookie> = Vec::new();
        cookies.push(
            Cookie { name: "refresh_token", value: refresh_token, path: "/", max_age: SESSION_LIFE },
        );
        cookies.push(
            Cookie {
                name: "access_token",
                value: access_token,
                path: "/",
                max_age: ACCESS_TOKEN_LIFE as u64,
            },
        );
        let body = SuccessMessage { message: "Successfully Logged in" }.to_json();
        let response = Response { status: 200, cookies, body };
        assert(response@.cookies =~= Self::logged_in(refresh_token@, access_token@).cookies);
        response
    }
}

/// Where a registration stands.
#[derive(Debug)]
pub enum RegisterState {
    /// Nothing has come in yet.
    Fresh,
    /// The user is with the store.
    Storing,
    /// The client has its answer.
    Done,
}

/// What happens to a registration.
#[derive(Debug)]
pub enum RegisterEvent {
    /// The client sent its payload.
    Submitted(UserInsert),
    /// The store took the user and gave it an id.
    Stored(UserSafe),
    /// The store failed.
    StoreFailed,
}

/// What is to be done next for a registration.
#[derive(Debug)]
pub enum RegisterAction {
    /// Hand the user to the store.
    Store(NewUser),
    /// Answer the client.
    Respond(Response),
}

/// The registration ends with `response` for the client.
pub open spec fn register_ends(
    next: RegisterState,
    action: RegisterAction,
    response: ResponseView,
) -> bool {
    &&& next is Done
    &&& action matches RegisterAction::Respond(r)
    &&& r@ == response
}

/// What a registration owes for a payload that came in, given what the clock gave. A
/// payload that breaks a rule is turned down with the first rule that it breaks, before
/// anything else happens. One that breaks none goes to the store with the hash of its
/// password and the time, and is turned down with an internal error where no hash or no
/// time that fits can be had.
pub open spec fn register_submitted_owes(
    secret: Seq<char>,
    body: UserInsert,
    now: Option<u64>,
    next: RegisterState,
    action: RegisterAction,
) -> bool {
    match first_broken(|rule: ErrorVariants| body.breaks(rule)) {
        Some(rule) => register_ends(next, action, Response::refusal(ErrorKind::Validation(rule))),
        None => match User::prepared(secret, body@, now) {
            Some(view) => {
                &&& next is Storing
                &&& action matches RegisterAction::Store(row)
                &&& row@ == view
            },
            None => register_ends(
                next,
                action,
                Response::refusal(ErrorKind::Internal(internal_server::ErrorVariants::AuthError)),
            ),
        },
    }
}

/// What `register` owes for a state and an event.
///
/// For a payload that came in, see `register_submitted_owes`; the time is what the clock
/// gives. What the store made of the user is answered with the user, a failure of the
/// store with the internal error of the store, which says no more than that. An event
/// that does not fit the state is answered with an internal error.
pub open spec fn register_owes(
    secret: Seq<char>,
    state: RegisterState,
    event: RegisterEvent,
    next: RegisterState,
    action: RegisterAction,
) -> bool {
    match (state, event) {
        (RegisterState::Fresh, RegisterEvent::Submitted(body)) => exists|now: Option<u64>|
            register_submitted_owes(secret, body, now, next, action),
        (RegisterState::Storing, RegisterEvent::Stored(user)) => register_ends(
            next,
            action,
            Response::registered(user@),
        ),
        (RegisterState::Storing, RegisterEvent::StoreFailed) => register_ends(
            next,
            action,
            Response::refusal(ErrorKind::Internal(internal_server::ErrorVariants::DBError)),
        ),
        _ => register_ends(
            next,
            action,
            Response::refusal(ErrorKind::Internal(internal_server::ErrorVariants::AuthError)),
        ),
    }
}

/// A registration whose password has fewer than 8 or more than 128 characters is a bad
/// request: it ends at once with the status 400 and a validation error in its envelope,
/// and nothing goes to the store. Where the payload breaks no other rule, the error is that
/// of the password.
pub proof fn lemma_password_out_of_bounds_is_a_bad_request(
    secret: Seq<char>,
    body: UserInsert,
    now: Option<u64>,
    next: RegisterState,
    action: RegisterAction,
)
    requires
        !new_password_length_ok(body.password@.len()),
        register_submitted_owes(secret, body, now, next, action),
    ensures
        next is Done,
        action matches RegisterAction::Respond(r) && r.status == 400 && exists|
            rule: ErrorVariants,
        |
            r@ == #[trigger] Response::refusal(ErrorKind::Validation(rule)),
        (forall|rule: ErrorVariants|
            rule != ErrorVariants::PasswordWeak ==> !#[trigger] body.breaks(rule))
            ==> register_ends(
            next,
            action,
            Response::refusal(ErrorKind::Validation(ErrorVariants::PasswordWeak)),
        ),
{
    lemma_password_out_of_bounds_is_reported(body);
    let rule = first_broken(|rule: ErrorVariants| body.breaks(rule))->0;
    assert(register_ends(next, action, Response::refusal(ErrorKind::Validation(rule))));
}

fn register_refused(error: &Error) -> (step: (RegisterState, RegisterAction))
    ensures
        forall|kind: ErrorKind| #[trigger]
            error.stands_for(kind) ==> register_ends(step.0, step.1, Response::refusal(kind)),
{
    (RegisterState::Done, RegisterAction::Respond(Response::refuse(error)))
}

/// Takes in the payload of a registration, given what the clock gave.
pub fn register_submitted_at(secret: &str, body: UserInsert, now: Option<u64>) -> (step: (
    RegisterState,
    RegisterAction,
))
    ensures
        register_submitted_owes(secret@, body, now, step.0, step.1),
{
    if let Some(report) = body.validate() {
        let error = report.to_error();
        return register_refused(&error);
    }
    match User::insert_at(secret, body, now) {
        Ok(row) => (RegisterState::Storing, RegisterAction::Store(row)),
        Err(error) => register_refused(&error),
    }
}

/// Takes in the payload of a registration, at the time by the system clock.
pub fn register_submitted(secret: &str, body: UserInsert) -> (step: (
    RegisterState,
    RegisterAction,
))
    ensures
        exists|now: Option<u64>| register_submitted_owes(secret@, body, now, step.0, step.1),
{
    let now = epoch_seconds();
    let step = register_submitted_at(secret, body, now);
    assert(register_submitted_owes(secret@, body, now, step.0, step.1));
    step
}

/// One step of a registration: from where it stands and what happened to where it stands
/// next and what is to be done. The caller does what is asked, hands the user to the
/// store or answers the client, and comes back with what the store said. The password is
/// hashed under the secret of the configuration.
pub fn register(config: &Config, state: RegisterState, event: RegisterEvent) -> (step: (
    RegisterState,
    RegisterAction,
))
    ensures
        register_owes(config.secret@, state, event, step.0, step.1),
{
    match (state, event) {
        (RegisterState::Fresh, RegisterEvent::Submitted(body)) => register_submitted(
            config.secret.as_str(),
            body,
        ),
        (RegisterState::Storing, RegisterEvent::Stored(user)) => (
            RegisterState::Done,
            RegisterAction::Respond(Response::welcome(&user)),
        ),
        (RegisterState::Storing, RegisterEvent::StoreFailed) => {
            let error = internal_server::ErrorVariants::DBError.to_error();
            register_refused(&error)
        },
        _ => {
            let error = internal_server::ErrorVariants::AuthError.to_error();
            register_refused(&error)
        },
    }
}

/// Where a login stands.
#[derive(Debug)]
pub enum LoginState {
    /// Nothing has come in yet.
    Fresh,
    /// The store is asked for the user; the password waits, and the user-agent, where
    /// the client sent one.
    FindingUser { password: String, useragent: Option<String> },
    /// The password was right and a session is issued; the store is asked for the
    /// sessions that the user has.
    LoadingSessions { user: User, session: UserSession },
    /// The sessions, the new one among them, are with the store.
    SavingSessions { user: User, session: UserSession },
    /// The client has its answer.
    Done,
}

/// What happens to a login.
#[derive(Debug)]
pub enum LoginEvent {
    /// The client sent its payload; `useragent` is how the client names itself, where it
    /// does.
    Submitted { body: UserLogin, useragent: Option<String> },
    /// The store answered the question for the user.
    UserLookedUp(Result<User, LookupFailure>),
    /// The store gave what it has under the key: nothing where it has nothing.
    SessionsLoaded(Option<String>),
    /// The store took what was to be written.
    SessionsSaved,
    /// The store no longer held what had been read, and wrote nothing.
    SessionsChanged,
    /// The store of the sessions failed.
    StoreFailed,
}

/// What is to be done next for a login.
#[derive(Debug)]
pub enum LoginAction {
    /// Ask the store for the user that goes by this username.
    FindUser(String),
    /// Ask the store for what it has under this key.
    LoadSessions(String),
    /// Have the store hold `value` under `key`, in one step with the test that it still
    /// holds `expected` there (nothing, where `expected` is `None`); where it does not,
    /// nothing is written and the answer is that the sessions changed.
    SaveSessions { key: String, expected: Option<String>, value: String },
    /// Answer the client.
    Respond(Response),
}

/// The text that may be there, by its view.
pub open spec fn optional_text(text: Option<String>) -> Option<Seq<char>> {
    match text {
        Some(text) => Some(text@),
        None => None,
    }
}

/// The login ends with `response` for the client.
pub open spec fn login_ends(next: LoginState, action: LoginAction, response: ResponseView) -> bool {
    &&& next is Done
    &&& action matches LoginAction::Respond(r)
    &&& r@ == response
}

/// The login ends with an internal error.
pub open spec fn login_fails(
    next: LoginState,
    action: LoginAction,
    part: internal_server::ErrorVariants,
) -> bool {
    login_ends(next, action, Response::refusal(ErrorKind::Internal(part)))
}

/// The store is asked for the sessions of the holder, and the new session waits.
pub open spec fn login_loads(
    holder: UserView,
    fresh: UserSessionView,
    next: LoginState,
    action: LoginAction,
) -> bool {
    &&& next matches LoginState::LoadingSessions { user, session }
    &&& user@ == holder
    &&& session@ == fresh
    &&& action matches LoginAction::LoadSessions(key)
    &&& key@ == session_key_text(fresh.id)
}

/// What `login` owes for a payload that came in: a payload that breaks a rule is turned
/// down with the first rule that it breaks; for one that breaks none the store is asked
/// for the user, and the password and the user-agent wait.
pub open spec fn submitted_owes(
    body: UserLogin,
    agent: Option<Seq<char>>,
    next: LoginState,
    action: LoginAction,
) -> bool {
    match first_broken(|rule: ErrorVariants| body.breaks(rule)) {
        Some(rule) => login_ends(next, action, Response::refusal(ErrorKind::Validation(rule))),
        None => {
            &&& next matches LoginState::FindingUser { password, useragent }
            &&& password@ == body.password@
            &&& optional_text(useragent) == agent
            &&& action matches LoginAction::FindUser(username)
            &&& username@ == body.username@
        },
    }
}

/// What a login owes for the store's answer on the user, given the token that was drawn
/// and what the clock gave. No user of that name: the login is turned down with that.
/// Another failure of the store: the internal error of the store. A user: the password is
/// checked against the stored hash, and a password that does not verify is turned down
/// as incorrect. For one that verifies a session is issued, with the token, the labels of
/// the client (`Unknown` where the client sent no user-agent or one that says nothing)
/// and an expiry a day on, and the store is asked for the sessions that the user has. Only
/// where the clock gave no time from which a day can be counted does such a login end
/// with an internal error: the user-agent never fails it.
pub open spec fn looked_up_at_owes(
    password: Seq<char>,
    agent: Option<Seq<char>>,
    found: Result<User, LookupFailure>,
    token: Seq<char>,
    now: Option<u64>,
    next: LoginState,
    action: LoginAction,
) -> bool {
    match found {
        Err(LookupFailure::RowNotFound) => login_ends(
            next,
            action,
            Response::refusal(ErrorKind::Auth(auth::ErrorVariants::UsernameNotFound)),
        ),
        Err(LookupFailure::Other) => login_fails(next, action, internal_server::ErrorVariants::DBError),
        Ok(stored) => match password_finding(
            argon2_verdict(stored.password@, encode_utf8(password)),
        ) {
            Some(kind) => login_ends(next, action, Response::refusal(kind)),
            None => match now {
                Some(time) => if time + SESSION_LIFE <= u64::MAX {
                    login_loads(
                        stored@,
                        UserSession::issued(stored.id, token, client_labels(agent), time),
                        next,
                        action,
                    )
                } else {
                    login_fails(next, action, internal_server::ErrorVariants::AuthError)
                },
                None => login_fails(next, action, internal_server::ErrorVariants::AuthError),
            },
        },
    }
}

/// What `login` owes for the store's answer on the user: what `looked_up_at_owes` says,
/// for a fresh token and for what the clock gives.
pub open spec fn looked_up_owes(
    password: Seq<char>,
    agent: Option<Seq<char>>,
    found: Result<User, LookupFailure>,
    next: LoginState,
    action: LoginAction,
) -> bool {
    exists|token: Seq<char>, now: Option<u64>|
        is_session_token(token) && #[trigger] looked_up_at_owes(
            password,
            agent,
            found,
            token,
            now,
            next,
            action,
        )
}

/// What `login` owes for what the store has under the user's key: the store is to hold
/// the sessions of before with the new one put in, if it still holds what was read, and
/// the new session waits. Where what the store has cannot be read, the login ends with the
/// internal error of the store and nothing is written.
pub open spec fn loaded_owes(
    holder: User,
    fresh: UserSession,
    stored: Option<String>,
    next: LoginState,
    action: LoginAction,
) -> bool {
    match stored_sessions(fresh.id, optional_text(stored)) {
        Some(before) => {
            &&& next matches LoginState::SavingSessions { user, session }
            &&& user@ == holder@
            &&& session@ == fresh@
            &&& action matches LoginAction::SaveSessions { key, expected, value }
            &&& key@ == session_key_text(fresh.id)
            &&& optional_text(expected) == optional_text(stored)
            &&& value@ == sessions_json(with_session(before, fresh@))
        },
        None => login_fails(next, action, internal_server::ErrorVariants::DBError),
    }
}

/// What a login owes once the sessions are stored, given what the clock gave: the client
/// gets the token of the session and an access token, signed with the secret, for claims
/// made of the user at that time. The login ends with an internal error only where the
/// clock gave no time from which twenty minutes can be counted or the signer gives no
/// token.
pub open spec fn saved_at_owes(
    secret: Seq<char>,
    holder: UserView,
    refresh: Seq<char>,
    now: Option<u64>,
    next: LoginState,
    action: LoginAction,
) -> bool {
    match now {
        Some(time) => if time + ACCESS_TOKEN_LIFE <= usize::MAX {
            match UserClaims::token_text(UserClaims::of_user(holder, time), secret) {
                Some(access) => login_ends(next, action, Response::logged_in(refresh, access)),
                None => login_fails(next, action, internal_server::ErrorVariants::AuthError),
            }
        } else {
            login_fails(next, action, internal_server::ErrorVariants::AuthError)
        },
        None => login_fails(next, action, internal_server::ErrorVariants::AuthError),
    }
}

/// What `login` owes for a state and an event: see the parts; the time is what the clock
/// gives. Where the store no longer held what was read, the sessions are read again and
/// the new session still waits. A failure of the store of the sessions ends the login with
/// the internal error of the store; an event that does not fit the state is answered with
/// an internal error.
pub open spec fn login_owes(
    secret: Seq<char>,
    state: LoginState,
    event: LoginEvent,
    next: LoginState,
    action: LoginAction,
) -> bool {
    match (state, event) {
        (LoginState::Fresh, LoginEvent::Submitted { body, useragent }) => submitted_owes(
            body,
            optional_text(useragent),
            next,
            action,
        ),
        (
            LoginState::FindingUser { password, useragent },
            LoginEvent::UserLookedUp(found),
        ) => looked_up_owes(password@, optional_text(useragent), found, next, action),
        (
            LoginState::LoadingSessions { user, session },
            LoginEvent::SessionsLoaded(stored),
        ) => loaded_owes(user, session, stored, next, action),
        (LoginState::LoadingSessions { .. }, LoginEvent::StoreFailed) => login_fails(
            next,
            action,
            internal_server::ErrorVariants::DBError,
        ),
        (LoginState::SavingSessions { user, session }, LoginEvent::SessionsSaved) => exists|
            now: Option<u64>,
        |
            saved_at_owes(secret, user@, session.token@, now, next, action),
        (LoginState::SavingSessions { user, session }, LoginEvent::SessionsChanged) => login_loads(
            user@,
            session@,
            next,
            action,
        ),
        (LoginState::SavingSessions { .. }, LoginEvent::StoreFailed) => login_fails(
            next,
            action,
            internal_server::ErrorVariants::DBError,
        ),
        _ => login_fails(next, action, internal_server::ErrorVariants::AuthError),
    }
}

fn login_refused(error: &Error) -> (step: (LoginState, LoginAction))
    ensures
        forall|kind: ErrorKind| #[trigger]
            error.stands_for(kind) ==> login_ends(step.0, step.1, Response::refusal(kind)),
{
    (LoginState::Done, LoginAction::Respond(Response::refuse(error)))
}

/// Takes in the payload of a login.
pub fn login_submitted(body: UserLogin, useragent: Option<String>) -> (step: (
    LoginState,
    LoginAction,
))
    ensures
        submitted_owes(body, optional_text(useragent), step.0, step.1),
{
    if let Some(report) = body.validate() {
        let error = report.to_error();
        return login_refused(&error);
    }
    (
        LoginState::FindingUser { password: body.password, useragent },
        LoginAction::FindUser(body.username),
    )
}

/// Asks the store for the sessions of the user, with the new session waiting.
pub fn login_load(user: User, session: UserSession) -> (step: (LoginState, LoginAction))
    ensures
        login_loads(user@, session@, step.0, step.1),
{
    let key = session_key(session.id);
    (LoginState::LoadingSessions { user, session }, LoginAction::LoadSessions(key))
}

/// Takes in the store's answer on the user, given the token that was drawn and what the
/// clock gave.
pub fn login_looked_up_at(
    password: String,
    useragent: Option<String>,
    found: Result<User, LookupFailure>,
    token: String,
    now: Option<u64>,
) -> (step: (LoginState, LoginAction))
    ensures
        looked_up_at_owes(password@, optional_text(useragent), found, token@, now, step.0, step.1),
{
    let user = match User::get_by_username(found) {
        Ok(user) => user,
        Err(error) => {
            return login_refused(&error);
        },
    };
    if let Some(error) = check_password_hash(password, user.password.as_str()) {
        return login_refused(&error);
    }
    let labels = match &useragent {
        Some(text) => read_client(Some(text.as_str())),
        None => read_client(None),
    };
    let issued = match now {
        Some(time) => UserSession::assemble(user.id, token, labels, time),
        None => None,
    };
    match issued {
        Some(session) => login_load(user, session),
        None => {
            let error = internal_server::ErrorVariants::AuthError.to_error();
            login_refused(&error)
        },
    }
}

/// Takes in the store's answer on the user: draws a token, reads the clock and hands on.
pub fn login_looked_up(
    password: String,
    useragent: Option<String>,
    found: Result<User, LookupFailure>,
) -> (step: (LoginState, LoginAction))
    ensures
        looked_up_owes(password@, optional_text(useragent), found, step.0, step.1),
{
    let token = fresh_token();
    let now = epoch_seconds();
    let ghost drawn = token@;
    let step = login_looked_up_at(password, useragent, found, token, now);
    assert(looked_up_at_owes(
        password@,
        optional_text(useragent),
        found,
        drawn,
        now,
        step.0,
        step.1,
    ));
    step
}

/// Takes in what the store has under the user's key.
pub fn login_loaded(user: User, session: UserSession, stored: Option<String>) -> (step: (
    LoginState,
    LoginAction,
))
    ensures
        loaded_owes(user, session, stored, step.0, step.1),
{
    let written = match &stored {
        Some(text) => session.set_session(Some(text.as_str())),
        None => session.set_session(None),
    };
    match written {
        Some(value) => {
            let key = session_key(session.id);
            (
                LoginState::SavingSessions { user, session },
                LoginAction::SaveSessions { key, expected: stored, value },
            )
        },
        None => {
            let error = internal_server::ErrorVariants::DBError.to_error();
            login_refused(&error)
        },
    }
}

/// Takes in that the sessions are stored, given what the clock gave.
pub fn login_saved_at(secret: &str, user: User, refresh_token: String, now: Option<u64>) -> (step:
    (LoginState, LoginAction))
    ensures
        saved_at_owes(secret@, user@, refresh_token@, now, step.0, step.1),
{
    let claims = match now {
        Some(time) => UserClaims::at(user, time),
        None => None,
    };
    let access_token = match claims {
        Some(claims) => claims.to_token(secret),
        None => None,
    };
    match access_token {
        Some(access_token) => (
            LoginState::Done,
            LoginAction::Respond(Response::greet(refresh_token, access_token)),
        ),
        None => {
            let error = internal_server::ErrorVariants::AuthError.to_error();
            login_refused(&error)
        },
    }
}

/// Takes in that the sessions are stored: reads the clock and hands on.
pub fn login_saved(secret: &str, user: User, refresh_token: String) -> (step: (
    LoginState,
    LoginAction,
))
    ensures
        exists|now: Option<u64>|
            saved_at_owes(secret@, user@, refresh_token@, now, step.0, step.1),
{
    let now = epoch_seconds();
    let step = login_saved_at(secret, user, refresh_token, now);
    assert(saved_at_owes(secret@, user@, refresh_token@, now, step.0, step.1));
    step
}

/// One step of a login: from where it stands and what happened to where it stands next
/// and what is to be done. The caller does what is asked, asks the store or answers the
/// client, and comes back with what the store said. The access token is signed with the
/// signing secret of the configuration.
pub fn login(config: &Config, state: LoginState, event: LoginEvent) -> (step: (
    LoginState,
    LoginAction,
))
    ensures
        login_owes(config.jwt_secret@, state, event, step.0, step.1),
{
    match (state, event) {
        (LoginState::Fresh, LoginEvent::Submitted { body, useragent }) => login_submitted(
            body,
            useragent,
        ),
        (
            LoginState::FindingUser { password, useragent },
            LoginEvent::UserLookedUp(found),
        ) => login_looked_up(password, useragent, found),
        (
            LoginState::LoadingSessions { user, session },
            LoginEvent::SessionsLoaded(stored),
        ) => login_loaded(user, session, stored),
        (LoginState::LoadingSessions { .. }, LoginEvent::StoreFailed) => {
            let error = internal_server::ErrorVariants::DBError.to_error();
            login_refused(&error)
        },
        (LoginState::SavingSessions { user, session }, LoginEvent::SessionsSaved) => login_saved(
            config.jwt_secret.as_str(),
            user,
            session.token,
        ),
        (LoginState::SavingSessions { user, session }, LoginEvent::SessionsChanged) => login_load(
            user,
            session,
        ),
        (LoginState::SavingSessions { .. }, LoginEvent::StoreFailed) => {
            let error = internal_server::ErrorVariants::DBError.to_error();
            login_refused(&error)
        },
        _ => {
            let error = internal_server::ErrorVariants::AuthError.to_error();
            login_refused(&error)
        },
    }
}

} // verus!
