//! The authenticator: registration, login and refresh as a machine that asks
//! the credential store one question at a time, and the check of a presented
//! access token.
//!
//! The machine holds no connection. Its caller puts each `AuthAction` to the
//! store, hands the `StoreReply` back to `AuthService::step`, and stops at
//! `AuthAction::Finish`. A registration writes twice, the account and its
//! first refresh token: it puts both writes inside one transaction, so that
//! either both are kept or neither. A transaction that is open when a flow
//! finishes in failure is rolled back by the caller.

use vstd::prelude::*;
use vstd::string::*;
use vstd::utf8::encode_utf8;
use crate::error::AuthError;
use crate::hasher::{
    argon2_phc, argon2_verdict, hash_is_faithful, hash_password_with_salt, random_salt, verify_password,
    DRAWN_SALT_CHARS,
};
use crate::ids::UserId;
use crate::password::{check_password, password_verdict};
use crate::token::{
    decoded_claims, hs256_token, sign_claims, signature_is_faithful, token_verdict, verify_token_at,
    Claims,
    ACCESS_TOKEN_LIFETIME_SECS, REFRESH_TOKEN_LIFETIME_SECS,
};

verus! {

/// The view of a text that may be absent.
pub open spec fn text_view(t: Option<String>) -> Option<Seq<char>> {
    match t {
        Some(s) => Some(s@),
        None => None,
    }
}

/// What a new account holder sends.
#[derive(Clone, Debug, PartialEq, Eq)]
pub struct RegisterRequest {
    pub email: String,
    pub password: String,
    pub full_name: Option<String>,
}

/// What a returning account holder sends.
#[derive(Clone, Debug, PartialEq, Eq)]
pub struct LoginRequest {
    pub email: String,
    pub password: String,
}

/// What is sent to trade a refresh token for new tokens.
#[derive(Clone, Debug, PartialEq, Eq)]
pub struct RefreshTokenRequest {
    pub refresh_token: String,
}

/// What a successful flow hands out.
#[derive(Clone, Debug, PartialEq, Eq)]
pub struct AuthResponse {
    pub access_token: String,
    pub refresh_token: String,
    pub user_uid: UserId,
}

pub ghost struct AuthResponseView {
    pub access_token: Seq<char>,
    pub refresh_token: Seq<char>,
    pub user_uid: UserId,
}

impl View for AuthResponse {
    type V = AuthResponseView;

    open spec fn view(&self) -> AuthResponseView {
        AuthResponseView {
            access_token: self.access_token@,
            refresh_token: self.refresh_token@,
            user_uid: self.user_uid,
        }
    }
}

/// What the store knows of an account when asked by email.
#[derive(Clone, Debug, PartialEq, Eq)]
pub struct UserRecord {
    pub id: UserId,
    pub email: String,
    pub password_hash: String,
}

pub ghost struct UserRecordView {
    pub id: UserId,
    pub email: Seq<char>,
    pub password_hash: Seq<char>,
}

impl View for UserRecord {
    type V = UserRecordView;

    open spec fn view(&self) -> UserRecordView {
        UserRecordView { id: self.id, email: self.email@, password_hash: self.password_hash@ }
    }
}

/// What a step may need that no argument determines: the time, a salt and
/// an unguessable text for a refresh token.
#[derive(Clone, Debug, PartialEq, Eq)]
pub struct Fresh {
    /// Seconds since the Unix epoch.
    pub now: i64,
    /// A salt in B64, to hash a new password under.
    pub salt: String,
    /// The refresh token to hand out.
    pub refresh_token: String,
}

pub ghost struct FreshView {
    pub now: i64,
    pub salt: Seq<char>,
    pub refresh_token: Seq<char>,
}

impl View for Fresh {
    type V = FreshView;

    open spec fn view(&self) -> FreshView {
        FreshView { now: self.now, salt: self.salt@, refresh_token: self.refresh_token@ }
    }
}

/// Where a flow stands between two questions to the store.
#[derive(Clone, Debug, PartialEq, Eq)]
pub enum AuthState {
    /// Registration waits to hear whether the email is taken.
    RegisterLookup { email: String, password: String, full_name: Option<String> },
    /// Registration waits for its transaction to be open.
    RegisterBegin { email: String, password_hash: String, full_name: Option<String> },
    /// Registration waits for the new account.
    RegisterCreate,
    /// Registration waits for its refresh token to be kept.
    RegisterStore { response: AuthResponse },
    /// Registration waits for its transaction to be committed.
    RegisterCommit { response: AuthResponse },
    /// Login waits for the account that goes with the email.
    LoginLookup { password: String },
    /// Refresh waits for the owner of the refresh token.
    RefreshLookup,
    /// Login or refresh waits for its new refresh token to be kept.
    StoreToken { response: AuthResponse },
    /// The flow is over.
    Done,
}

pub ghost enum AuthStateView {
    RegisterLookup { email: Seq<char>, password: Seq<char>, full_name: Option<Seq<char>> },
    RegisterBegin { email: Seq<char>, password_hash: Seq<char>, full_name: Option<Seq<char>> },
    RegisterCreate,
    RegisterStore { response: AuthResponseView },
    RegisterCommit { response: AuthResponseView },
    LoginLookup { password: Seq<char> },
    RefreshLookup,
    StoreToken { response: AuthResponseView },
    Done,
}

impl View for AuthState {
    type V = AuthStateView;

    open spec fn view(&self) -> AuthStateView {
        match *self {
            AuthState::RegisterLookup { email, password, full_name } => AuthStateView::RegisterLookup {
                email: email@,
                password: password@,
                full_name: text_view(full_name),
            },
            AuthState::RegisterBegin { email, password_hash, full_name } => AuthStateView::RegisterBegin {
                email: email@,
                password_hash: password_hash@,
                full_name: text_view(full_name),
            },
            AuthState::RegisterCreate => AuthStateView::RegisterCreate,
            AuthState::RegisterStore { response } => AuthStateView::RegisterStore { response: response@ },
            AuthState::RegisterCommit { response } => AuthStateView::RegisterCommit { response: response@ },
            AuthState::LoginLookup { password } => AuthStateView::LoginLookup { password: password@ },
            AuthState::RefreshLookup => AuthStateView::RefreshLookup,
            AuthState::StoreToken { response } => AuthStateView::StoreToken { response: response@ },
            AuthState::Done => AuthStateView::Done,
        }
    }
}

/// What the store answers.
#[derive(Clone, Debug, PartialEq, Eq)]
pub enum StoreReply {
    /// A transaction is open.
    Begun,
    /// The open transaction is committed.
    Committed,
    /// The account with the email asked for, if there is one.
    UserByEmail(Option<UserRecord>),
    /// The account that was created.
    UserCreated { id: UserId, email: String },
    /// The refresh token was kept.
    RefreshTokenStored,
    /// The owner of the refresh token asked for, if the store holds it and
    /// it has not expired.
    RefreshTokenOwner(Option<UserId>),
    /// The store failed.
    Failed,
}

pub ghost enum StoreReplyView {
    Begun,
    Committed,
    UserByEmail(Option<UserRecordView>),
    UserCreated { id: UserId, email: Seq<char> },
    RefreshTokenStored,
    RefreshTokenOwner(Option<UserId>),
    Failed,
}

impl View for StoreReply {
    type V = StoreReplyView;

    open spec fn view(&self) -> StoreReplyView {
        match *self {
            StoreReply::Begun => StoreReplyView::Begun,
            StoreReply::Committed => StoreReplyView::Committed,
            StoreReply::UserByEmail(found) => StoreReplyView::UserByEmail(
                match found {
                    Some(record) => Some(record@),
                    None => None,
                },
            ),
            StoreReply::UserCreated { id, email } => StoreReplyView::UserCreated { id, email: email@ },
            StoreReply::RefreshTokenStored => StoreReplyView::RefreshTokenStored,
            StoreReply::RefreshTokenOwner(owner) => StoreReplyView::RefreshTokenOwner(owner),
            StoreReply::Failed => StoreReplyView::Failed,
        }
    }
}

/// What a flow does next: a question to the store, or its end.
#[derive(Debug, PartialEq, Eq)]
pub enum AuthAction {
    /// Open a transaction.
    Begin,
    /// Commit the open transaction.
    Commit,
    FindUserByEmail { email: String },
    CreateUser { email: String, password_hash: String, full_name: Option<String> },
    StoreRefreshToken { user_id: UserId, token: String, expires_at: i64 },
    /// Asks for the owner of a refresh token that has not expired.
    FindUserByValidRefreshToken { token: String },
    /// The flow is over, with this outcome. On an error nothing may stay of
    /// a transaction that is open: it is rolled back.
    Finish(Result<AuthResponse, AuthError>),
}

pub ghost enum AuthActionView {
    Begin,
    Commit,
    FindUserByEmail { email: Seq<char> },
    CreateUser { email: Seq<char>, password_hash: Seq<char>, full_name: Option<Seq<char>> },
    StoreRefreshToken { user_id: UserId, token: Seq<char>, expires_at: i64 },
    FindUserByValidRefreshToken { token: Seq<char> },
    Finish(Result<AuthResponseView, AuthError>),
}

impl View for AuthAction {
    type V = AuthActionView;

    open spec fn view(&self) -> AuthActionView {
        match *self {
            AuthAction::Begin => AuthActionView::Begin,
            AuthAction::Commit => AuthActionView::Commit,
            AuthAction::FindUserByEmail { email } => AuthActionView::FindUserByEmail { email: email@ },
            AuthAction::CreateUser { email, password_hash, full_name } => AuthActionView::CreateUser {
                email: email@,
                password_hash: password_hash@,
                full_name: text_view(full_name),
            },
            AuthAction::StoreRefreshToken { user_id, token, expires_at } => AuthActionView::StoreRefreshToken {
                user_id,
                token: token@,
                expires_at,
            },
            AuthAction::FindUserByValidRefreshToken { token } => AuthActionView::FindUserByValidRefreshToken {
                token: token@,
            },
            AuthAction::Finish(outcome) => AuthActionView::Finish(
                match outcome {
                    Ok(response) => Ok(response@),
                    Err(e) => Err(e),
                },
            ),
        }
    }
}

/// The end of a flow in failure.
pub open spec fn fail(e: AuthError) -> (AuthStateView, AuthActionView) {
    (AuthStateView::Done, AuthActionView::Finish(Err(e)))
}

/// The tokens minted for `user`: an access token that lasts fifteen minutes
/// from `fresh.now`, and the fresh refresh token.
pub open spec fn minted(secret: Seq<u8>, user: UserId, fresh: FreshView) -> Result<AuthResponseView, AuthError> {
    if fresh.now + REFRESH_TOKEN_LIFETIME_SECS > i64::MAX {
        Err(AuthError::TimeOutOfRange)
    } else {
        match hs256_token(
            user.value,
            (fresh.now + ACCESS_TOKEN_LIFETIME_SECS) as i64,
            fresh.now,
            secret,
        ) {
            Some(token) => Ok(
                AuthResponseView { access_token: token, refresh_token: fresh.refresh_token, user_uid: user },
            ),
            None => Err(AuthError::SigningFailed),
        }
    }
}

/// What the store is asked to keep of minted tokens: the refresh token, for
/// an hour.
pub open spec fn keep_token(user: UserId, fresh: FreshView) -> AuthActionView {
    AuthActionView::StoreRefreshToken {
        user_id: user,
        token: fresh.refresh_token,
        expires_at: (fresh.now + REFRESH_TOKEN_LIFETIME_SECS) as i64,
    }
}

/// What registration does once its account is created: mint the tokens and
/// ask the store to keep the refresh token, inside the open transaction.
pub open spec fn register_on_created(secret: Seq<u8>, user: UserId, fresh: FreshView) -> (
    AuthStateView,
    AuthActionView,
) {
    match minted(secret, user, fresh) {
        Ok(response) => (AuthStateView::RegisterStore { response }, keep_token(user, fresh)),
        Err(e) => fail(e),
    }
}

/// The step of login and refresh once the user is known: mint the tokens and
/// ask the store to keep the refresh token for an hour.
pub open spec fn mint_and_store(secret: Seq<u8>, user: UserId, fresh: FreshView) -> (
    AuthStateView,
    AuthActionView,
) {
    match minted(secret, user, fresh) {
        Ok(response) => (AuthStateView::StoreToken { response }, keep_token(user, fresh)),
        Err(e) => fail(e),
    }
}

/// What registration does once the store has said whether the email is
/// taken: where it is free and the password is admitted and hashed, it asks
/// for a transaction to put its two writes in.
pub open spec fn register_on_lookup(
    email: Seq<char>,
    password: Seq<char>,
    full_name: Option<Seq<char>>,
    found: Option<UserRecordView>,
    fresh: FreshView,
) -> (AuthStateView, AuthActionView) {
    if found is Some {
        fail(AuthError::UserExists)
    } else {
        match password_verdict(password) {
            Err(rule) => fail(AuthError::WeakPassword(rule)),
            Ok(_) => match argon2_phc(encode_utf8(password), fresh.salt) {
                Some(password_hash) => (
                    AuthStateView::RegisterBegin { email, password_hash, full_name },
                    AuthActionView::Begin,
                ),
                None => fail(AuthError::HashingFailed),
            },
        }
    }
}

/// What login does once the store has answered for the email. An unknown
/// email and a wrong password are not told apart.
pub open spec fn login_on_lookup(
    secret: Seq<u8>,
    password: Seq<char>,
    found: Option<UserRecordView>,
    fresh: FreshView,
) -> (AuthStateView, AuthActionView) {
    match found {
        None => fail(AuthError::InvalidCredentials),
        Some(record) => match argon2_verdict(encode_utf8(password), record.password_hash) {
            None => fail(AuthError::UnreadableHash),
            Some(matches) => if matches {
                mint_and_store(secret, record.id, fresh)
            } else {
                fail(AuthError::InvalidCredentials)
            },
        },
    }
}

/// The machine: from where a flow stands and what the store answered to
/// where it stands next and what it does next. An answer that does not fit
/// the question ends the flow as a failure of the store.
pub open spec fn next_step(secret: Seq<u8>, state: AuthStateView, reply: StoreReplyView, fresh: FreshView) -> (
    AuthStateView,
    AuthActionView,
) {
    match (state, reply) {
        (
            AuthStateView::RegisterLookup { email, password, full_name },
            StoreReplyView::UserByEmail(found),
        ) => register_on_lookup(email, password, full_name, found, fresh),
        (AuthStateView::RegisterBegin { email, password_hash, full_name }, StoreReplyView::Begun) => (
            AuthStateView::RegisterCreate,
            AuthActionView::CreateUser { email, password_hash, full_name },
        ),
        (AuthStateView::RegisterCreate, StoreReplyView::UserCreated { id, email }) => register_on_created(
            secret,
            id,
            fresh,
        ),
        (AuthStateView::RegisterStore { response }, StoreReplyView::RefreshTokenStored) => (
            AuthStateView::RegisterCommit { response },
            AuthActionView::Commit,
        ),
        (AuthStateView::RegisterCommit { response }, StoreReplyView::Committed) => (
            AuthStateView::Done,
            AuthActionView::Finish(Ok(response)),
        ),
        (AuthStateView::LoginLookup { password }, StoreReplyView::UserByEmail(found)) => login_on_lookup(
            secret,
            password,
            found,
            fresh,
        ),
        (AuthStateView::RefreshLookup, StoreReplyView::RefreshTokenOwner(owner)) => match owner {
            Some(user) => mint_and_store(secret, user, fresh),
            None => fail(AuthError::InvalidRefreshToken),
        },
        (AuthStateView::StoreToken { response }, StoreReplyView::RefreshTokenStored) => (
            AuthStateView::Done,
            AuthActionView::Finish(Ok(response)),
        ),
        _ => fail(AuthError::Store),
    }
}

/// The most questions a flow still puts to the store from `state`.
pub open spec fn questions_left(state: AuthStateView) -> nat {
    match state {
        AuthStateView::RegisterLookup { .. } => 5,
        AuthStateView::RegisterBegin { .. } => 4,
        AuthStateView::RegisterCreate => 3,
        AuthStateView::RegisterStore { .. } => 2,
        AuthStateView::RegisterCommit { .. } => 1,
        AuthStateView::LoginLookup { .. } => 2,
        AuthStateView::RefreshLookup => 2,
        AuthStateView::StoreToken { .. } => 1,
        AuthStateView::Done => 0,
    }
}

/// Every step brings a flow nearer to its end, whatever the store answers:
/// a step either finishes the flow, and then the flow stands at `Done`, or
/// leaves it fewer questions to ask. So no flow asks more than five.
pub proof fn every_step_brings_the_end_nearer(
    secret: Seq<u8>,
    state: AuthStateView,
    reply: StoreReplyView,
    fresh: FreshView,
)
    ensures
        ({
            let (state_after, action) = next_step(secret, state, reply, fresh);
            if action is Finish {
                state_after == AuthStateView::Done
            } else {
                0 < questions_left(state_after) < questions_left(state)
            }
        }),
{
}

/// Calls `Utc::now` of chrono and takes its `timestamp`: the seconds since
/// the Unix epoch on the system's clock. Believed: the number is not
/// negative, since chrono refuses a clock that stands before the epoch.
#[verifier::external_body]
fn unix_now() -> (r: i64)
    ensures
        r >= 0,
{
    chrono::Utc::now().timestamp()
}

/// The characters of a refresh token that is drawn: a random id written out
/// in hyphenated form.
pub const DRAWN_TOKEN_CHARS: usize = 36;

/// Calls `Uuid::new_v4` and writes the random id out in hyphenated form.
/// Each call draws anew, so of the text only its length is claimed: the
/// hyphenated form has 36 characters.
#[verifier::external_body]
fn random_token() -> (r: String)
    ensures
        r@.len() == DRAWN_TOKEN_CHARS,
{
    uuid::Uuid::new_v4().to_string()
}

/// What holds of everything that is drawn: the time is not before the
/// epoch, and the salt and the refresh token are filled, each to its length.
pub open spec fn drawn(fresh: FreshView) -> bool {
    &&& fresh.now >= 0
    &&& fresh.salt.len() == DRAWN_SALT_CHARS
    &&& fresh.refresh_token.len() == DRAWN_TOKEN_CHARS
}

impl Fresh {
    /// Reads the clock and draws a salt and a refresh token.
    pub fn draw() -> (r: Fresh)
        ensures
            r.now >= 0,
            r.salt@.len() == DRAWN_SALT_CHARS,
            r.refresh_token@.len() == DRAWN_TOKEN_CHARS,
            drawn(r@),
    {
        Fresh { now: unix_now(), salt: random_salt(), refresh_token: random_token() }
    }
}

/// The authenticator. It holds the one secret that access tokens are signed
/// under.
pub struct AuthService {
    jwt_secret: String,
}

/// The end of a flow in failure.
fn failed(e: AuthError) -> (r: (AuthState, AuthAction))
    ensures
        (r.0@, r.1@) == fail(e),
{
    (AuthState::Done, AuthAction::Finish(Err(e)))
}

impl AuthService {
    /// The secret as it was given.
    pub closed spec fn secret_text(&self) -> Seq<char> {
        self.jwt_secret@
    }

    /// The bytes that tokens are signed under.
    pub open spec fn secret(&self) -> Seq<u8> {
        encode_utf8(self.secret_text())
    }

    /// An authenticator that signs under `jwt_secret`.
    pub fn new(jwt_secret: String) -> (r: AuthService)
        ensures
            r.secret_text() == jwt_secret@,
    {
        AuthService { jwt_secret }
    }

    /// Mints the tokens for `user_id`: an access token signed under the
    /// secret that lasts fifteen minutes from `fresh.now`, and the fresh
    /// refresh token.
    pub fn generate_tokens(&self, user_id: UserId, fresh: &Fresh) -> (r: Result<AuthResponse, AuthError>)
        ensures
            match r {
                Ok(response) => minted(self.secret(), user_id, fresh@) == Ok::<AuthResponseView, AuthError>(
                    response@,
                ),
                Err(e) => minted(self.secret(), user_id, fresh@) == Err::<AuthResponseView, AuthError>(e),
            },
            r matches Ok(response) ==> fresh.now >= 0 ==> token_verdict(
                decoded_claims(response.access_token@, self.secret()),
                fresh.now,
            ) == Ok::<UserId, AuthError>(user_id),
            0 <= fresh.now <= i64::MAX - REFRESH_TOKEN_LIFETIME_SECS ==> signature_is_faithful(
                self.secret(),
                user_id,
                fresh.now,
            ),
    {
        if fresh.now > i64::MAX - REFRESH_TOKEN_LIFETIME_SECS {
            return Err(AuthError::TimeOutOfRange);
        }
        let claims = Claims { sub: user_id, exp: fresh.now + ACCESS_TOKEN_LIFETIME_SECS, iat: fresh.now };
        match sign_claims(&claims, self.jwt_secret.as_str().as_bytes()) {
            Ok(access_token) => Ok(
                AuthResponse { access_token, refresh_token: fresh.refresh_token.clone(), user_uid: user_id },
            ),
            Err(e) => Err(e),
        }
    }

    /// Mints the tokens for `user` and says what the store is asked to
    /// keep of them.
    fn mint_and_keep(&self, user: UserId, fresh: &Fresh) -> (r: Result<(AuthResponse, AuthAction), AuthError>)
        ensures
            match r {
                Ok(minting) => minted(self.secret(), user, fresh@) == Ok::<AuthResponseView, AuthError>(
                    minting.0@,
                ) && minting.1@ == keep_token(user, fresh@),
                Err(e) => minted(self.secret(), user, fresh@) == Err::<AuthResponseView, AuthError>(e),
            },
            r is Ok && fresh.now >= 0 ==> signature_is_faithful(self.secret(), user, fresh.now),
    {
        match self.generate_tokens(user, fresh) {
            Ok(response) => {
                let token = response.refresh_token.clone();
                let keep = AuthAction::StoreRefreshToken {
                    user_id: user,
                    token,
                    expires_at: fresh.now + REFRESH_TOKEN_LIFETIME_SECS,
                };
                Ok((response, keep))
            },
            Err(e) => Err(e),
        }
    }

    /// Mints the tokens for `user` and asks the store to keep the refresh
    /// token for an hour.
    fn mint_then_store(&self, user: UserId, fresh: &Fresh) -> (r: (AuthState, AuthAction))
        ensures
            (r.0@, r.1@) == mint_and_store(self.secret(), user, fresh@),
            r.1@ is StoreRefreshToken && fresh.now >= 0 ==> signature_is_faithful(
                self.secret(),
                user,
                fresh.now,
            ),
    {
        match self.mint_and_keep(user, fresh) {
            Ok((response, keep)) => (AuthState::StoreToken { response }, keep),
            Err(e) => failed(e),
        }
    }

    /// Begins a registration: asks the store whether the email is taken.
    pub fn register(&self, req: RegisterRequest) -> (r: (AuthState, AuthAction))
        ensures
            r.0@ == (AuthStateView::RegisterLookup {
                email: req.email@,
                password: req.password@,
                full_name: text_view(req.full_name),
            }),
            r.1@ == (AuthActionView::FindUserByEmail { email: req.email@ }),
    {
        let email = req.email.clone();
        (
            AuthState::RegisterLookup { email: req.email, password: req.password, full_name: req.full_name },
            AuthAction::FindUserByEmail { email },
        )
    }

    /// Begins a login: asks the store for the account that goes with the
    /// email.
    pub fn login(&self, req: LoginRequest) -> (r: (AuthState, AuthAction))
        ensures
            r.0@ == (AuthStateView::LoginLookup { password: req.password@ }),
            r.1@ == (AuthActionView::FindUserByEmail { email: req.email@ }),
    {
        (AuthState::LoginLookup { password: req.password }, AuthAction::FindUserByEmail { email: req.email })
    }

    /// Begins a refresh: asks the store for the owner of the refresh token,
    /// provided the token has not expired.
    pub fn refresh_token(&self, refresh_token: String) -> (r: (AuthState, AuthAction))
        ensures
            r.0@ == AuthStateView::RefreshLookup,
            r.1@ == (AuthActionView::FindUserByValidRefreshToken { token: refresh_token@ }),
    {
        (AuthState::RefreshLookup, AuthAction::FindUserByValidRefreshToken { token: refresh_token })
    }

    /// Takes a flow one step on, with the time, salt and refresh token that
    /// the step may use given by the caller, who answers for their being
    /// fresh: a salt and a refresh token are to be used once. A hash that
    /// the step makes is one that the password matches, and tokens that it
    /// mints decode to what was signed.
    pub fn step_with(&self, state: AuthState, reply: StoreReply, fresh: &Fresh) -> (r: (AuthState, AuthAction))
        ensures
            (r.0@, r.1@) == next_step(self.secret(), state@, reply@, fresh@),
            r.0@ is RegisterBegin ==> (state@ matches AuthStateView::RegisterLookup { password, .. }
                && hash_is_faithful(password, fresh@.salt)),
            r.1@ matches AuthActionView::StoreRefreshToken { user_id, .. } ==> (fresh.now >= 0
                ==> signature_is_faithful(self.secret(), user_id, fresh.now)),
    {
        match (state, reply) {
            (AuthState::RegisterLookup { email, password, full_name }, StoreReply::UserByEmail(found)) => {
                if found.is_some() {
                    return failed(AuthError::UserExists);
                }
                match check_password(password.as_str()) {
                    Err(rule) => failed(AuthError::WeakPassword(rule)),
                    Ok(_) => match hash_password_with_salt(password.as_str(), fresh.salt.as_str()) {
                        Ok(password_hash) => (
                            AuthState::RegisterBegin { email, password_hash, full_name },
                            AuthAction::Begin,
                        ),
                        Err(e) => failed(e),
                    },
                }
            },
            (AuthState::RegisterBegin { email, password_hash, full_name }, StoreReply::Begun) => (
                AuthState::RegisterCreate,
                AuthAction::CreateUser { email, password_hash, full_name },
            ),
            (AuthState::RegisterCreate, StoreReply::UserCreated { id, email: _ }) => {
                match self.mint_and_keep(id, fresh) {
                    Ok((response, keep)) => (AuthState::RegisterStore { response }, keep),
                    Err(e) => failed(e),
                }
            },
            (AuthState::RegisterStore { response }, StoreReply::RefreshTokenStored) => (
                AuthState::RegisterCommit { response },
                AuthAction::Commit,
            ),
            (AuthState::RegisterCommit { response }, StoreReply::Committed) => (
                AuthState::Done,
                AuthAction::Finish(Ok(response)),
            ),
            (AuthState::LoginLookup { password }, StoreReply::UserByEmail(found)) => match found {
                None => failed(AuthError::InvalidCredentials),
                Some(record) => match verify_password(password.as_str(), record.password_hash.as_str()) {
                    Err(e) => failed(e),
                    Ok(matches) => if matches {
                        self.mint_then_store(record.id, fresh)
                    } else {
                        failed(AuthError::InvalidCredentials)
                    },
                },
            },
            (AuthState::RefreshLookup, StoreReply::RefreshTokenOwner(owner)) => match owner {
                Some(user) => self.mint_then_store(user, fresh),
                None => failed(AuthError::InvalidRefreshToken),
            },
            (AuthState::StoreToken { response }, StoreReply::RefreshTokenStored) => (
                AuthState::Done,
                AuthAction::Finish(Ok(response)),
            ),
            _ => failed(AuthError::Store),
        }
    }

    /// Takes a flow one step on, with the time read from the clock and with
    /// a salt and a refresh token drawn for this step.
    pub fn step(&self, state: AuthState, reply: StoreReply) -> (r: (AuthState, AuthAction))
        ensures
            exists|fresh: FreshView|
                drawn(fresh) && (r.0@, r.1@) == #[trigger] next_step(self.secret(), state@, reply@, fresh),
    {
        let fresh = Fresh::draw();
        let r = self.step_with(state, reply, &fresh);
        assert(drawn(fresh@) && (r.0@, r.1@) == next_step(self.secret(), state@, reply@, fresh@));
        r
    }

    /// Checks a presented access token and tells whom it stands for at
    /// `now`. Touches no store. Every cause of refusal gives the same error.
    pub fn verify_token_at(&self, token: &str, now: i64) -> (r: Result<UserId, AuthError>)
        ensures
            r == token_verdict(decoded_claims(token@, self.secret()), now),
    {
        verify_token_at(token, self.jwt_secret.as_str().as_bytes(), now)
    }

    /// Checks a presented access token against the clock and tells whom it
    /// stands for.
    pub fn verify_token(&self, token: &str) -> (r: Result<UserId, AuthError>)
        ensures
            exists|now: i64| now >= 0 && r == #[trigger] token_verdict(decoded_claims(token@, self.secret()), now),
            r matches Err(e) ==> e == AuthError::InvalidToken,
            r matches Ok(user) ==> decoded_claims(token@, self.secret()) matches Some(claims) && claims.sub
                == user,
            decoded_claims(token@, self.secret()) is None ==> r is Err,
    {
        let now = unix_now();
        let r = self.verify_token_at(token, now);
        assert(r == token_verdict(decoded_claims(token@, self.secret()), now));
        r
    }
}

/// Why a request was not let through.
#[derive(Clone, Copy, Debug, PartialEq, Eq, Structural)]
pub struct Unauthorized;

/// Whom a request stands for at `now`, given what its authorization header
/// held: the header's text is the token. A header that is absent or is no
/// text is treated as an invalid token.
pub open spec fn request_verdict(header: Option<Seq<char>>, secret: Seq<u8>, now: i64) -> Result<
    UserId,
    Unauthorized,
> {
    match header {
        Some(token) => match token_verdict(decoded_claims(token, secret), now) {
            Ok(user) => Ok(user),
            Err(_) => Err(Unauthorized),
        },
        None => Err(Unauthorized),
    }
}

/// The view of a header that may be absent.
pub open spec fn header_view(header: Option<&str>) -> Option<Seq<char>> {
    match header {
        Some(s) => Some(s@),
        None => None,
    }
}

/// Tells at `now` whom a request stands for, given its authorization header.
pub fn validate_auth_token_at(header: Option<&str>, service: &AuthService, now: i64) -> (r: Result<
    UserId,
    Unauthorized,
>)
    ensures
        r == request_verdict(header_view(header), service.secret(), now),
{
    match header {
        Some(token) => match service.verify_token_at(token, now) {
            Ok(user) => Ok(user),
            Err(_) => Err(Unauthorized),
        },
        None => Err(Unauthorized),
    }
}

/// Tells by the clock whom a request stands for, given its authorization
/// header.
pub fn validate_auth_token(header: Option<&str>, service: &AuthService) -> (r: Result<UserId, Unauthorized>)
    ensures
        exists|now: i64|
            now >= 0 && r == #[trigger] request_verdict(header_view(header), service.secret(), now),
        header is None ==> r is Err,
{
    let now = unix_now();
    let r = validate_auth_token_at(header, service, now);
    assert(r == request_verdict(header_view(header), service.secret(), now));
    r
}

} // verus!
