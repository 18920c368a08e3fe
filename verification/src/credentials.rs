//! A model of the credential store and of its transactions, and what holds
//! of the authenticator's flows when they run against a store that behaves
//! like it.
//!
//! The store itself is not part of this library. The model says what a
//! transactional store answers to each question of a flow, where any
//! question may fail, so that whole flows can be reasoned about.

use vstd::prelude::*;
use vstd::utf8::encode_utf8;
use crate::auth::{
    mint_and_store, minted, next_step, AuthActionView, AuthResponseView, AuthStateView, FreshView,
    StoreReplyView, UserRecordView,
};
use crate::error::AuthError;
use crate::hasher::{argon2_phc, argon2_verdict, hash_is_faithful};
use crate::ids::UserId;
use crate::password::{admissible, password_verdict};
use crate::token::{
    decoded_claims, hs256_token, signature_is_faithful, token_verdict, ACCESS_TOKEN_LIFETIME_SECS,
    REFRESH_TOKEN_LIFETIME_SECS,
};

verus! {

/// An account as the store keeps it.
pub ghost struct UserRow {
    pub id: UserId,
    pub email: Seq<char>,
    pub password_hash: Seq<char>,
    pub full_name: Option<Seq<char>>,
}

/// A refresh token as the store keeps it.
pub ghost struct RefreshRow {
    pub user_id: UserId,
    pub token: Seq<char>,
    pub expires_at: i64,
}

/// What the credential store holds.
pub ghost struct CredentialStore {
    pub users: Seq<UserRow>,
    pub refresh_tokens: Seq<RefreshRow>,
}

impl CredentialStore {
    /// No two accounts share an email.
    pub open spec fn wf(self) -> bool {
        forall|i: int, j: int|
            0 <= i < self.users.len() && 0 <= j < self.users.len() && #[trigger] self.users[i].email
                == #[trigger] self.users[j].email ==> i == j
    }

    /// Whether an account has the email.
    pub open spec fn has_email(self, email: Seq<char>) -> bool {
        exists|i: int| 0 <= i < self.users.len() && #[trigger] self.users[i].email == email
    }

    /// The account with the email, if there is one.
    pub open spec fn user_by_email(self, email: Seq<char>) -> Option<UserRecordView> {
        if self.has_email(email) {
            let i = choose|i: int| 0 <= i < self.users.len() && #[trigger] self.users[i].email == email;
            Some(
                UserRecordView {
                    id: self.users[i].id,
                    email: self.users[i].email,
                    password_hash: self.users[i].password_hash,
                },
            )
        } else {
            None
        }
    }

    /// Whether row `i` holds the refresh token and has not expired at `now`:
    /// its expiry lies after `now`.
    pub open spec fn honours(self, i: int, token: Seq<char>, now: i64) -> bool {
        &&& 0 <= i < self.refresh_tokens.len()
        &&& self.refresh_tokens[i].token == token
        &&& self.refresh_tokens[i].expires_at > now
    }

    /// Whether the store holds the refresh token in a row that has not
    /// expired at `now`.
    pub open spec fn has_valid_token(self, token: Seq<char>, now: i64) -> bool {
        exists|i: int| #[trigger] self.honours(i, token, now)
    }

    /// Whether every row that holds the refresh token and has not expired at
    /// `now` is `user`'s.
    pub open spec fn token_is_of(self, token: Seq<char>, now: i64, user: UserId) -> bool {
        forall|i: int| #[trigger] self.honours(i, token, now) ==> self.refresh_tokens[i].user_id == user
    }

    /// The owner of a refresh token that has not expired at `now`.
    pub open spec fn owner_of_valid_token(self, token: Seq<char>, now: i64) -> Option<UserId> {
        if self.has_valid_token(token, now) {
            let i = choose|i: int| #[trigger] self.honours(i, token, now);
            Some(self.refresh_tokens[i].user_id)
        } else {
            None
        }
    }

    /// The store with one more account.
    pub open spec fn with_user(self, row: UserRow) -> CredentialStore {
        CredentialStore { users: self.users.push(row), ..self }
    }

    /// The store with one more refresh token.
    pub open spec fn with_token(self, row: RefreshRow) -> CredentialStore {
        CredentialStore { refresh_tokens: self.refresh_tokens.push(row), ..self }
    }
}

/// The store as one connection sees it: what is committed, and what the
/// transaction that is open, if any, has made of it so far.
pub ghost struct Session {
    /// What every reader sees.
    pub committed: CredentialStore,
    /// What the open transaction sees.
    pub open: Option<CredentialStore>,
    /// Whether a question in the open transaction has failed. Nothing
    /// succeeds in it from then on.
    pub broken: bool,
}

impl Session {
    /// A connection with no transaction open.
    pub open spec fn idle(store: CredentialStore) -> Session {
        Session { committed: store, open: None, broken: false }
    }

    /// What this connection sees.
    pub open spec fn seen(self) -> CredentialStore {
        match self.open {
            Some(store) => store,
            None => self.committed,
        }
    }

    /// Whether a question can succeed: no question of the open transaction,
    /// if there is one, has failed.
    pub open spec fn usable(self) -> bool {
        !(self.open is Some && self.broken)
    }

    /// The session after a write: into the open transaction if there is
    /// one, else kept at once.
    pub open spec fn written(self, store: CredentialStore) -> Session {
        if self.open is Some {
            Session { open: Some(store), ..self }
        } else {
            Session { committed: store, ..self }
        }
    }

    /// The session after a question that failed.
    pub open spec fn after_failure(self) -> Session {
        if self.open is Some {
            Session { broken: true, ..self }
        } else {
            self
        }
    }

    /// The session with the open transaction given up.
    pub open spec fn rolled_back(self) -> Session {
        Session::idle(self.committed)
    }

    /// What the store does with a question asked at `now` and what it
    /// answers. `ok` says whether the store lets the question succeed: any
    /// question may fail. `new_id` is the id it gives to an account that it
    /// creates. An email that is taken makes the creation fail.
    pub open spec fn answer(self, action: AuthActionView, ok: bool, now: i64, new_id: UserId) -> (
        Session,
        StoreReplyView,
    ) {
        match action {
            AuthActionView::Begin => if ok {
                (Session { open: Some(self.committed), broken: false, ..self }, StoreReplyView::Begun)
            } else {
                (self, StoreReplyView::Failed)
            },
            AuthActionView::Commit => if ok && self.open is Some && !self.broken {
                (Session::idle(self.open->0), StoreReplyView::Committed)
            } else {
                (self.rolled_back(), StoreReplyView::Failed)
            },
            AuthActionView::FindUserByEmail { email } => if ok && self.usable() {
                (self, StoreReplyView::UserByEmail(self.seen().user_by_email(email)))
            } else {
                (self.after_failure(), StoreReplyView::Failed)
            },
            AuthActionView::CreateUser { email, password_hash, full_name } => if ok && self.usable()
                && !self.seen().has_email(email) {
                (
                    self.written(self.seen().with_user(UserRow { id: new_id, email, password_hash, full_name })),
                    StoreReplyView::UserCreated { id: new_id, email },
                )
            } else {
                (self.after_failure(), StoreReplyView::Failed)
            },
            AuthActionView::StoreRefreshToken { user_id, token, expires_at } => if ok && self.usable() {
                (
                    self.written(self.seen().with_token(RefreshRow { user_id, token, expires_at })),
                    StoreReplyView::RefreshTokenStored,
                )
            } else {
                (self.after_failure(), StoreReplyView::Failed)
            },
            AuthActionView::FindUserByValidRefreshToken { token } => if ok && self.usable() {
                (self, StoreReplyView::RefreshTokenOwner(self.seen().owner_of_valid_token(token, now)))
            } else {
                (self.after_failure(), StoreReplyView::Failed)
            },
            AuthActionView::Finish(_) => (self.rolled_back(), StoreReplyView::Failed),
        }
    }

    /// No two accounts share an email, neither in what is committed nor in
    /// what the open transaction sees.
    pub open spec fn wf(self) -> bool {
        &&& self.committed.wf()
        &&& self.open matches Some(store) ==> store.wf()
    }
}

/// A flow run against the model. `oks` says of each question in turn whether
/// the store lets it succeed; where `oks` runs out the run is cut short, as
/// by a lost connection. A transaction that is open at the end is rolled
/// back. Gives what every reader sees afterwards and how the flow ended.
pub open spec fn run(
    secret: Seq<u8>,
    session: Session,
    state: AuthStateView,
    action: AuthActionView,
    fresh: FreshView,
    new_id: UserId,
    oks: Seq<bool>,
) -> (CredentialStore, Result<AuthResponseView, AuthError>)
    decreases oks.len(),
{
    match action {
        AuthActionView::Finish(outcome) => (session.committed, outcome),
        _ => if oks.len() == 0 {
            (session.committed, Err(AuthError::Store))
        } else {
            let (session_after, reply) = session.answer(action, oks[0], fresh.now, new_id);
            let (state_after, action_after) = next_step(secret, state, reply, fresh);
            run(secret, session_after, state_after, action_after, fresh, new_id, oks.drop_first())
        },
    }
}

/// Whether the store lets each of the first `n` questions succeed.
pub open spec fn all_succeed(oks: Seq<bool>, n: nat) -> bool {
    &&& oks.len() >= n
    &&& forall|i: int| 0 <= i < n ==> #[trigger] oks[i]
}

/// The questions of a registration that goes through: the lookup, the
/// transaction's begin, the account, the refresh token, the commit.
pub open spec fn registration_questions() -> nat {
    5
}

/// The questions of a login or a refresh that goes through: the lookup and
/// the refresh token.
pub open spec fn session_questions() -> nat {
    2
}

/// What a new account holder asks for.
pub ghost struct Registration {
    pub email: Seq<char>,
    pub password: Seq<char>,
    pub full_name: Option<Seq<char>>,
}

/// A registration run against the model from a store with no transaction
/// open.
pub open spec fn registration(
    secret: Seq<u8>,
    store: CredentialStore,
    req: Registration,
    fresh: FreshView,
    new_id: UserId,
    oks: Seq<bool>,
) -> (CredentialStore, Result<AuthResponseView, AuthError>) {
    run(
        secret,
        Session::idle(store),
        AuthStateView::RegisterLookup { email: req.email, password: req.password, full_name: req.full_name },
        AuthActionView::FindUserByEmail { email: req.email },
        fresh,
        new_id,
        oks,
    )
}

/// A login run against the model from a store with no transaction open.
pub open spec fn login(
    secret: Seq<u8>,
    store: CredentialStore,
    email: Seq<char>,
    password: Seq<char>,
    fresh: FreshView,
    oks: Seq<bool>,
) -> (CredentialStore, Result<AuthResponseView, AuthError>) {
    run(
        secret,
        Session::idle(store),
        AuthStateView::LoginLookup { password },
        AuthActionView::FindUserByEmail { email },
        fresh,
        UserId { value: 0 },
        oks,
    )
}

/// A refresh run against the model from a store with no transaction open.
pub open spec fn refresh(
    secret: Seq<u8>,
    store: CredentialStore,
    token: Seq<char>,
    fresh: FreshView,
    oks: Seq<bool>,
) -> (CredentialStore, Result<AuthResponseView, AuthError>) {
    run(
        secret,
        Session::idle(store),
        AuthStateView::RefreshLookup,
        AuthActionView::FindUserByValidRefreshToken { token },
        fresh,
        UserId { value: 0 },
        oks,
    )
}

/// The refresh token that is kept of minted tokens.
pub open spec fn kept_row(user: UserId, fresh: FreshView) -> RefreshRow {
    RefreshRow {
        user_id: user,
        token: fresh.refresh_token,
        expires_at: (fresh.now + REFRESH_TOKEN_LIFETIME_SECS) as i64,
    }
}

/// What the store holds after the minted refresh token was kept.
pub open spec fn with_refresh_token(store: CredentialStore, user: UserId, fresh: FreshView) -> CredentialStore {
    store.with_token(kept_row(user, fresh))
}

/// The account that a registration creates, where the hasher gives a hash.
pub open spec fn new_account(req: Registration, fresh: FreshView, new_id: UserId) -> UserRow {
    UserRow {
        id: new_id,
        email: req.email,
        password_hash: argon2_phc(encode_utf8(req.password), fresh.salt)->0,
        full_name: req.full_name,
    }
}

/// What the store holds after a registration that went through: the new
/// account and its first refresh token.
pub open spec fn registered(
    store: CredentialStore,
    req: Registration,
    fresh: FreshView,
    new_id: UserId,
) -> CredentialStore {
    with_refresh_token(store.with_user(new_account(req, fresh, new_id)), new_id, fresh)
}

/// Whether nothing but the store can stop a registration: the email is
/// free, the password is admitted and the hasher and the signer do their
/// part.
pub open spec fn can_register(secret: Seq<u8>, store: CredentialStore, req: Registration, fresh: FreshView, new_id: UserId) -> bool {
    &&& !store.has_email(req.email)
    &&& admissible(req.password)
    &&& argon2_phc(encode_utf8(req.password), fresh.salt) is Some
    &&& minted(secret, new_id, fresh) is Ok
}

/// The first few of the `oks` of a run, as the runs of the proofs need them.
proof fn unfold_oks(oks: Seq<bool>)
    ensures
        oks.len() >= 1 ==> oks.drop_first().len() == oks.len() - 1,
        oks.len() >= 2 ==> oks.drop_first()[0] == oks[1],
        oks.len() >= 3 ==> oks.drop_first().drop_first()[0] == oks[2],
        oks.len() >= 4 ==> oks.drop_first().drop_first().drop_first()[0] == oks[3],
        oks.len() >= 5 ==> oks.drop_first().drop_first().drop_first().drop_first()[0] == oks[4],
{
}

/// A registration is all or nothing. Whichever questions fail and wherever
/// the run is cut short, readers see afterwards either the store as it was,
/// and the registration has failed, or the store with the new account and
/// its refresh token both in it, and the registration has handed out the
/// tokens. Never is the account kept without the token. They see the latter
/// exactly when the email is free, the password admitted, hash and tokens
/// made, and no question failed.
pub proof fn registration_is_all_or_nothing(
    secret: Seq<u8>,
    store: CredentialStore,
    req: Registration,
    fresh: FreshView,
    new_id: UserId,
    oks: Seq<bool>,
)
    ensures
        ({
            let (after, outcome) = registration(secret, store, req, fresh, new_id, oks);
            let through = can_register(secret, store, req, fresh, new_id) && all_succeed(
                oks,
                registration_questions(),
            );
            &&& through ==> after == registered(store, req, fresh, new_id) && outcome == minted(
                secret,
                new_id,
                fresh,
            )
            &&& !through ==> after == store && outcome is Err
        }),
{
    reveal_with_fuel(run, 7);
    unfold_oks(oks);
}

/// A registration with a password that the admission policy turns down
/// fails, whatever the store does, and the store is left as it was: no
/// account is created. Where the email is free and the lookup is answered,
/// the error names the rule that failed.
pub proof fn weak_password_creates_no_account(
    secret: Seq<u8>,
    store: CredentialStore,
    req: Registration,
    fresh: FreshView,
    new_id: UserId,
    oks: Seq<bool>,
)
    requires
        !admissible(req.password),
    ensures
        registration(secret, store, req, fresh, new_id, oks).0 == store,
        registration(secret, store, req, fresh, new_id, oks).1 is Err,
        !store.has_email(req.email) && all_succeed(oks, 1) ==> registration(
            secret,
            store,
            req,
            fresh,
            new_id,
            oks,
        ).1 == Err::<AuthResponseView, AuthError>(
            AuthError::WeakPassword(password_verdict(req.password)->Err_0),
        ),
{
    reveal_with_fuel(run, 3);
    registration_is_all_or_nothing(secret, store, req, fresh, new_id, oks);
}

/// A registration for an email that has an account fails, and the store is
/// left as it was.
pub proof fn taken_email_is_refused(
    secret: Seq<u8>,
    store: CredentialStore,
    req: Registration,
    fresh: FreshView,
    new_id: UserId,
    oks: Seq<bool>,
)
    requires
        store.has_email(req.email),
        all_succeed(oks, 1),
    ensures
        registration(secret, store, req, fresh, new_id, oks) == (
            store,
            Err::<AuthResponseView, AuthError>(AuthError::UserExists),
        ),
{
    reveal_with_fuel(run, 3);
}

/// Once the user is known, a login or a refresh ends in one more question.
/// Either minting fails, or the store fails or the run is cut short, and the
/// store is left as it was; or the tokens are handed out and the store has
/// one more refresh token, good for an hour.
pub proof fn minting_round(
    secret: Seq<u8>,
    store: CredentialStore,
    user: UserId,
    fresh: FreshView,
    new_id: UserId,
    oks: Seq<bool>,
)
    ensures
        ({
            let (state, action) = mint_and_store(secret, user, fresh);
            run(secret, Session::idle(store), state, action, fresh, new_id, oks) == match minted(
                secret,
                user,
                fresh,
            ) {
                Ok(response) => if all_succeed(oks, 1) {
                    (with_refresh_token(store, user, fresh), Ok(response))
                } else {
                    (store, Err(AuthError::Store))
                },
                Err(e) => (store, Err(e)),
            }
        }),
{
    reveal_with_fuel(run, 3);
    unfold_oks(oks);
}

/// A login with an email that has no account and a login with a wrong
/// password end alike, whatever the store does: the same outcome, hence the
/// same text, and the store left as it was. Where the lookup is answered,
/// the outcome is the one error that tells no more than that the
/// credentials are not valid.
pub proof fn login_failures_are_alike(
    secret: Seq<u8>,
    store: CredentialStore,
    unknown_email: Seq<char>,
    known_email: Seq<char>,
    password: Seq<char>,
    fresh: FreshView,
    oks: Seq<bool>,
)
    requires
        !store.has_email(unknown_email),
        store.user_by_email(known_email) matches Some(record) && argon2_verdict(
            encode_utf8(password),
            record.password_hash,
        ) == Some(false),
    ensures
        login(secret, store, known_email, password, fresh, oks) == login(
            secret,
            store,
            unknown_email,
            password,
            fresh,
            oks,
        ),
        login(secret, store, unknown_email, password, fresh, oks).0 == store,
        all_succeed(oks, 1) ==> login(secret, store, unknown_email, password, fresh, oks).1 == Err::<
            AuthResponseView,
            AuthError,
        >(AuthError::InvalidCredentials),
{
    reveal_with_fuel(run, 3);
}

/// After a registration that succeeded, a login with the same email and
/// password gets past the credentials and ends as the minting of its tokens
/// does: it succeeds wherever the tokens can be minted and the store keeps
/// the refresh token. It is then for the same account, and its access token
/// is honoured at the time of the login.
///
/// This holds where the hasher matches what it hashed and the signer's
/// tokens decode to what was signed, as every hash and every signature that
/// this library makes do.
pub proof fn login_after_registration(
    secret: Seq<u8>,
    store: CredentialStore,
    req: Registration,
    fresh: FreshView,
    new_id: UserId,
    oks: Seq<bool>,
    later: FreshView,
    later_oks: Seq<bool>,
)
    requires
        registration(secret, store, req, fresh, new_id, oks).1 is Ok,
        hash_is_faithful(req.password, fresh.salt),
        signature_is_faithful(secret, new_id, later.now),
        all_succeed(later_oks, session_questions()),
    ensures
        ({
            let (store_after, registered) = registration(secret, store, req, fresh, new_id, oks);
            let (_, logged_in) = login(secret, store_after, req.email, req.password, later, later_oks);
            &&& registered->Ok_0.user_uid == new_id
            &&& logged_in == minted(secret, new_id, later)
            &&& logged_in matches Ok(response) ==> response.user_uid == new_id && token_verdict(
                decoded_claims(response.access_token, secret),
                later.now,
            ) == Ok::<UserId, AuthError>(new_id)
        }),
{
    registration_is_all_or_nothing(secret, store, req, fresh, new_id, oks);
    let row = new_account(req, fresh, new_id);
    let created = store.with_user(row);
    let store_after = registered(store, req, fresh, new_id);
    assert(store_after.users == store.users.push(row));
    assert(store_after.users[store.users.len() as int].email == req.email);
    assert(store_after.has_email(req.email));
    let i = choose|i: int| 0 <= i < store_after.users.len() && #[trigger] store_after.users[i].email == req.email;
    if i < store.users.len() {
        assert(store.users[i].email == req.email);
        assert(false);
    }
    assert(store_after.user_by_email(req.email)->0.password_hash == row.password_hash);
    assert(store_after.user_by_email(req.email)->0.id == new_id);
    reveal_with_fuel(run, 2);
    unfold_oks(later_oks);
    minting_round(secret, store_after, new_id, later, UserId { value: 0 }, later_oks.drop_first());
}

/// A refresh token that the store does not hold, or holds only in rows that
/// have expired, is rejected, whatever the store does, and the store is left
/// as it was.
pub proof fn unknown_or_expired_refresh_token_is_rejected(
    secret: Seq<u8>,
    store: CredentialStore,
    token: Seq<char>,
    fresh: FreshView,
    oks: Seq<bool>,
)
    requires
        !store.has_valid_token(token, fresh.now),
    ensures
        refresh(secret, store, token, fresh, oks).0 == store,
        refresh(secret, store, token, fresh, oks).1 is Err,
        all_succeed(oks, 1) ==> refresh(secret, store, token, fresh, oks).1 == Err::<
            AuthResponseView,
            AuthError,
        >(AuthError::InvalidRefreshToken),
{
    reveal_with_fuel(run, 3);
}

/// A refresh token that the store holds and that has not expired is traded
/// for new tokens for its owner, where the store answers: the refresh ends
/// as the minting of the tokens for the owner does. The owner is the user of
/// a row that holds the token and has not expired; where all such rows are
/// one user's, it is that user. Where the tokens are minted, the access
/// token is the one signed for the owner at the time of the refresh, and the
/// new refresh token is kept beside the old one, which is still honoured.
pub proof fn valid_refresh_token_yields_tokens_for_its_owner(
    secret: Seq<u8>,
    store: CredentialStore,
    token: Seq<char>,
    fresh: FreshView,
    oks: Seq<bool>,
)
    requires
        store.has_valid_token(token, fresh.now),
        all_succeed(oks, session_questions()),
    ensures
        ({
            let owner = store.owner_of_valid_token(token, fresh.now)->0;
            let (store_after, outcome) = refresh(secret, store, token, fresh, oks);
            &&& exists|i: int| #[trigger] store.honours(i, token, fresh.now) && store.refresh_tokens[i].user_id == owner
            &&& forall|user: UserId| #[trigger] store.token_is_of(token, fresh.now, user) ==> owner == user
            &&& outcome == minted(secret, owner, fresh)
            &&& outcome is Err ==> store_after == store
            &&& outcome matches Ok(response) ==> {
                &&& response.user_uid == owner
                &&& response.refresh_token == fresh.refresh_token
                &&& hs256_token(
                    owner.value,
                    (fresh.now + ACCESS_TOKEN_LIFETIME_SECS) as i64,
                    fresh.now,
                    secret,
                ) == Some(response.access_token)
                &&& signature_is_faithful(secret, owner, fresh.now) ==> token_verdict(
                    decoded_claims(response.access_token, secret),
                    fresh.now,
                ) == Ok::<UserId, AuthError>(owner)
                &&& store_after == with_refresh_token(store, owner, fresh)
                &&& store_after.has_valid_token(token, fresh.now)
            }
        }),
{
    reveal_with_fuel(run, 2);
    unfold_oks(oks);
    let owner = store.owner_of_valid_token(token, fresh.now)->0;
    minting_round(secret, store, owner, fresh, UserId { value: 0 }, oks.drop_first());
    let i = choose|i: int| #[trigger] store.honours(i, token, fresh.now);
    assert(store.honours(i, token, fresh.now) && store.refresh_tokens[i].user_id == owner);
    let store_after = with_refresh_token(store, owner, fresh);
    assert(store_after.refresh_tokens[i] == store.refresh_tokens[i]);
    assert(store_after.honours(i, token, fresh.now));
}

/// A login or a refresh writes once or not at all. Whichever questions fail
/// and wherever the run is cut short, readers see afterwards either the
/// store as it was or the store with the one new refresh token in it.
pub proof fn session_flows_write_once_or_not_at_all(
    secret: Seq<u8>,
    store: CredentialStore,
    email: Seq<char>,
    password: Seq<char>,
    token: Seq<char>,
    fresh: FreshView,
    oks: Seq<bool>,
)
    ensures
        ({
            let after = login(secret, store, email, password, fresh, oks).0;
            after == store || exists|user: UserId| after == #[trigger] with_refresh_token(store, user, fresh)
        }),
        ({
            let after = refresh(secret, store, token, fresh, oks).0;
            after == store || exists|user: UserId| after == #[trigger] with_refresh_token(store, user, fresh)
        }),
        login(secret, store, email, password, fresh, oks).1 is Ok ==> login(
            secret,
            store,
            email,
            password,
            fresh,
            oks,
        ).0 != store,
        refresh(secret, store, token, fresh, oks).1 is Ok ==> refresh(secret, store, token, fresh, oks).0
            != store,
{
    reveal_with_fuel(run, 2);
    unfold_oks(oks);
    if oks.len() > 0 && oks[0] {
        match store.user_by_email(email) {
            Some(record) => {
                minting_round(secret, store, record.id, fresh, UserId { value: 0 }, oks.drop_first());
                let kept = with_refresh_token(store, record.id, fresh);
                assert(kept.refresh_tokens.len() == store.refresh_tokens.len() + 1);
            },
            None => {},
        }
        match store.owner_of_valid_token(token, fresh.now) {
            Some(owner) => {
                minting_round(secret, store, owner, fresh, UserId { value: 0 }, oks.drop_first());
                let kept = with_refresh_token(store, owner, fresh);
                assert(kept.refresh_tokens.len() == store.refresh_tokens.len() + 1);
            },
            None => {},
        }
    }
}

/// A refresh token that was kept is honoured for an hour from its issue, and
/// no longer.
pub proof fn kept_refresh_token_lasts_an_hour(store: CredentialStore, user: UserId, fresh: FreshView, at: i64)
    requires
        fresh.now + REFRESH_TOKEN_LIFETIME_SECS <= i64::MAX,
        !store.has_valid_token(fresh.refresh_token, at),
    ensures
        with_refresh_token(store, user, fresh).has_valid_token(fresh.refresh_token, at) <==> at < fresh.now
            + REFRESH_TOKEN_LIFETIME_SECS,
        at < fresh.now + REFRESH_TOKEN_LIFETIME_SECS ==> with_refresh_token(
            store,
            user,
            fresh,
        ).owner_of_valid_token(fresh.refresh_token, at) == Some(user),
{
    let after = with_refresh_token(store, user, fresh);
    let last = store.refresh_tokens.len() as int;
    assert(after.refresh_tokens[last] == kept_row(user, fresh));
    assert forall|i: int| after.honours(i, fresh.refresh_token, at) implies i == last by {
        if i < last {
            assert(after.refresh_tokens[i] == store.refresh_tokens[i]);
            assert(store.honours(i, fresh.refresh_token, at));
        }
    }
    if at < fresh.now + REFRESH_TOKEN_LIFETIME_SECS {
        assert(after.honours(last, fresh.refresh_token, at));
    }
}

/// Whatever is asked of it, the store keeps its emails apart: no two
/// accounts share one afterwards if none did before.
pub proof fn answers_keep_emails_apart(session: Session, action: AuthActionView, ok: bool, now: i64, new_id: UserId)
    requires
        session.wf(),
    ensures
        session.answer(action, ok, now, new_id).0.wf(),
{
    match action {
        AuthActionView::CreateUser { email, password_hash, full_name } => {
            let before = session.seen();
            if ok && session.usable() && !before.has_email(email) {
                let row = UserRow { id: new_id, email, password_hash, full_name };
                let after = before.with_user(row);
                assert forall|i: int, j: int|
                    0 <= i < after.users.len() && 0 <= j < after.users.len() && #[trigger] after.users[i].email
                        == #[trigger] after.users[j].email implies i == j by {
                    if i < before.users.len() && j < before.users.len() {
                        assert(before.users[i].email == before.users[j].email);
                    } else if i < before.users.len() {
                        assert(before.users[i].email == email);
                    } else if j < before.users.len() {
                        assert(before.users[j].email == email);
                    }
                }
            }
        },
        _ => {},
    }
}

} // verus!
