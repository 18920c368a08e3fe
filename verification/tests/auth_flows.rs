use account_ledger::auth::{
    validate_auth_token, validate_auth_token_at, AuthAction, AuthResponse, AuthService, AuthState, Fresh,
    LoginRequest, RefreshTokenRequest, RegisterRequest, StoreReply, Unauthorized, UserRecord,
};
use account_ledger::error::{AuthError, ErrorClass};
use account_ledger::hasher::verify_password;
use account_ledger::ids::UserId;
use account_ledger::password::PasswordError;

const SALT: &str = "c29tZXNhbHR2YWx1ZQ";

#[derive(Clone)]
struct RefreshRow {
    user: UserId,
    token: String,
    expires_at: i64,
}

#[derive(Clone)]
struct Tables {
    users: Vec<(UserRecord, Option<String>)>,
    refresh: Vec<RefreshRow>,
}

/// A credential store in memory with one transaction at a time, in which a
/// chosen question can be made to fail.
struct Store {
    users: Vec<(UserRecord, Option<String>)>,
    refresh: Vec<RefreshRow>,
    open: Option<Tables>,
    broken: bool,
    next_id: u128,
    now: i64,
    down: bool,
    questions: usize,
    fail_at: Option<usize>,
}

impl Store {
    fn new(now: i64) -> Store {
        Store {
            users: Vec::new(),
            refresh: Vec::new(),
            open: None,
            broken: false,
            next_id: 1,
            now,
            down: false,
            questions: 0,
            fail_at: None,
        }
    }

    fn seen(&self) -> Tables {
        match &self.open {
            Some(tables) => tables.clone(),
            None => Tables { users: self.users.clone(), refresh: self.refresh.clone() },
        }
    }

    fn write(&mut self, tables: Tables) {
        if self.open.is_some() {
            self.open = Some(tables);
        } else {
            self.users = tables.users;
            self.refresh = tables.refresh;
        }
    }

    fn fail(&mut self) -> StoreReply {
        if self.open.is_some() {
            self.broken = true;
        }
        StoreReply::Failed
    }

    fn rollback(&mut self) {
        self.open = None;
        self.broken = false;
    }

    fn answer(&mut self, action: &AuthAction) -> StoreReply {
        let index = self.questions;
        self.questions += 1;
        let ok = !self.down && self.fail_at != Some(index);
        let usable = !(self.open.is_some() && self.broken);
        match action {
            AuthAction::Begin => {
                if !ok {
                    return StoreReply::Failed;
                }
                self.open = Some(Tables { users: self.users.clone(), refresh: self.refresh.clone() });
                self.broken = false;
                StoreReply::Begun
            }
            AuthAction::Commit => {
                let tables = self.open.take();
                let broken = self.broken;
                self.broken = false;
                match tables {
                    Some(tables) if ok && !broken => {
                        self.users = tables.users;
                        self.refresh = tables.refresh;
                        StoreReply::Committed
                    }
                    _ => StoreReply::Failed,
                }
            }
            AuthAction::FindUserByEmail { email } => {
                if !ok || !usable {
                    return self.fail();
                }
                StoreReply::UserByEmail(self.seen().users.iter().find(|u| &u.0.email == email).map(|u| u.0.clone()))
            }
            AuthAction::CreateUser { email, password_hash, full_name } => {
                let mut tables = self.seen();
                if !ok || !usable || tables.users.iter().any(|u| &u.0.email == email) {
                    return self.fail();
                }
                let id = UserId::new(self.next_id);
                self.next_id += 1;
                let record = UserRecord { id, email: email.clone(), password_hash: password_hash.clone() };
                tables.users.push((record, full_name.clone()));
                self.write(tables);
                StoreReply::UserCreated { id, email: email.clone() }
            }
            AuthAction::StoreRefreshToken { user_id, token, expires_at } => {
                if !ok || !usable {
                    return self.fail();
                }
                let mut tables = self.seen();
                tables.refresh.push(RefreshRow { user: *user_id, token: token.clone(), expires_at: *expires_at });
                self.write(tables);
                StoreReply::RefreshTokenStored
            }
            AuthAction::FindUserByValidRefreshToken { token } => {
                if !ok || !usable {
                    return self.fail();
                }
                let now = self.now;
                StoreReply::RefreshTokenOwner(
                    self.seen().refresh.iter().find(|r| &r.token == token && r.expires_at > now).map(|r| r.user),
                )
            }
            AuthAction::Finish(_) => StoreReply::Failed,
        }
    }
}

fn fresh(now: i64, token: &str) -> Fresh {
    Fresh { now, salt: SALT.to_string(), refresh_token: token.to_string() }
}

fn drive(
    service: &AuthService,
    store: &mut Store,
    start: (AuthState, AuthAction),
    fresh: &Fresh,
) -> Result<AuthResponse, AuthError> {
    let (mut state, mut action) = start;
    for _ in 0..8 {
        if let AuthAction::Finish(outcome) = action {
            store.rollback();
            return outcome;
        }
        let reply = store.answer(&action);
        let next = service.step_with(state, reply, fresh);
        state = next.0;
        action = next.1;
    }
    panic!("the flow did not end");
}

fn register(service: &AuthService, store: &mut Store, email: &str, password: &str, f: &Fresh) -> Result<AuthResponse, AuthError> {
    let req = RegisterRequest { email: email.to_string(), password: password.to_string(), full_name: Some("Ada".to_string()) };
    drive(service, store, service.register(req), f)
}

fn login(service: &AuthService, store: &mut Store, email: &str, password: &str, f: &Fresh) -> Result<AuthResponse, AuthError> {
    let req = LoginRequest { email: email.to_string(), password: password.to_string() };
    drive(service, store, service.login(req), f)
}

fn refresh(service: &AuthService, store: &mut Store, token: &str, f: &Fresh) -> Result<AuthResponse, AuthError> {
    let req = RefreshTokenRequest { refresh_token: token.to_string() };
    drive(service, store, service.refresh_token(req.refresh_token), f)
}

fn service() -> AuthService {
    AuthService::new("a-test-secret".to_string())
}

#[test]
fn register_starts_with_lookup() {
    let s = service();
    let req = RegisterRequest { email: "a@b.co".to_string(), password: "Abcdef1!".to_string(), full_name: None };
    let (state, action) = s.register(req);
    assert_eq!(
        state,
        AuthState::RegisterLookup { email: "a@b.co".to_string(), password: "Abcdef1!".to_string(), full_name: None }
    );
    assert_eq!(action, AuthAction::FindUserByEmail { email: "a@b.co".to_string() });
}

#[test]
fn login_and_refresh_start_with_lookup() {
    let s = service();
    let (state, action) = s.login(LoginRequest { email: "a@b.co".to_string(), password: "pw".to_string() });
    assert_eq!(state, AuthState::LoginLookup { password: "pw".to_string() });
    assert_eq!(action, AuthAction::FindUserByEmail { email: "a@b.co".to_string() });
    let (state, action) = s.refresh_token("tok".to_string());
    assert_eq!(state, AuthState::RefreshLookup);
    assert_eq!(action, AuthAction::FindUserByValidRefreshToken { token: "tok".to_string() });
}

#[test]
fn registration_creates_account_and_tokens() {
    let s = service();
    let mut store = Store::new(1_700_000_000);
    let out = register(&s, &mut store, "a@b.co", "Abcdef1!", &fresh(1_700_000_000, "r-1")).unwrap();
    assert_eq!(out.user_uid, UserId::new(1));
    assert_eq!(out.refresh_token, "r-1");
    assert_eq!(s.verify_token_at(&out.access_token, 1_700_000_000), Ok(UserId::new(1)));
    assert_eq!(store.users.len(), 1);
    assert_eq!(store.users[0].0.email, "a@b.co");
    assert_eq!(store.users[0].1, Some("Ada".to_string()));
    assert_ne!(store.users[0].0.password_hash, "Abcdef1!");
    assert_eq!(verify_password("Abcdef1!", &store.users[0].0.password_hash), Ok(true));
    assert_eq!(store.refresh.len(), 1);
    assert_eq!(store.refresh[0].user, UserId::new(1));
    assert_eq!(store.refresh[0].token, "r-1");
    assert_eq!(store.refresh[0].expires_at, 1_700_003_600);
}

#[test]
fn login_after_registration_succeeds() {
    let s = service();
    let mut store = Store::new(1_700_000_000);
    let registered = register(&s, &mut store, "a@b.co", "Abcdef1!", &fresh(1_700_000_000, "r-1")).unwrap();
    let logged_in = login(&s, &mut store, "a@b.co", "Abcdef1!", &fresh(1_700_000_050, "r-2")).unwrap();
    assert_eq!(logged_in.user_uid, registered.user_uid);
    assert_eq!(logged_in.refresh_token, "r-2");
    assert_eq!(s.verify_token_at(&logged_in.access_token, 1_700_000_050), Ok(registered.user_uid));
    assert_eq!(s.verify_token_at(&logged_in.access_token, 1_700_000_050 + 300), Ok(registered.user_uid));
    assert_eq!(s.verify_token_at(&logged_in.access_token, 1_700_000_050 + 911), Err(AuthError::InvalidToken));
    assert_eq!(store.refresh.len(), 2);
}

#[test]
fn weak_password_creates_no_account() {
    let s = service();
    let f = fresh(1_700_000_000, "r-1");
    let cases = [
        ("Ab1!", PasswordError::TooShort),
        ("abcdef1!", PasswordError::NoUppercase),
        ("ABCDEF1!", PasswordError::NoLowercase),
        ("Abcdefg!", PasswordError::NoDigit),
        ("Abcdefg1", PasswordError::NoSpecial),
    ];
    for (password, rule) in cases {
        let mut store = Store::new(1_700_000_000);
        assert_eq!(register(&s, &mut store, "a@b.co", password, &f), Err(AuthError::WeakPassword(rule)));
        assert!(store.users.is_empty());
        assert!(store.refresh.is_empty());
    }
}

#[test]
fn taken_email_is_refused() {
    let s = service();
    let mut store = Store::new(1_700_000_000);
    register(&s, &mut store, "a@b.co", "Abcdef1!", &fresh(1_700_000_000, "r-1")).unwrap();
    assert_eq!(
        register(&s, &mut store, "a@b.co", "Other9?x", &fresh(1_700_000_001, "r-2")),
        Err(AuthError::UserExists)
    );
    assert_eq!(store.users.len(), 1);
    // The email is checked before the password.
    assert_eq!(register(&s, &mut store, "a@b.co", "weak", &fresh(1_700_000_001, "r-2")), Err(AuthError::UserExists));
}

#[test]
fn login_failures_are_alike() {
    let s = service();
    let mut store = Store::new(1_700_000_000);
    register(&s, &mut store, "a@b.co", "Abcdef1!", &fresh(1_700_000_000, "r-1")).unwrap();
    let f = fresh(1_700_000_010, "r-2");
    let wrong_password = login(&s, &mut store, "a@b.co", "Abcdef1?", &f).unwrap_err();
    let unknown_email = login(&s, &mut store, "x@y.zz", "Abcdef1!", &f).unwrap_err();
    assert_eq!(wrong_password, AuthError::InvalidCredentials);
    assert_eq!(wrong_password, unknown_email);
    assert_eq!(wrong_password.message(), unknown_email.message());
    assert_eq!(wrong_password.message(), "Invalid credentials");
    assert_eq!(store.refresh.len(), 1);
}

#[test]
fn login_with_unreadable_hash_fails() {
    let s = service();
    let state = AuthState::LoginLookup { password: "Abcdef1!".to_string() };
    let record = UserRecord { id: UserId::new(5), email: "a@b.co".to_string(), password_hash: "plain".to_string() };
    let (state, action) = s.step_with(state, StoreReply::UserByEmail(Some(record)), &fresh(0, "r"));
    assert_eq!(state, AuthState::Done);
    assert_eq!(action, AuthAction::Finish(Err(AuthError::UnreadableHash)));
    assert_eq!(AuthError::UnreadableHash.message(), "unable to generate password");
}

#[test]
fn refresh_with_valid_token_yields_tokens_for_owner() {
    let s = service();
    let mut store = Store::new(1_700_000_000);
    let registered = register(&s, &mut store, "a@b.co", "Abcdef1!", &fresh(1_700_000_000, "r-1")).unwrap();
    store.now = 1_700_003_599;
    let out = refresh(&s, &mut store, "r-1", &fresh(1_700_003_599, "r-2")).unwrap();
    assert_eq!(out.user_uid, registered.user_uid);
    assert_eq!(out.refresh_token, "r-2");
    assert_ne!(out.access_token, registered.access_token);
    assert_eq!(s.verify_token_at(&out.access_token, 1_700_003_599), Ok(registered.user_uid));
    // The old token stays beside the new one.
    assert_eq!(store.refresh.len(), 2);
    assert_eq!(store.refresh[0].token, "r-1");
    assert_eq!(store.refresh[1].token, "r-2");
    assert_eq!(store.refresh[1].expires_at, 1_700_003_599 + 3600);
    assert!(refresh(&s, &mut store, "r-1", &fresh(1_700_003_599, "r-3")).is_ok());
}

#[test]
fn refresh_with_expired_or_unknown_token_is_rejected() {
    let s = service();
    let mut store = Store::new(1_700_000_000);
    register(&s, &mut store, "a@b.co", "Abcdef1!", &fresh(1_700_000_000, "r-1")).unwrap();
    assert_eq!(
        refresh(&s, &mut store, "r-0", &fresh(1_700_000_000, "r-2")),
        Err(AuthError::InvalidRefreshToken)
    );
    store.now = 1_700_003_600;
    assert_eq!(
        refresh(&s, &mut store, "r-1", &fresh(1_700_003_600, "r-2")),
        Err(AuthError::InvalidRefreshToken)
    );
    assert_eq!(store.refresh.len(), 1);
    assert_eq!(AuthError::InvalidRefreshToken.message(), "Invalid refresh token");
}

#[test]
fn store_failure_ends_the_flow() {
    let s = service();
    let mut store = Store::new(1_700_000_000);
    store.down = true;
    let f = fresh(1_700_000_000, "r-1");
    assert_eq!(register(&s, &mut store, "a@b.co", "Abcdef1!", &f), Err(AuthError::Store));
    assert_eq!(login(&s, &mut store, "a@b.co", "Abcdef1!", &f), Err(AuthError::Store));
    assert_eq!(refresh(&s, &mut store, "r-1", &f), Err(AuthError::Store));
}

#[test]
fn answer_that_does_not_fit_ends_the_flow() {
    let s = service();
    let f = fresh(0, "r");
    let (state, action) = s.step_with(AuthState::RefreshLookup, StoreReply::RefreshTokenStored, &f);
    assert_eq!(state, AuthState::Done);
    assert_eq!(action, AuthAction::Finish(Err(AuthError::Store)));
    let (state, action) = s.step_with(AuthState::Done, StoreReply::RefreshTokenStored, &f);
    assert_eq!(state, AuthState::Done);
    assert_eq!(action, AuthAction::Finish(Err(AuthError::Store)));
}

#[test]
fn bad_salt_fails_hashing() {
    let s = service();
    let state = AuthState::RegisterLookup { email: "a@b.co".to_string(), password: "Abcdef1!".to_string(), full_name: None };
    let f = Fresh { now: 0, salt: "!".to_string(), refresh_token: "r".to_string() };
    let (state, action) = s.step_with(state, StoreReply::UserByEmail(None), &f);
    assert_eq!(state, AuthState::Done);
    assert_eq!(action, AuthAction::Finish(Err(AuthError::HashingFailed)));
}

#[test]
fn time_out_of_range_is_an_error() {
    let s = service();
    let f = fresh(i64::MAX - 3599, "r");
    assert_eq!(s.generate_tokens(UserId::new(1), &f), Err(AuthError::TimeOutOfRange));
    let (state, action) = s.step_with(AuthState::RefreshLookup, StoreReply::RefreshTokenOwner(Some(UserId::new(1))), &f);
    assert_eq!(state, AuthState::Done);
    assert_eq!(action, AuthAction::Finish(Err(AuthError::TimeOutOfRange)));
}

#[test]
fn generate_tokens_mints_both() {
    let s = service();
    let out = s.generate_tokens(UserId::new(9), &fresh(1_700_000_000, "r-9")).unwrap();
    assert_eq!(out.user_uid, UserId::new(9));
    assert_eq!(out.refresh_token, "r-9");
    assert_eq!(s.verify_token_at(&out.access_token, 1_700_000_910), Ok(UserId::new(9)));
    assert_eq!(s.verify_token_at(&out.access_token, 1_700_000_911), Err(AuthError::InvalidToken));
    let other = AuthService::new("another".to_string());
    assert_eq!(other.verify_token_at(&out.access_token, 1_700_000_000), Err(AuthError::InvalidToken));
}

#[test]
fn fresh_draws_differ() {
    let a = Fresh::draw();
    let b = Fresh::draw();
    assert!(a.now > 1_600_000_000);
    assert_eq!(a.refresh_token.len(), 36);
    assert_eq!(a.refresh_token.matches('-').count(), 4);
    assert_ne!(a.refresh_token, b.refresh_token);
    assert_eq!(a.salt.len(), 22);
    assert_ne!(a.salt, b.salt);
}

#[test]
fn flows_run_on_drawn_values() {
    let s = service();
    let req = RegisterRequest { email: "a@b.co".to_string(), password: "Abcdef1!".to_string(), full_name: None };
    let (state, _) = s.register(req);
    let (state, action) = s.step(state, StoreReply::UserByEmail(None));
    assert_eq!(action, AuthAction::Begin);
    let hash = match &state {
        AuthState::RegisterBegin { email, password_hash, full_name } => {
            assert_eq!(email, "a@b.co");
            assert_eq!(full_name, &None);
            password_hash.clone()
        }
        other => panic!("unexpected state {:?}", other),
    };
    assert_eq!(verify_password("Abcdef1!", &hash), Ok(true));
    let (state, action) = s.step(state, StoreReply::Begun);
    assert_eq!(state, AuthState::RegisterCreate);
    assert_eq!(
        action,
        AuthAction::CreateUser { email: "a@b.co".to_string(), password_hash: hash, full_name: None }
    );
    let (state, action) = s.step(state, StoreReply::UserCreated { id: UserId::new(3), email: "a@b.co".to_string() });
    let response = match state {
        AuthState::RegisterStore { response } => response,
        other => panic!("unexpected state {:?}", other),
    };
    match action {
        AuthAction::StoreRefreshToken { user_id, token, expires_at } => {
            assert_eq!(user_id, UserId::new(3));
            assert_eq!(token, response.refresh_token);
            assert!(expires_at > 1_600_003_600);
        }
        other => panic!("unexpected action {:?}", other),
    }
    assert_eq!(s.verify_token(&response.access_token), Ok(UserId::new(3)));
    let (state, action) = s.step(AuthState::RegisterStore { response: response.clone() }, StoreReply::RefreshTokenStored);
    assert_eq!(state, AuthState::RegisterCommit { response: response.clone() });
    assert_eq!(action, AuthAction::Commit);
    let (state, action) = s.step(state, StoreReply::Committed);
    assert_eq!(state, AuthState::Done);
    assert_eq!(action, AuthAction::Finish(Ok(response)));
}

#[test]
fn registration_asks_five_questions_in_one_transaction() {
    let s = service();
    let mut store = Store::new(1_700_000_000);
    register(&s, &mut store, "a@b.co", "Abcdef1!", &fresh(1_700_000_000, "r-1")).unwrap();
    assert_eq!(store.questions, 5);
    assert!(store.open.is_none());
    assert_eq!(store.users.len(), 1);
    assert_eq!(store.refresh.len(), 1);
}

#[test]
fn registration_keeps_no_account_without_its_token() {
    let s = service();
    let mut store = Store::new(1_700_000_000);
    // Questions: 0 lookup, 1 begin, 2 account, 3 refresh token, 4 commit.
    store.fail_at = Some(3);
    assert_eq!(
        register(&s, &mut store, "a@b.co", "Abcdef1!", &fresh(1_700_000_000, "r-1")),
        Err(AuthError::Store)
    );
    assert!(store.users.is_empty());
    assert!(store.refresh.is_empty());
    assert!(store.open.is_none());
    // The email is still free.
    store.fail_at = None;
    assert!(register(&s, &mut store, "a@b.co", "Abcdef1!", &fresh(1_700_000_001, "r-2")).is_ok());
}

#[test]
fn registration_is_all_or_nothing() {
    let s = service();
    for fail_at in 0..5 {
        let mut store = Store::new(1_700_000_000);
        store.fail_at = Some(fail_at);
        assert_eq!(
            register(&s, &mut store, "a@b.co", "Abcdef1!", &fresh(1_700_000_000, "r-1")),
            Err(AuthError::Store)
        );
        assert!(store.users.is_empty());
        assert!(store.refresh.is_empty());
    }
}

#[test]
fn registration_that_cannot_mint_rolls_back() {
    let s = service();
    let mut store = Store::new(1_700_000_000);
    let f = fresh(i64::MAX - 3599, "r-1");
    assert_eq!(register(&s, &mut store, "a@b.co", "Abcdef1!", &f), Err(AuthError::TimeOutOfRange));
    assert!(store.users.is_empty());
    assert!(store.refresh.is_empty());
}

#[test]
fn login_writes_once_or_not_at_all() {
    let s = service();
    let mut store = Store::new(1_700_000_000);
    register(&s, &mut store, "a@b.co", "Abcdef1!", &fresh(1_700_000_000, "r-1")).unwrap();
    for fail_at in 0..2 {
        store.questions = 0;
        store.fail_at = Some(fail_at);
        assert_eq!(
            login(&s, &mut store, "a@b.co", "Abcdef1!", &fresh(1_700_000_010, "r-2")),
            Err(AuthError::Store)
        );
        assert_eq!(store.refresh.len(), 1);
        assert_eq!(store.users.len(), 1);
    }
}

#[test]
fn verify_token_by_the_clock() {
    let s = service();
    let live = s.generate_tokens(UserId::new(4), &Fresh::draw()).unwrap();
    assert_eq!(s.verify_token(&live.access_token), Ok(UserId::new(4)));
    let stale = s.generate_tokens(UserId::new(4), &fresh(1_000_000_000, "r")).unwrap();
    assert_eq!(s.verify_token(&stale.access_token), Err(AuthError::InvalidToken));
    assert_eq!(s.verify_token("garbage"), Err(AuthError::InvalidToken));
    assert_eq!(AuthError::InvalidToken.message(), "Invalid token");
}

#[test]
fn request_without_header_is_unauthorized() {
    let s = service();
    assert_eq!(validate_auth_token(None, &s), Err(Unauthorized));
    assert_eq!(validate_auth_token_at(None, &s, 0), Err(Unauthorized));
    assert_eq!(validate_auth_token(Some("garbage"), &s), Err(Unauthorized));
}

#[test]
fn request_with_token_names_the_caller() {
    let s = service();
    let out = s.generate_tokens(UserId::new(4), &fresh(1_700_000_000, "r")).unwrap();
    assert_eq!(validate_auth_token_at(Some(out.access_token.as_str()), &s, 1_700_000_100), Ok(UserId::new(4)));
    assert_eq!(validate_auth_token_at(Some(out.access_token.as_str()), &s, 1_700_000_911), Err(Unauthorized));
    let bearer = format!("Bearer {}", out.access_token);
    assert_eq!(validate_auth_token_at(Some(bearer.as_str()), &s, 1_700_000_100), Err(Unauthorized));
    let live = s.generate_tokens(UserId::new(4), &Fresh::draw()).unwrap();
    assert_eq!(validate_auth_token(Some(live.access_token.as_str()), &s), Ok(UserId::new(4)));
}

#[test]
fn auth_error_messages() {
    assert_eq!(AuthError::UserExists.message(), "User already exists");
    assert_eq!(AuthError::HashingFailed.message(), "unable to hash password");
    assert_eq!(
        AuthError::WeakPassword(PasswordError::NoDigit).message(),
        "Password must contain at least one digit"
    );
}

#[test]
fn errors_fall_into_three_classes() {
    assert_eq!(AuthError::UserExists.class(), ErrorClass::Validation);
    assert_eq!(AuthError::WeakPassword(PasswordError::TooShort).class(), ErrorClass::Validation);
    assert_eq!(AuthError::InvalidCredentials.class(), ErrorClass::Authentication);
    assert_eq!(AuthError::InvalidToken.class(), ErrorClass::Authentication);
    assert_eq!(AuthError::InvalidRefreshToken.class(), ErrorClass::Authentication);
    assert_eq!(AuthError::HashingFailed.class(), ErrorClass::Infrastructure);
    assert_eq!(AuthError::UnreadableHash.class(), ErrorClass::Infrastructure);
    assert_eq!(AuthError::SigningFailed.class(), ErrorClass::Infrastructure);
    assert_eq!(AuthError::TimeOutOfRange.class(), ErrorClass::Infrastructure);
    assert_eq!(AuthError::Store.class(), ErrorClass::Infrastructure);
    assert_eq!(AuthError::Store.message(), "store failure");
    assert_eq!(AuthError::SigningFailed.message(), "unable to sign token");
    assert_eq!(AuthError::TimeOutOfRange.message(), "time out of range");
}
