//! Registration and login. A new account is validated, checked against
//! existing email addresses, given a fresh id and an Argon2 password hash,
//! stored, and answered with a signed token; a login finds the account by
//! email, verifies the password against the stored hash, and answers with a
//! signed token.

use vstd::prelude::*;
use vstd::utf8::encode_utf8;
use crate::error::{AppError, Failure};
use crate::password::{
    argon2_accepts, argon2_hash, hash_password, is_salt_text, phc_parse_error, random_salt,
    stored_hash_error, verify_password,
};
use crate::ids::{is_v4_id, random_uuid};
use crate::zone::{is_zone_name, zone_exists};

verus! {

/// A user id: the 128 bits of a UUID.
pub type UserId = u128;

/// A registration as the client sends it.
pub struct RegisterRequest {
    pub email: String,
    pub password: String,
    pub display_name: String,
    /// An IANA time zone name, such as `Africa/Lagos`.
    pub timezone: String,
}

/// A login as the client sends it.
pub struct LoginRequest {
    pub email: String,
    pub password: String,
}

/// An account as clients see it.
pub struct UserDto {
    pub id: UserId,
    pub email: String,
    pub display_name: String,
    pub timezone: String,
}

/// What a [`UserDto`] says.
pub struct UserView {
    pub id: UserId,
    pub email: Seq<char>,
    pub display_name: Seq<char>,
    pub timezone: Seq<char>,
}

impl View for UserDto {
    type V = UserView;

    open spec fn view(&self) -> UserView {
        UserView {
            id: self.id,
            email: self.email@,
            display_name: self.display_name@,
            timezone: self.timezone@,
        }
    }
}

impl Clone for UserDto {
    fn clone(&self) -> (r: Self)
        ensures
            r@ == self@,
    {
        UserDto {
            id: self.id,
            email: self.email.clone(),
            display_name: self.display_name.clone(),
            timezone: self.timezone.clone(),
        }
    }
}

/// The answer to a registration or a login: a token for the account, and the account.
pub struct AuthResponse {
    pub token: String,
    pub user: UserDto,
}

/// A stored account, as read back by email.
pub struct UserRecord {
    pub id: UserId,
    pub email: String,
    pub password_hash: String,
    pub display_name: String,
    pub timezone: String,
}

/// The UTF-8 bytes of a password, which is what gets hashed.
pub open spec fn password_bytes(password: Seq<char>) -> Seq<u8> {
    encode_utf8(password)
}

/// Why a registration is refused before anything is looked up, if it is.
/// The password's length is counted in UTF-8 bytes.
pub open spec fn registration_problem(r: RegisterRequest) -> Option<Seq<char>> {
    if r.email@.len() == 0 || r.password@.len() == 0 || r.display_name@.len() == 0 {
        Some("All fields are required"@)
    } else if password_bytes(r.password@).len() < 8 {
        Some("Password must be at least 8 characters"@)
    } else if !is_zone_name(r.timezone@) {
        Some("Invalid timezone: "@ + r.timezone@)
    } else {
        None
    }
}

/// Checks a registration's fields, in this order: all of email, password
/// and display name present; a password of at least 8 bytes; a known time zone.
pub fn validate_registration(r: &RegisterRequest) -> (res: Result<(), AppError>)
    ensures
        match registration_problem(*r) {
            Some(m) => res matches Err(e) && e@ == Failure::Validation(m),
            None => res is Ok,
        },
{
    if r.email.as_str().is_empty() || r.password.as_str().is_empty() || r.display_name.as_str().is_empty() {
        return Err(AppError::Validation(String::from_str("All fields are required")));
    }
    if r.password.as_str().as_bytes().len() < 8 {
        return Err(AppError::Validation(String::from_str("Password must be at least 8 characters")));
    }
    if !zone_exists(r.timezone.as_str()) {
        let mut m = String::from_str("Invalid timezone: ");
        m.append(r.timezone.as_str());
        return Err(AppError::Validation(m));
    }
    Ok(())
}

/// Where a registration stands.
pub enum RegisterState {
    Start,
    /// The fields are valid; whether the email is taken is needed.
    AwaitingEmailCheck { request: RegisterRequest },
    /// The account is being stored.
    AwaitingInsert { user: UserDto },
    /// A token for the stored account is being signed.
    AwaitingToken { user: UserDto },
    Done,
}

/// What the caller reports back.
pub enum RegisterEvent {
    Submitted { request: RegisterRequest },
    /// Whether an account with the email exists.
    EmailChecked { taken: bool },
    /// The account was stored.
    Inserted,
    TokenSigned { token: String },
}

/// What the caller is to do next.
pub enum RegisterAction {
    /// Tell whether an account with `email` exists.
    CheckEmail { email: String },
    /// Store the account with this password hash.
    Insert { user: UserDto, password_hash: String },
    /// Sign a token for the account.
    SignToken { user_id: UserId },
    Respond { status: u16, body: AuthResponse },
    Fail(AppError),
}

/// `act` fails the registration with `f`.
pub open spec fn register_fails(act: RegisterAction, f: Failure) -> bool {
    act matches RegisterAction::Fail(e) && e@ == f
}

/// The message of a failed hash computation.
pub open spec fn hashing_failed_message(err: Seq<char>) -> Seq<char> {
    "Password hashing failed : "@ + err
}

/// One step of a registration. After a free email address the account gets
/// a fresh random id and a hash of its password under a fresh random salt;
/// the step states what holds whichever salt and id came up. Hashing fails
/// only for a password of more than `0xFFFFFFFF` bytes, which Argon2 refuses.
pub open spec fn register_step(s: RegisterState, e: RegisterEvent, next: RegisterState, act: RegisterAction) -> bool {
    match (s, e) {
        (RegisterState::Start, RegisterEvent::Submitted { request }) => match registration_problem(request) {
            Some(m) => next == RegisterState::Done && register_fails(act, Failure::Validation(m)),
            None => {
                &&& next == (RegisterState::AwaitingEmailCheck { request })
                &&& act matches RegisterAction::CheckEmail { email } && email@ == request.email@
            },
        },
        (RegisterState::AwaitingEmailCheck { request }, RegisterEvent::EmailChecked { taken }) => {
            let pw = password_bytes(request.password@);
            if taken {
                next == RegisterState::Done && register_fails(act, Failure::EmailTaken)
            } else if pw.len() <= 0xFFFF_FFFF {
                &&& act matches RegisterAction::Insert { user, password_hash }
                &&& user@ == (UserView {
                    id: user.id,
                    email: request.email@,
                    display_name: request.display_name@,
                    timezone: request.timezone@,
                })
                &&& is_v4_id(user.id)
                &&& exists|salt: Seq<char>| #[trigger]
                    argon2_hash(pw, salt) == Ok::<Seq<char>, Seq<char>>(password_hash@) && is_salt_text(salt)
                &&& phc_parse_error(password_hash@) is None
                &&& argon2_accepts(pw, password_hash@)
                &&& next matches RegisterState::AwaitingInsert { user: kept }
                &&& kept@ == user@
            } else {
                &&& act matches RegisterAction::Fail(err)
                &&& err@ matches Failure::Internal(m)
                &&& exists|salt: Seq<char>| #[trigger]
                    argon2_hash(pw, salt) matches Err(msg) && m == hashing_failed_message(msg)
                &&& next == RegisterState::Done
            }
        },
        (RegisterState::AwaitingInsert { user }, RegisterEvent::Inserted) => {
            let id = user.id;
            next == (RegisterState::AwaitingToken { user }) && act == (RegisterAction::SignToken { user_id: id })
        },
        (RegisterState::AwaitingToken { user }, RegisterEvent::TokenSigned { token }) => {
            next == RegisterState::Done && act == (RegisterAction::Respond {
                status: 201,
                body: AuthResponse { token, user },
            })
        },
        _ => next == RegisterState::Done && register_fails(act, Failure::Internal("event out of order"@)),
    }
}

/// Advances a registration by one event. A successful registration is
/// answered 201 with a token and the new account.
pub fn register(s: RegisterState, e: RegisterEvent) -> (r: (RegisterState, RegisterAction))
    ensures
        register_step(s, e, r.0, r.1),
{
    match (s, e) {
        (RegisterState::Start, RegisterEvent::Submitted { request }) => {
            match validate_registration(&request) {
                Err(err) => (RegisterState::Done, RegisterAction::Fail(err)),
                Ok(()) => {
                    let email = request.email.clone();
                    (RegisterState::AwaitingEmailCheck { request }, RegisterAction::CheckEmail { email })
                },
            }
        },
        (RegisterState::AwaitingEmailCheck { request }, RegisterEvent::EmailChecked { taken }) => {
            if taken {
                (RegisterState::Done, RegisterAction::Fail(AppError::EmailTaken))
            } else {
                let salt = random_salt();
                let pw = request.password.as_str().as_bytes();
                let hashed = hash_password(pw, salt.as_str());
                match hashed {
                    Ok(password_hash) => {
                        let id = random_uuid();
                        let user = UserDto {
                            id,
                            email: request.email,
                            display_name: request.display_name,
                            timezone: request.timezone,
                        };
                        let kept = user.clone();
                        (RegisterState::AwaitingInsert { user: kept }, RegisterAction::Insert { user, password_hash })
                    },
                    Err(msg) => {
                        let mut m = String::from_str("Password hashing failed : ");
                        m.append(msg.as_str());
                        proof {
                            let ghost bytes = password_bytes(request.password@);
                            assert(argon2_hash(bytes, salt@) matches Err(x) && m@ == hashing_failed_message(x));
                        }
                        (RegisterState::Done, RegisterAction::Fail(AppError::Internal(m)))
                    },
                }
            }
        },
        (RegisterState::AwaitingInsert { user }, RegisterEvent::Inserted) => {
            let user_id = user.id;
            (RegisterState::AwaitingToken { user }, RegisterAction::SignToken { user_id })
        },
        (RegisterState::AwaitingToken { user }, RegisterEvent::TokenSigned { token }) => {
            (RegisterState::Done, RegisterAction::Respond { status: 201, body: AuthResponse { token, user } })
        },
        _ => (RegisterState::Done, RegisterAction::Fail(AppError::Internal(String::from_str("event out of order")))),
    }
}

/// Where a login stands.
pub enum LoginState {
    Start,
    /// The account for the email is needed; `password` is what was given.
    AwaitingUser { password: String },
    /// The password matched; a token for the account is being signed.
    AwaitingToken { user: UserDto },
    Done,
}

/// What the caller reports back.
pub enum LoginEvent {
    Submitted { request: LoginRequest },
    /// The account stored under the email, if there is one.
    UserLoaded { record: Option<UserRecord> },
    TokenSigned { token: String },
}

/// What the caller is to do next.
pub enum LoginAction {
    /// Read the account stored under `email`.
    FindUser { email: String },
    /// Sign a token for the account.
    SignToken { user_id: UserId },
    Respond { status: u16, body: AuthResponse },
    Fail(AppError),
}

/// `act` fails the login with `f`.
pub open spec fn login_fails(act: LoginAction, f: Failure) -> bool {
    act matches LoginAction::Fail(e) && e@ == f
}

/// The message of a stored hash that does not parse.
pub open spec fn corrupt_hash_message(err: Seq<char>) -> Seq<char> {
    "Stored hash is corrupt: "@ + err
}

/// The account a stored record describes, as clients see it.
pub open spec fn record_user(rec: UserRecord) -> UserView {
    UserView { id: rec.id, email: rec.email@, display_name: rec.display_name@, timezone: rec.timezone@ }
}

/// One step of a login. An unknown email and a wrong password are answered alike.
pub open spec fn login_step(s: LoginState, e: LoginEvent, next: LoginState, act: LoginAction) -> bool {
    match (s, e) {
        (LoginState::Start, LoginEvent::Submitted { request }) => {
            &&& next == (LoginState::AwaitingUser { password: request.password })
            &&& act matches LoginAction::FindUser { email } && email@ == request.email@
        },
        (LoginState::AwaitingUser { password }, LoginEvent::UserLoaded { record }) => match record {
            None => next == LoginState::Done && login_fails(act, Failure::InvalidCredentials),
            Some(rec) => match phc_parse_error(rec.password_hash@) {
                Some(m) => next == LoginState::Done && login_fails(act, Failure::Internal(corrupt_hash_message(m))),
                None => if argon2_accepts(password_bytes(password@), rec.password_hash@) {
                    &&& next matches LoginState::AwaitingToken { user }
                    &&& user@ == record_user(rec)
                    &&& act == (LoginAction::SignToken { user_id: rec.id })
                } else {
                    next == LoginState::Done && login_fails(act, Failure::InvalidCredentials)
                },
            },
        },
        (LoginState::AwaitingToken { user }, LoginEvent::TokenSigned { token }) => {
            next == LoginState::Done && act == (LoginAction::Respond {
                status: 200,
                body: AuthResponse { token, user },
            })
        },
        _ => next == LoginState::Done && login_fails(act, Failure::Internal("event out of order"@)),
    }
}

/// Advances a login by one event. A successful login is answered 200 with
/// a token and the account.
pub fn login(s: LoginState, e: LoginEvent) -> (r: (LoginState, LoginAction))
    ensures
        login_step(s, e, r.0, r.1),
{
    match (s, e) {
        (LoginState::Start, LoginEvent::Submitted { request }) => {
            let email = request.email;
            (LoginState::AwaitingUser { password: request.password }, LoginAction::FindUser { email })
        },
        (LoginState::AwaitingUser { password }, LoginEvent::UserLoaded { record }) => match record {
            None => (LoginState::Done, LoginAction::Fail(AppError::InvalidCredentials)),
            Some(rec) => match stored_hash_error(rec.password_hash.as_str()) {
                Some(err) => {
                    let mut m = String::from_str("Stored hash is corrupt: ");
                    m.append(err.as_str());
                    (LoginState::Done, LoginAction::Fail(AppError::Internal(m)))
                },
                None => {
                    if verify_password(password.as_str().as_bytes(), rec.password_hash.as_str()) {
                        let user_id = rec.id;
                        let user = UserDto {
                            id: rec.id,
                            email: rec.email,
                            display_name: rec.display_name,
                            timezone: rec.timezone,
                        };
                        (LoginState::AwaitingToken { user }, LoginAction::SignToken { user_id })
                    } else {
                        (LoginState::Done, LoginAction::Fail(AppError::InvalidCredentials))
                    }
                },
            },
        },
        (LoginState::AwaitingToken { user }, LoginEvent::TokenSigned { token }) => {
            (LoginState::Done, LoginAction::Respond { status: 200, body: AuthResponse { token, user } })
        },
        _ => (LoginState::Done, LoginAction::Fail(AppError::Internal(String::from_str("event out of order")))),
    }
}

/// A registration refused for its fields is answered 400 with the reason,
/// before any email lookup.
pub proof fn law_invalid_registration_rejected(request: RegisterRequest, next: RegisterState, act: RegisterAction)
    requires
        registration_problem(request) is Some,
        register_step(RegisterState::Start, RegisterEvent::Submitted { request }, next, act),
    ensures
        next == RegisterState::Done,
        act matches RegisterAction::Fail(e) && crate::error::status_for(e@) == 400,
{
}

/// A registration with a taken email is answered 409 and stores nothing.
pub proof fn law_taken_email_rejected(request: RegisterRequest, next: RegisterState, act: RegisterAction)
    requires
        register_step(
            RegisterState::AwaitingEmailCheck { request },
            RegisterEvent::EmailChecked { taken: true },
            next,
            act,
        ),
    ensures
        next == RegisterState::Done,
        act matches RegisterAction::Fail(e) && e@ == Failure::EmailTaken && crate::error::status_for(e@) == 409,
{
}

/// What one registers with, one logs in with: when a registration stores an
/// account, a login with the same password that reads that stored account
/// back goes on to sign a token for that account.
pub proof fn law_registered_password_logs_in(
    request: RegisterRequest,
    stored_state: RegisterState,
    insert: RegisterAction,
    password: String,
    record: UserRecord,
    login_next: LoginState,
    login_act: LoginAction,
)
    requires
        register_step(
            RegisterState::AwaitingEmailCheck { request },
            RegisterEvent::EmailChecked { taken: false },
            stored_state,
            insert,
        ),
        insert matches RegisterAction::Insert { user, password_hash } && record.id == user.id
            && record.password_hash@ == password_hash@,
        password@ == request.password@,
        login_step(
            LoginState::AwaitingUser { password },
            LoginEvent::UserLoaded { record: Some(record) },
            login_next,
            login_act,
        ),
    ensures
        insert matches RegisterAction::Insert { user, .. } && login_act == (LoginAction::SignToken { user_id: user.id }),
{
}

/// An unknown email and a wrong password get the same answer: 401, invalid credentials.
pub proof fn law_login_failures_alike(
    password: String,
    record: UserRecord,
    next_unknown: LoginState,
    act_unknown: LoginAction,
    next_wrong: LoginState,
    act_wrong: LoginAction,
)
    requires
        phc_parse_error(record.password_hash@) is None,
        !argon2_accepts(password_bytes(password@), record.password_hash@),
        login_step(LoginState::AwaitingUser { password }, LoginEvent::UserLoaded { record: None }, next_unknown, act_unknown),
        login_step(
            LoginState::AwaitingUser { password },
            LoginEvent::UserLoaded { record: Some(record) },
            next_wrong,
            act_wrong,
        ),
    ensures
        act_unknown matches LoginAction::Fail(e1) && act_wrong matches LoginAction::Fail(e2) && e1@ == e2@
            && e1@ == Failure::InvalidCredentials && crate::error::status_for(e1@) == 401,
{
}

/// What the stored accounts say of each account: its email and its zone.
pub struct StoredAccount {
    pub email: Seq<char>,
    pub timezone: Seq<char>,
}

/// No two accounts share an email, and every stored zone is one `chrono_tz` knows.
pub open spec fn accounts_valid(accounts: Seq<StoredAccount>) -> bool {
    &&& forall|i: int, j: int|
        0 <= i < j < accounts.len() ==> #[trigger] accounts[i].email != #[trigger] accounts[j].email
    &&& forall|i: int| 0 <= i < accounts.len() ==> is_zone_name(#[trigger] accounts[i].timezone)
}

/// Some stored account has this email.
pub open spec fn email_taken(accounts: Seq<StoredAccount>, email: Seq<char>) -> bool {
    exists|i: int| 0 <= i < accounts.len() && #[trigger] accounts[i].email == email
}

/// Registrations keep the stored accounts valid: when a registration is
/// told whether its email is taken by looking at the stored accounts, the
/// account it asks to store keeps the emails distinct and the zones known
/// (so check-ins and status requests never fail on the stored zone). Any
/// other outcome stores nothing.
pub proof fn law_register_keeps_accounts_valid(
    accounts: Seq<StoredAccount>,
    request: RegisterRequest,
    s1: RegisterState,
    a1: RegisterAction,
    s2: RegisterState,
    a2: RegisterAction,
)
    requires
        accounts_valid(accounts),
        register_step(RegisterState::Start, RegisterEvent::Submitted { request }, s1, a1),
        register_step(s1, RegisterEvent::EmailChecked { taken: email_taken(accounts, request.email@) }, s2, a2),
    ensures
        a2 matches RegisterAction::Insert { user, .. } ==> accounts_valid(
            accounts.push(StoredAccount { email: user.email@, timezone: user.timezone@ }),
        ),
{
    if a2 is Insert {
        let user = a2->user;
        let more = accounts.push(StoredAccount { email: user.email@, timezone: user.timezone@ });
        assert(s1 == (RegisterState::AwaitingEmailCheck { request }));
        assert forall|i: int, j: int| 0 <= i < j < more.len() implies #[trigger] more[i].email
            != #[trigger] more[j].email by {
            if j == accounts.len() {
                assert(accounts[i].email != request.email@);
            } else {
                assert(more[i] == accounts[i] && more[j] == accounts[j]);
            }
        }
        assert forall|i: int| 0 <= i < more.len() implies is_zone_name(#[trigger] more[i].timezone) by {
            if i < accounts.len() {
                assert(more[i] == accounts[i]);
            }
        }
    }
}

/// A valid registration with a free email succeeds: the account is stored
/// with the request's email, display name and zone, a token is signed for
/// it, and the answer is 201 with that token and account. (Argon2 refuses
/// only passwords of more than `0xFFFFFFFF` bytes.)
pub proof fn law_valid_registration_created(
    request: RegisterRequest,
    token: String,
    s1: RegisterState, a1: RegisterAction,
    s2: RegisterState, a2: RegisterAction,
    s3: RegisterState, a3: RegisterAction,
    s4: RegisterState, a4: RegisterAction,
)
    requires
        registration_problem(request) is None,
        password_bytes(request.password@).len() <= 0xFFFF_FFFF,
        register_step(RegisterState::Start, RegisterEvent::Submitted { request }, s1, a1),
        register_step(s1, RegisterEvent::EmailChecked { taken: false }, s2, a2),
        register_step(s2, RegisterEvent::Inserted, s3, a3),
        register_step(s3, RegisterEvent::TokenSigned { token }, s4, a4),
    ensures
        a1 is CheckEmail,
        a2 matches RegisterAction::Insert { user, .. } && user.email@ == request.email@
            && user.display_name@ == request.display_name@ && user.timezone@ == request.timezone@,
        a3 matches RegisterAction::SignToken { user_id } && user_id == a2->user.id,
        a4 matches RegisterAction::Respond { status, body } && status == 201 && body.token == token
            && body.user@ == a2->user@,
        s4 == RegisterState::Done,
{
}

/// What a registration stores is what the account's profile shows: the
/// profile read back for the stored account has the registered email,
/// display name and zone.
pub proof fn law_registered_account_is_me(
    request: RegisterRequest,
    next: RegisterState,
    act: RegisterAction,
    profile: crate::users::UserProfile,
)
    requires
        register_step(
            RegisterState::AwaitingEmailCheck { request },
            RegisterEvent::EmailChecked { taken: false },
            next,
            act,
        ),
        act matches RegisterAction::Insert { user, .. } && profile.id == user.id && profile.email@ == user.email@
            && profile.display_name@ == user.display_name@ && profile.timezone@ == user.timezone@,
    ensures
        crate::users::me_result(Some(profile)) matches Ok(p) && p.id == act->user.id && p.email@ == request.email@
            && p.display_name@ == request.display_name@ && p.timezone@ == request.timezone@,
{
}

/// Which registrations pass validation: a submitted registration goes on to
/// the email check exactly when its email, password and display name are
/// non-empty, its password has at least 8 UTF-8 bytes, and `chrono_tz`
/// knows its zone; the display name may be of any non-zero length. Every
/// other one is answered 400, with the first failing rule in that order.
pub proof fn law_registration_accepted_iff_fields_valid(
    request: RegisterRequest,
    next: RegisterState,
    act: RegisterAction,
)
    requires
        register_step(RegisterState::Start, RegisterEvent::Submitted { request }, next, act),
    ensures
        act is CheckEmail <==> (request.email@.len() > 0 && request.password@.len() > 0
            && request.display_name@.len() > 0 && encode_utf8(request.password@).len() >= 8 && is_zone_name(
            request.timezone@,
        )),
        act is CheckEmail ==> (act matches RegisterAction::CheckEmail { email } && email@ == request.email@),
        (request.email@.len() == 0 || request.password@.len() == 0 || request.display_name@.len() == 0)
            ==> register_fails(act, Failure::Validation("All fields are required"@)),
        (request.email@.len() > 0 && request.password@.len() > 0 && request.display_name@.len() > 0
            && encode_utf8(request.password@).len() < 8) ==> register_fails(
            act,
            Failure::Validation("Password must be at least 8 characters"@),
        ),
        (request.email@.len() > 0 && request.password@.len() > 0 && request.display_name@.len() > 0
            && encode_utf8(request.password@).len() >= 8 && !is_zone_name(request.timezone@)) ==> register_fails(
            act,
            Failure::Validation("Invalid timezone: "@ + request.timezone@),
        ),
        !(act is CheckEmail) ==> (act matches RegisterAction::Fail(e) && crate::error::status_for(e@) == 400),
{
}

/// A login whose password verifies answers 200 with the signed token and
/// the stored account: its id, email, display name and zone, each in its
/// own place.
pub proof fn law_login_answers_with_stored_account(
    password: String,
    rec: UserRecord,
    token: String,
    s1: LoginState,
    a1: LoginAction,
    s2: LoginState,
    a2: LoginAction,
)
    requires
        phc_parse_error(rec.password_hash@) is None,
        argon2_accepts(encode_utf8(password@), rec.password_hash@),
        login_step(LoginState::AwaitingUser { password }, LoginEvent::UserLoaded { record: Some(rec) }, s1, a1),
        login_step(s1, LoginEvent::TokenSigned { token }, s2, a2),
    ensures
        a1 == (LoginAction::SignToken { user_id: rec.id }),
        a2 matches LoginAction::Respond { status, body } && status == 200 && body.token == token
            && body.user.id == rec.id && body.user.email@ == rec.email@ && body.user.display_name@
            == rec.display_name@ && body.user.timezone@ == rec.timezone@,
        s2 == LoginState::Done,
{
}

/// A stored hash that does not parse is an internal fault, reported with
/// the parser's message, whatever password was given.
pub proof fn law_login_corrupt_hash_is_internal(
    password: String,
    rec: UserRecord,
    next: LoginState,
    act: LoginAction,
)
    requires
        phc_parse_error(rec.password_hash@) is Some,
        login_step(LoginState::AwaitingUser { password }, LoginEvent::UserLoaded { record: Some(rec) }, next, act),
    ensures
        next == LoginState::Done,
        login_fails(act, Failure::Internal("Stored hash is corrupt: "@ + phc_parse_error(rec.password_hash@)->0)),
{
}

/// A login looks the account up by the email given and checks the password
/// given against that account's stored hash: it signs a token for the
/// account when the password verifies, and answers 401 when it does not.
pub proof fn law_login_checks_given_password(
    request: LoginRequest,
    rec: UserRecord,
    s1: LoginState,
    a1: LoginAction,
    s2: LoginState,
    a2: LoginAction,
)
    requires
        phc_parse_error(rec.password_hash@) is None,
        login_step(LoginState::Start, LoginEvent::Submitted { request }, s1, a1),
        login_step(s1, LoginEvent::UserLoaded { record: Some(rec) }, s2, a2),
    ensures
        a1 matches LoginAction::FindUser { email } && email@ == request.email@,
        argon2_accepts(encode_utf8(request.password@), rec.password_hash@) ==> a2 == (LoginAction::SignToken {
            user_id: rec.id,
        }),
        !argon2_accepts(encode_utf8(request.password@), rec.password_hash@) ==> (login_fails(
            a2,
            Failure::InvalidCredentials,
        ) && crate::error::status_for(Failure::InvalidCredentials) == 401),
{
}

} // verus!
