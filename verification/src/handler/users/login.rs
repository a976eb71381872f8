//! Login: the request is held to its rules, storage is asked for the user
//! with this address and password, and a token is issued for that user.

use vstd::prelude::*;

use crate::config::Auth;
use crate::db::{
    credentials_known, credentials_match, StorageError, StorageErrorView, StorageFault, UserView,
};
use crate::error::api_error::{
    ApiError, ApiErrorView, AuthenticateError, Violation, ViolationView,
};
use crate::error::OhMyResult;
use crate::extractor::json_validator::{Validate, ValidatedJson};
use crate::extractor::rules::{
    describe_unlabelled_email, describe_unlabelled_length, email_accepted, email_code,
    email_violation, is_email, length_code, length_violation, length_within, unlabelled_email_text,
};
use crate::utils::jwt::{
    generate, generate_at, generated_at, issued_claims, issued_for, issued_token, token_claims,
    Payload, PayloadView,
};

verus! {

/// The body of a login request.
#[derive(Debug, Clone, PartialEq, Eq)]
pub struct LoginReq {
    pub email: String,
    pub password: String,
}

/// A `LoginReq` with its fields as sequences of characters.
pub struct LoginReqView {
    pub email: Seq<char>,
    pub password: Seq<char>,
}

impl View for LoginReq {
    type V = LoginReqView;

    open spec fn view(&self) -> LoginReqView {
        LoginReqView { email: self.email@, password: self.password@ }
    }
}

/// The body of the answer to a login.
#[derive(Debug, Clone, PartialEq, Eq)]
pub struct LoginRep {
    pub token: String,
}

/// A `LoginRep` with its token as a sequence of characters.
pub struct LoginRepView {
    pub token: Seq<char>,
}

impl View for LoginRep {
    type V = LoginRepView;

    open spec fn view(&self) -> LoginRepView {
        LoginRepView { token: self.token@ }
    }
}

impl LoginReqView {
    /// The address is an email address.
    pub open spec fn email_ok(self) -> bool {
        email_accepted(self.email)
    }

    /// The password has 8 to 20 characters.
    pub open spec fn password_ok(self) -> bool {
        8 <= self.password.len() <= 20
    }

    /// Whether `violation` describes the first rule that the request breaks,
    /// the address taken before the password. Neither rule has a sentence of
    /// its own: a broken address is described as `validator` does it, and of
    /// a broken password only the code is fixed.
    pub open spec fn reports(self, violation: ViolationView) -> bool {
        if !self.email_ok() {
            violation == (ViolationView {
                code: email_code(),
                message: unlabelled_email_text(self.email),
            })
        } else {
            !self.password_ok() && violation.code == length_code()
        }
    }
}

impl LoginReq {
    /// Reports the first breach among the two rules, given which of them are
    /// kept.
    pub fn verdict(&self, email_ok: bool, password_ok: bool) -> (r: Result<(), Violation>)
        ensures
            r is Ok <==> email_ok && password_ok,
            r matches Err(violation) ==> if !email_ok {
                violation@ == (ViolationView {
                    code: email_code(),
                    message: unlabelled_email_text(self.email@),
                })
            } else {
                violation.code@ == length_code()
            },
    {
        if !email_ok {
            Err(email_violation(describe_unlabelled_email(self.email.as_str())))
        } else if !password_ok {
            Err(length_violation(describe_unlabelled_length(self.password.as_str(), 8, 20)))
        } else {
            Ok(())
        }
    }
}

impl Validate for LoginReq {
    open spec fn valid(&self) -> bool {
        self@.email_ok() && self@.password_ok()
    }

    open spec fn reports(&self, violation: ViolationView) -> bool {
        self@.reports(violation)
    }

    fn validate(&self) -> (r: Result<(), Violation>) {
        self.verdict(is_email(self.email.as_str()), length_within(self.password.as_str(), 8, 20))
    }
}

/// How far a login has come.
#[derive(Clone, Copy, Debug, PartialEq, Eq, Structural)]
pub enum Login {
    /// The request keeps its rules; storage is being asked for the user.
    Looking,
    /// The client has its answer.
    Closed,
}

/// What a login needs next.
#[derive(Debug, PartialEq, Eq)]
pub enum LoginAction {
    /// Ask storage for the identifier and the name of the user with this
    /// address and this password.
    FindUser(LoginReq),
    /// Answer the client: a token, or an error.
    Reply(OhMyResult<LoginRep>),
}

/// A `LoginAction` with its texts as sequences of characters.
pub enum LoginActionView {
    FindUser(LoginReqView),
    Reply(Result<LoginRepView, ApiErrorView>),
}

impl View for LoginAction {
    type V = LoginActionView;

    open spec fn view(&self) -> LoginActionView {
        match self {
            LoginAction::FindUser(req) => LoginActionView::FindUser(req@),
            LoginAction::Reply(Ok(rep)) => LoginActionView::Reply(Ok(rep@)),
            LoginAction::Reply(Err(err)) => LoginActionView::Reply(Err(err@)),
        }
    }
}

/// Whether `next` opens a login with the body `payload`, `None` where the
/// body could not be decoded. A body that was not decoded and a body that
/// breaks a rule are answered at once; for any other, storage is asked for
/// the user.
pub open spec fn login_opened(payload: Option<LoginReqView>, next: (Login, LoginActionView)) -> bool {
    match payload {
        Some(req) => if req.email_ok() && req.password_ok() {
            next == (Login::Looking, LoginActionView::FindUser(req))
        } else {
            &&& next.0 == Login::Closed
            &&& next.1 matches LoginActionView::Reply(Err(ApiErrorView::Validation(violation)))
            &&& req.reports(violation)
        },
        None => next == (Login::Closed, LoginActionView::Reply(Err(ApiErrorView::InvalidJSONBody))),
    }
}

/// The answer to a login at `now`, once storage has looked for the user. A
/// user that was found gets a token; that no user matched means incorrect
/// credentials; any other fault of storage is a storage error, which keeps
/// storage's description of the fault for the log. An answer that was not
/// asked for is an internal error.
pub open spec fn login_reply(
    state: Login,
    found: Result<PayloadView, StorageErrorView>,
    secret: Seq<char>,
    lifetime: u64,
    now: int,
) -> Result<LoginRepView, ApiErrorView> {
    match state {
        Login::Looking => match found {
            Ok(payload) => match issued_token(payload, secret, lifetime, now) {
                Some(token) => Ok(LoginRepView { token }),
                None => Err(ApiErrorView::Authenticate(AuthenticateError::GenerateToken)),
            },
            Err(fault) => match fault.fault {
                StorageFault::RowNotFound => Err(
                    ApiErrorView::Authenticate(AuthenticateError::IncorrectEmailLogin),
                ),
                StorageFault::Other => Err(ApiErrorView::Sqlx(fault.message)),
            },
        },
        Login::Closed => Err(ApiErrorView::Internal),
    }
}

/// The view of a body that may not have been decoded.
pub open spec fn decoded_view(payload: Option<LoginReq>) -> Option<LoginReqView> {
    match payload {
        Some(req) => Some(req@),
        None => None,
    }
}

/// The view of what storage found.
pub open spec fn found_view(found: Result<Payload, StorageError>) -> Result<
    PayloadView,
    StorageErrorView,
> {
    match found {
        Ok(payload) => Ok(payload@),
        Err(fault) => Err(fault@),
    }
}

/// The view of an answer.
pub open spec fn reply_view(reply: Result<LoginRep, ApiError>) -> Result<LoginRepView, ApiErrorView> {
    match reply {
        Ok(rep) => Ok(rep@),
        Err(err) => Err(err@),
    }
}

/// Whether `reply` is the answer to a login at the time `now`, and a token
/// in it holds the claims issued at `now` for the user that was found.
pub open spec fn replied_at(
    reply: Result<LoginRep, ApiError>,
    state: Login,
    found: Result<PayloadView, StorageErrorView>,
    secret: Seq<char>,
    lifetime: u64,
    now: i64,
) -> bool {
    &&& reply_view(reply) == login_reply(state, found, secret, lifetime, now as int)
    &&& match (reply, found) {
        (Ok(rep), Ok(user)) => match issued_claims(user, now as int, lifetime) {
            Some(claims) => token_claims(rep.token@, secret) == Some(claims.raw()),
            None => false,
        },
        (Ok(_), Err(_)) => false,
        (Err(_), _) => true,
    }
}

/// Opens a login with the body of the request, `None` where the body could
/// not be decoded, and says what is needed next.
pub fn login_handler(payload: Option<LoginReq>) -> (next: (Login, LoginAction))
    ensures
        login_opened(decoded_view(payload), (next.0, next.1@)),
{
    match ValidatedJson::from_request(payload) {
        Ok(ValidatedJson(req)) => (Login::Looking, LoginAction::FindUser(req)),
        Err(err) => (Login::Closed, LoginAction::Reply(Err(err))),
    }
}

impl Login {
    /// Takes at `now` what storage found and answers the client. A token in
    /// the answer holds the claims issued at `now` for the user that was
    /// found: they expire after `now`, by exactly the configured lifetime.
    pub fn on_at(self, found: Result<Payload, StorageError>, auth: &Auth, now: i64) -> (reply:
        OhMyResult<LoginRep>)
        ensures
            replied_at(reply, self, found_view(found), auth.secret@, auth.expire, now),
            reply matches Ok(rep) ==> found matches Ok(user) && issued_for(
                token_claims(rep.token@, auth.secret@),
                user@,
                auth.expire,
            ),
    {
        match self {
            Login::Looking => match found {
                Ok(payload) => match generate_at(payload, auth, now) {
                    Ok(token) => Ok(LoginRep { token }),
                    Err(_) => Err(ApiError::Authenticate(AuthenticateError::GenerateToken)),
                },
                Err(fault) => match fault.fault {
                    StorageFault::RowNotFound => Err(
                        ApiError::Authenticate(AuthenticateError::IncorrectEmailLogin),
                    ),
                    StorageFault::Other => Err(ApiError::Sqlx(fault.message)),
                },
            },
            Login::Closed => Err(ApiError::Internal),
        }
    }

    /// Takes what storage found and answers the client, at the time that the
    /// clock shows. A token in the answer holds the claims issued at that
    /// time for the user that was found. Whatever the time is, they expire
    /// after their issue time, by exactly the configured lifetime.
    pub fn on(self, found: Result<Payload, StorageError>, auth: &Auth) -> (reply: OhMyResult<
        LoginRep,
    >)
        ensures
            exists|now: i64| #[trigger]
                replied_at(reply, self, found_view(found), auth.secret@, auth.expire, now),
            reply matches Ok(rep) ==> found matches Ok(user) && issued_for(
                token_claims(rep.token@, auth.secret@),
                user@,
                auth.expire,
            ),
    {
        match self {
            Login::Looking => match found {
                Ok(payload) => {
                    let ghost whom = payload@;
                    let issued = generate(payload, auth);
                    let ghost now = choose|now: i64| #[trigger]
                        generated_at(issued, whom, auth.secret@, auth.expire, now);
                    let reply = match issued {
                        Ok(token) => Ok(LoginRep { token }),
                        Err(_) => Err(ApiError::Authenticate(AuthenticateError::GenerateToken)),
                    };
                    assert(replied_at(reply, self, Ok(whom), auth.secret@, auth.expire, now));
                    reply
                },
                Err(fault) => {
                    let reply = self.on_at(Err(fault), auth, 0);
                    assert(replied_at(reply, self, found_view(found), auth.secret@, auth.expire, 0));
                    reply
                },
            },
            Login::Closed => {
                let reply = Err(ApiError::Internal);
                assert(replied_at(reply, self, found_view(found), auth.secret@, auth.expire, 0));
                reply
            },
        }
    }
}

/// What a truthful storage finds in the table `users` for this address and
/// this password: the identifier and the name of a user that has both, or
/// that no row matched.
pub open spec fn user_found(users: Seq<UserView>, email: Seq<char>, password: Seq<char>) -> Result<
    PayloadView,
    StorageErrorView,
> {
    if credentials_known(users, email, password) {
        let i = choose|i: int| #[trigger] credentials_match(users, i, email, password);
        Ok(PayloadView { id: users[i].id, username: users[i].username })
    } else {
        Err(StorageErrorView { fault: StorageFault::RowNotFound, message: Seq::empty() })
    }
}

/// That no user matched is answered with incorrect credentials, never with
/// storage's own description, whatever that is.
pub proof fn lemma_no_matching_user_is_incorrect_credentials(
    message: Seq<char>,
    secret: Seq<char>,
    lifetime: u64,
    now: int,
)
    ensures
        login_reply(
            Login::Looking,
            Err(StorageErrorView { fault: StorageFault::RowNotFound, message }),
            secret,
            lifetime,
            now,
        ) == Err::<LoginRepView, _>(
            ApiErrorView::Authenticate(AuthenticateError::IncorrectEmailLogin),
        ),
{
}

/// A login with an address that no user has, or with a password that is not
/// that user's, is answered with incorrect credentials.
pub proof fn lemma_unknown_credentials_are_refused(
    users: Seq<UserView>,
    req: LoginReqView,
    secret: Seq<char>,
    lifetime: u64,
    now: int,
)
    requires
        !credentials_known(users, req.email, req.password),
    ensures
        login_reply(
            Login::Looking,
            user_found(users, req.email, req.password),
            secret,
            lifetime,
            now,
        ) == Err::<LoginRepView, _>(
            ApiErrorView::Authenticate(AuthenticateError::IncorrectEmailLogin),
        ),
{
}

/// A login with the address and the password of a user in the table is
/// answered with the token issued at `now` for a user that has both, unless
/// no token can be issued.
pub proof fn lemma_known_credentials_get_a_token(
    users: Seq<UserView>,
    req: LoginReqView,
    secret: Seq<char>,
    lifetime: u64,
    now: int,
)
    requires
        credentials_known(users, req.email, req.password),
    ensures
        exists|i: int| #[trigger]
            credentials_match(users, i, req.email, req.password) && login_reply(
                Login::Looking,
                user_found(users, req.email, req.password),
                secret,
                lifetime,
                now,
            ) == match issued_token(
                PayloadView { id: users[i].id, username: users[i].username },
                secret,
                lifetime,
                now,
            ) {
                Some(token) => Ok::<_, ApiErrorView>(LoginRepView { token }),
                None => Err(ApiErrorView::Authenticate(AuthenticateError::GenerateToken)),
            },
{
    let i = choose|i: int| #[trigger] credentials_match(users, i, req.email, req.password);
    assert(credentials_match(users, i, req.email, req.password));
}

} // verus!
