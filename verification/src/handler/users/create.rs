//! Registration: the request is held to its rules, storage is asked whether
//! the address is taken, and only if it is free is the user added.

use vstd::prelude::*;
use vstd::string::*;

use crate::db::{
    email_registered, emails_unique, with_user, StorageError, StorageErrorView, UserView,
};
use crate::error::api_error::{
    ApiError, ApiErrorView, UserError, UserErrorView, Violation, ViolationView,
};
use crate::error::OhMyResult;
use crate::extractor::json_validator::{Validate, ValidatedJson};
use crate::extractor::rules::{
    email_accepted, email_code, email_violation, is_email, length_code, length_violation,
    length_within,
};

verus! {

/// The body of a registration request.
#[derive(Debug, Clone, PartialEq, Eq)]
pub struct CreateReq {
    pub username: String,
    pub email: String,
    pub password: String,
}

/// A `CreateReq` with its fields as sequences of characters.
pub struct CreateReqView {
    pub username: Seq<char>,
    pub email: Seq<char>,
    pub password: Seq<char>,
}

impl View for CreateReq {
    type V = CreateReqView;

    open spec fn view(&self) -> CreateReqView {
        CreateReqView { username: self.username@, email: self.email@, password: self.password@ }
    }
}

/// The first breach among the three rules of a registration, taken in the
/// order user name, address, password, given which of them are kept.
pub open spec fn create_verdict(username_ok: bool, email_ok: bool, password_ok: bool) -> Option<
    ViolationView,
> {
    if !username_ok {
        Some(
            ViolationView {
                code: length_code(),
                message: "The username must be between 5 to 12"@,
            },
        )
    } else if !email_ok {
        Some(ViolationView { code: email_code(), message: "Invalid email address"@ })
    } else if !password_ok {
        Some(
            ViolationView {
                code: length_code(),
                message: "The password must be between 8 to 20"@,
            },
        )
    } else {
        None
    }
}

impl CreateReqView {
    /// The user name has 5 to 12 characters.
    pub open spec fn username_ok(self) -> bool {
        5 <= self.username.len() <= 12
    }

    /// The address is an email address.
    pub open spec fn email_ok(self) -> bool {
        email_accepted(self.email)
    }

    /// The password has 8 to 20 characters.
    pub open spec fn password_ok(self) -> bool {
        8 <= self.password.len() <= 20
    }

    /// The first rule that the request breaks, if any.
    pub open spec fn verdict(self) -> Option<ViolationView> {
        create_verdict(self.username_ok(), self.email_ok(), self.password_ok())
    }
}

impl CreateReq {
    /// Reports the first breach among the three rules, given which of them
    /// are kept.
    pub fn verdict(username_ok: bool, email_ok: bool, password_ok: bool) -> (r: Result<
        (),
        Violation,
    >)
        ensures
            match create_verdict(username_ok, email_ok, password_ok) {
                Some(violation) => r matches Err(found) && found@ == violation,
                None => r is Ok,
            },
    {
        if !username_ok {
            Err(length_violation(String::from_str("The username must be between 5 to 12")))
        } else if !email_ok {
            Err(email_violation(String::from_str("Invalid email address")))
        } else if !password_ok {
            Err(length_violation(String::from_str("The password must be between 8 to 20")))
        } else {
            Ok(())
        }
    }
}

impl Validate for CreateReq {
    open spec fn valid(&self) -> bool {
        self@.verdict() is None
    }

    open spec fn reports(&self, violation: ViolationView) -> bool {
        self@.verdict() == Some(violation)
    }

    fn validate(&self) -> (r: Result<(), Violation>) {
        CreateReq::verdict(
            length_within(self.username.as_str(), 5, 12),
            is_email(self.email.as_str()),
            length_within(self.password.as_str(), 8, 20),
        )
    }
}

/// How far a registration has come.
#[derive(Debug, Clone, PartialEq, Eq)]
pub enum Registration {
    /// The request keeps its rules; storage is being asked whether its
    /// address is taken.
    Checking(CreateReq),
    /// The address is free; storage is being asked to add the user.
    Inserting,
    /// The client has its answer.
    Closed,
}

/// What a registration needs next.
#[derive(Debug, PartialEq, Eq)]
pub enum RegistrationAction {
    /// Ask storage whether some user has this address.
    EmailExists(String),
    /// Ask storage to add this user and to tell the new identifier.
    InsertUser(CreateReq),
    /// Answer the client: the new identifier, or an error.
    Reply(OhMyResult<u64>),
}

/// What storage answered.
#[derive(Debug, PartialEq, Eq)]
pub enum RegistrationEvent {
    /// Whether the address is taken, or why that could not be told.
    EmailChecked(Result<bool, StorageError>),
    /// The identifier of the user that was added, or why none was.
    Inserted(Result<u64, StorageError>),
}

/// A `Registration` with its texts as sequences of characters.
pub enum RegistrationView {
    Checking(CreateReqView),
    Inserting,
    Closed,
}

/// A `RegistrationAction` with its texts as sequences of characters.
pub enum RegistrationActionView {
    EmailExists(Seq<char>),
    InsertUser(CreateReqView),
    Reply(Result<u64, ApiErrorView>),
}

/// A `RegistrationEvent` with its texts as sequences of characters.
pub enum RegistrationEventView {
    EmailChecked(Result<bool, StorageErrorView>),
    Inserted(Result<u64, StorageErrorView>),
}

impl View for Registration {
    type V = RegistrationView;

    open spec fn view(&self) -> RegistrationView {
        match self {
            Registration::Checking(req) => RegistrationView::Checking(req@),
            Registration::Inserting => RegistrationView::Inserting,
            Registration::Closed => RegistrationView::Closed,
        }
    }
}

impl View for RegistrationAction {
    type V = RegistrationActionView;

    open spec fn view(&self) -> RegistrationActionView {
        match self {
            RegistrationAction::EmailExists(email) => RegistrationActionView::EmailExists(email@),
            RegistrationAction::InsertUser(req) => RegistrationActionView::InsertUser(req@),
            RegistrationAction::Reply(Ok(id)) => RegistrationActionView::Reply(Ok(*id)),
            RegistrationAction::Reply(Err(err)) => RegistrationActionView::Reply(Err(err@)),
        }
    }
}

impl View for RegistrationEvent {
    type V = RegistrationEventView;

    open spec fn view(&self) -> RegistrationEventView {
        match self {
            RegistrationEvent::EmailChecked(Ok(taken)) => RegistrationEventView::EmailChecked(
                Ok(*taken),
            ),
            RegistrationEvent::EmailChecked(Err(err)) => RegistrationEventView::EmailChecked(
                Err(err@),
            ),
            RegistrationEvent::Inserted(Ok(id)) => RegistrationEventView::Inserted(Ok(*id)),
            RegistrationEvent::Inserted(Err(err)) => RegistrationEventView::Inserted(Err(err@)),
        }
    }
}

/// The view of a body that may not have been decoded.
pub open spec fn decoded_view(payload: Option<CreateReq>) -> Option<CreateReqView> {
    match payload {
        Some(req) => Some(req@),
        None => None,
    }
}

/// How a registration opens. A body that was not decoded and a body that
/// breaks a rule are answered at once; for any other, storage is asked
/// whether its address is taken.
pub open spec fn registration_opened(payload: Option<CreateReqView>) -> (
    RegistrationView,
    RegistrationActionView,
) {
    match payload {
        Some(req) => match req.verdict() {
            Some(violation) => (
                RegistrationView::Closed,
                RegistrationActionView::Reply(Err(ApiErrorView::Validation(violation))),
            ),
            None => (RegistrationView::Checking(req), RegistrationActionView::EmailExists(req.email)),
        },
        None => (
            RegistrationView::Closed,
            RegistrationActionView::Reply(Err(ApiErrorView::InvalidJSONBody)),
        ),
    }
}

/// How a registration goes on when storage has answered. A taken address is
/// refused with that address; a free one has the user added; the new
/// identifier is handed to the client; a fault of storage is a storage
/// error, which keeps storage's description of the fault for the log. An
/// answer that was not asked for is an internal error.
pub open spec fn registration_step(state: RegistrationView, event: RegistrationEventView) -> (
    RegistrationView,
    RegistrationActionView,
) {
    match (state, event) {
        (RegistrationView::Checking(req), RegistrationEventView::EmailChecked(Ok(taken))) => if taken {
            (
                RegistrationView::Closed,
                RegistrationActionView::Reply(
                    Err(ApiErrorView::User(UserErrorView::EmailAlreadyRegistered(req.email))),
                ),
            )
        } else {
            (RegistrationView::Inserting, RegistrationActionView::InsertUser(req))
        },
        (RegistrationView::Checking(_), RegistrationEventView::EmailChecked(Err(fault))) => (
            RegistrationView::Closed,
            RegistrationActionView::Reply(Err(ApiErrorView::Sqlx(fault.message))),
        ),
        (RegistrationView::Inserting, RegistrationEventView::Inserted(Ok(id))) => (
            RegistrationView::Closed,
            RegistrationActionView::Reply(Ok(id)),
        ),
        (RegistrationView::Inserting, RegistrationEventView::Inserted(Err(fault))) => (
            RegistrationView::Closed,
            RegistrationActionView::Reply(Err(ApiErrorView::Sqlx(fault.message))),
        ),
        _ => (RegistrationView::Closed, RegistrationActionView::Reply(Err(ApiErrorView::Internal))),
    }
}

/// Opens a registration with the body of the request, `None` where the body
/// could not be decoded, and says what is needed next.
pub fn create_handler(payload: Option<CreateReq>) -> (next: (Registration, RegistrationAction))
    ensures
        (next.0@, next.1@) == registration_opened(decoded_view(payload)),
{
    match ValidatedJson::from_request(payload) {
        Ok(ValidatedJson(req)) => {
            let email = req.email.clone();
            (Registration::Checking(req), RegistrationAction::EmailExists(email))
        },
        Err(err) => (Registration::Closed, RegistrationAction::Reply(Err(err))),
    }
}

impl Registration {
    /// Takes storage's answer and says what is needed next.
    pub fn on(self, event: RegistrationEvent) -> (next: (Registration, RegistrationAction))
        ensures
            (next.0@, next.1@) == registration_step(self@, event@),
    {
        match self {
            Registration::Checking(req) => match event {
                RegistrationEvent::EmailChecked(Ok(taken)) => {
                    if taken {
                        (
                            Registration::Closed,
                            RegistrationAction::Reply(
                                Err(ApiError::User(UserError::EmailAlreadyRegistered(req.email))),
                            ),
                        )
                    } else {
                        (Registration::Inserting, RegistrationAction::InsertUser(req))
                    }
                },
                RegistrationEvent::EmailChecked(Err(fault)) => (
                    Registration::Closed,
                    RegistrationAction::Reply(Err(ApiError::Sqlx(fault.message))),
                ),
                RegistrationEvent::Inserted(_) => (
                    Registration::Closed,
                    RegistrationAction::Reply(Err(ApiError::Internal)),
                ),
            },
            Registration::Inserting => match event {
                RegistrationEvent::Inserted(Ok(id)) => (
                    Registration::Closed,
                    RegistrationAction::Reply(Ok(id)),
                ),
                RegistrationEvent::Inserted(Err(fault)) => (
                    Registration::Closed,
                    RegistrationAction::Reply(Err(ApiError::Sqlx(fault.message))),
                ),
                RegistrationEvent::EmailChecked(_) => (
                    Registration::Closed,
                    RegistrationAction::Reply(Err(ApiError::Internal)),
                ),
            },
            Registration::Closed => (
                Registration::Closed,
                RegistrationAction::Reply(Err(ApiError::Internal)),
            ),
        }
    }
}

/// One registration served from its opening to the reply against the table
/// `users`, by a storage that answers truthfully and adds a user under the
/// identifier `id` at the time `now`: the table afterwards, and the reply.
pub open spec fn registration_served(
    users: Seq<UserView>,
    payload: Option<CreateReqView>,
    id: u64,
    now: i64,
) -> (Seq<UserView>, Result<u64, ApiErrorView>) {
    let (opened, first) = registration_opened(payload);
    match first {
        RegistrationActionView::Reply(reply) => (users, reply),
        RegistrationActionView::EmailExists(email) => {
            let (checked, second) = registration_step(
                opened,
                RegistrationEventView::EmailChecked(Ok(email_registered(users, email))),
            );
            match second {
                RegistrationActionView::Reply(reply) => (users, reply),
                RegistrationActionView::InsertUser(req) => {
                    let added = with_user(users, id, req.username, req.email, req.password, now);
                    let (_, third) = registration_step(
                        checked,
                        RegistrationEventView::Inserted(Ok(id)),
                    );
                    match third {
                        RegistrationActionView::Reply(reply) => (added, reply),
                        _ => (added, Err(ApiErrorView::Internal)),
                    }
                },
                _ => (users, Err(ApiErrorView::Internal)),
            }
        },
        _ => (users, Err(ApiErrorView::Internal)),
    }
}

/// A registration that is answered with an error has added no user.
pub proof fn lemma_refused_registration_adds_no_user(
    users: Seq<UserView>,
    payload: Option<CreateReqView>,
    id: u64,
    now: i64,
)
    requires
        registration_served(users, payload, id, now).1 is Err,
    ensures
        registration_served(users, payload, id, now).0 == users,
{
}

/// A registration succeeds exactly when the body was decoded, keeps its
/// rules, and its address is not in the table yet. It then adds that one
/// user and answers with the new identifier.
pub proof fn lemma_registration_succeeds_on_new_address(
    users: Seq<UserView>,
    payload: Option<CreateReqView>,
    id: u64,
    now: i64,
)
    ensures
        registration_served(users, payload, id, now).1 is Ok <==> (payload matches Some(req)
            && req.verdict() is None && !email_registered(users, req.email)),
        registration_served(users, payload, id, now).1 is Ok ==> {
            let req = payload.unwrap();
            &&& registration_served(users, payload, id, now).1 == Ok::<u64, ApiErrorView>(id)
            &&& registration_served(users, payload, id, now).0 == with_user(
                users,
                id,
                req.username,
                req.email,
                req.password,
                now,
            )
        },
{
}

/// A request that keeps its rules and whose address is in the table already
/// is refused with that address, and the table stays as it is.
pub proof fn lemma_taken_address_is_refused(
    users: Seq<UserView>,
    req: CreateReqView,
    id: u64,
    now: i64,
)
    requires
        req.verdict() is None,
        email_registered(users, req.email),
    ensures
        registration_served(users, Some(req), id, now) == (
            users,
            Err::<u64, ApiErrorView>(
                ApiErrorView::User(UserErrorView::EmailAlreadyRegistered(req.email)),
            ),
        ),
{
}

/// Of two registrations with one address, served one after the other, the
/// second is refused with that address once the first has succeeded, and
/// adds no second user.
pub proof fn lemma_second_registration_is_refused(
    users: Seq<UserView>,
    first: CreateReqView,
    second: CreateReqView,
    first_id: u64,
    second_id: u64,
    first_now: i64,
    second_now: i64,
)
    requires
        first.email == second.email,
        second.verdict() is None,
        registration_served(users, Some(first), first_id, first_now).1 is Ok,
    ensures
        ({
            let after_first = registration_served(users, Some(first), first_id, first_now).0;
            registration_served(after_first, Some(second), second_id, second_now) == (
                after_first,
                Err::<u64, ApiErrorView>(
                    ApiErrorView::User(UserErrorView::EmailAlreadyRegistered(second.email)),
                ),
            )
        }),
{
    let after_first = registration_served(users, Some(first), first_id, first_now).0;
    lemma_registration_succeeds_on_new_address(users, Some(first), first_id, first_now);
    assert(after_first[users.len() as int].email == first.email);
    lemma_taken_address_is_refused(after_first, second, second_id, second_now);
}

/// A table in which no two users share an address stays so through every
/// registration.
pub proof fn lemma_registration_keeps_addresses_unique(
    users: Seq<UserView>,
    payload: Option<CreateReqView>,
    id: u64,
    now: i64,
)
    requires
        emails_unique(users),
    ensures
        emails_unique(registration_served(users, payload, id, now).0),
{
    let after = registration_served(users, payload, id, now).0;
    if registration_served(users, payload, id, now).1 is Ok {
        lemma_registration_succeeds_on_new_address(users, payload, id, now);
        assert forall|i: int, j: int| 0 <= i < j < after.len() implies (#[trigger] after[i]).email
            != (#[trigger] after[j]).email by {
            if j < users.len() {
                assert(after[i] == users[i] && after[j] == users[j]);
            } else {
                assert(after[i] == users[i]);
            }
        }
    } else {
        lemma_refused_registration_adds_no_user(users, payload, id, now);
    }
}

/// A request whose address is no email address is answered with a
/// validation error at its opening: storage is never asked.
pub proof fn lemma_malformed_address_never_reaches_storage(req: CreateReqView)
    requires
        !email_accepted(req.email),
    ensures
        registration_opened(Some(req)).0 == RegistrationView::Closed,
        registration_opened(Some(req)).1 matches RegistrationActionView::Reply(
            Err(ApiErrorView::Validation(_)),
        ),
{
}

/// A user is added only as the next step after storage has said that the
/// address is free, and it is the user of the request that was checked. No
/// registration opens with adding a user.
pub proof fn lemma_user_is_added_only_to_a_free_address(
    payload: Option<CreateReqView>,
    state: RegistrationView,
    event: RegistrationEventView,
)
    ensures
        !(registration_opened(payload).1 is InsertUser),
        registration_step(state, event).1 matches RegistrationActionView::InsertUser(user) ==> {
            &&& state == RegistrationView::Checking(user)
            &&& event == RegistrationEventView::EmailChecked(Ok(false))
            &&& registration_step(state, event).0 == RegistrationView::Inserting
        },
        registration_opened(payload).1 matches RegistrationActionView::EmailExists(email) ==> {
            &&& payload matches Some(req)
            &&& req.verdict() is None
            &&& req.email == email
            &&& registration_opened(payload).0 == RegistrationView::Checking(req)
        },
{
}

/// A registration that is closed stays closed, and every reply closes it.
pub proof fn lemma_reply_closes_registration(state: RegistrationView, event: RegistrationEventView)
    ensures
        registration_step(state, event).1 is Reply ==> registration_step(state, event).0
            == RegistrationView::Closed,
        state == RegistrationView::Closed ==> registration_step(state, event) == (
            RegistrationView::Closed,
            RegistrationActionView::Reply(Err::<u64, ApiErrorView>(ApiErrorView::Internal)),
        ),
{
}

} // verus!
