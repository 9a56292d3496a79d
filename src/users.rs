use vstd::prelude::*;

use crate::db::{
    CreateUser, CreateUserView, Database, LoginUser, User, UserView, email_taken, new_record,
    optional_record,
};
use crate::response::{
    ACCEPTED, BAD_REQUEST, CONFLICT, CREATED, INTERNAL_SERVER_ERROR, NOT_FOUND, ServerResponse,
    is_error_response,
};

verus! {

/// Message for a registration whose name or email is empty.
pub open spec fn msg_empty_fields() -> Seq<char> {
    "\"{ name, email }\" cannot be empty"@
}

/// Message for a registration whose name is too short.
pub open spec fn msg_short_name() -> Seq<char> {
    "The value of the name property must be greater than 3"@
}

/// Message for an email without an `@`.
pub open spec fn msg_email_without_at() -> Seq<char> {
    "The value of the email property must have an @"@
}

/// Message for a registration whose email is already registered.
pub open spec fn msg_user_exists() -> Seq<char> {
    "The user you tried to create already exists"@
}

/// Message for a registration the store could not persist.
pub open spec fn msg_insert_failed() -> Seq<char> {
    "The user could not be created"@
}

/// Message for a successful registration.
pub open spec fn msg_user_created() -> Seq<char> {
    "User was created successfully"@
}

/// Message for a login with an unknown email.
pub open spec fn msg_user_not_found() -> Seq<char> {
    "User not found"@
}

/// Message for a successful login.
pub open spec fn msg_welcome() -> Seq<char> {
    "Welcome to shopped"@
}

/// The shortest name a registration accepts, in characters.
pub const MIN_NAME_LEN: usize = 3;

/// Why a registration with this name and email is rejected before the store
/// is consulted (the first failing rule wins), or `None` when it is not.
pub open spec fn registration_rejection(name: Seq<char>, email: Seq<char>) -> Option<Seq<char>> {
    if name.len() == 0 || email.len() == 0 {
        Some(msg_empty_fields())
    } else if name.len() < MIN_NAME_LEN {
        Some(msg_short_name())
    } else if !email.contains('@') {
        Some(msg_email_without_at())
    } else {
        None
    }
}

/// Whether `s` holds the character `@`.
pub fn has_at_sign(s: &String) -> (r: bool)
    ensures
        r == s@.contains('@'),
{
    let n = s.as_str().unicode_len();
    let mut i: usize = 0;
    while i < n
        invariant
            n == s@.len(),
            0 <= i <= n,
            forall|j: int| 0 <= j < i ==> s@[j] != '@',
        decreases n - i,
    {
        if s.as_str().get_char(i) == '@' {
            return true;
        }
        i = i + 1;
    }
    false
}

/// The first step of registration: checks the payload's fields, in order.
/// `Ok` means the payload may go on to the duplicate check; `Err` holds the
/// 400 answer naming the first rule it breaks.
pub fn check_registration<T>(input: &CreateUser) -> (r: Result<(), ServerResponse<T>>)
    ensures
        match r {
            Ok(()) => registration_rejection(input.name@, input.email@) is None,
            Err(resp) => registration_rejection(input.name@, input.email@) == Some(resp.msg@)
                && resp.status == BAD_REQUEST && resp.data is None,
        },
{
    if input.name.as_str().is_empty() || input.email.as_str().is_empty() {
        return Err(ServerResponse::error(BAD_REQUEST, "\"{ name, email }\" cannot be empty"));
    }
    if input.name.as_str().unicode_len() < MIN_NAME_LEN {
        return Err(
            ServerResponse::error(
                BAD_REQUEST,
                "The value of the name property must be greater than 3",
            ),
        );
    }
    if !has_at_sign(&input.email) {
        return Err(
            ServerResponse::error(BAD_REQUEST, "The value of the email property must have an @"),
        );
    }
    Ok(())
}

/// The second step of registration, once the store has been asked for the
/// email: a 409 answer when a user was found, `None` to go on and insert.
pub fn registration_after_lookup<T>(found: bool) -> (r: Option<ServerResponse<T>>)
    ensures
        r is Some == found,
        r matches Some(resp) ==> is_error_response(resp, CONFLICT, msg_user_exists()),
{
    if found {
        Some(ServerResponse::error(CONFLICT, "The user you tried to create already exists"))
    } else {
        None
    }
}

/// The last step of registration, once the store has answered the insert:
/// 201 with the created record, or 500 when the store failed.
pub fn registration_after_insert<T, E>(inserted: Result<T, E>) -> (r: ServerResponse<T>)
    ensures
        match inserted {
            Ok(user) => r.status == CREATED && r.msg@ == msg_user_created() && r.data == Some(
                user,
            ),
            Err(_) => is_error_response(r, INTERNAL_SERVER_ERROR, msg_insert_failed()),
        },
{
    match inserted {
        Ok(user) => ServerResponse::success(CREATED, "User was created successfully", user),
        Err(_) => ServerResponse::error(INTERNAL_SERVER_ERROR, "The user could not be created"),
    }
}

/// The first step of login: the email must hold an `@`. `Err` holds the 400
/// answer.
pub fn check_login<T>(input: &LoginUser) -> (r: Result<(), ServerResponse<T>>)
    ensures
        r is Ok == input.email@.contains('@'),
        r matches Err(resp) ==> is_error_response(resp, BAD_REQUEST, msg_email_without_at()),
{
    if has_at_sign(&input.email) {
        Ok(())
    } else {
        Err(ServerResponse::error(BAD_REQUEST, "The value of the email property must have an @"))
    }
}

/// The last step of login, once the store has been asked for the email:
/// 202 with an empty payload when a user was found, else 404. No credential
/// is checked.
pub fn login_after_lookup(found: bool) -> (r: ServerResponse<()>)
    ensures
        found ==> r.status == ACCEPTED && r.msg@ == msg_welcome() && r.data == Some(()),
        !found ==> is_error_response(r, NOT_FOUND, msg_user_not_found()),
{
    if found {
        ServerResponse::success(ACCEPTED, "Welcome to shopped", ())
    } else {
        ServerResponse::error(NOT_FOUND, "User not found")
    }
}

/// The status a registration of `input` answers with when the store holds `users`.
pub open spec fn register_status(users: Seq<UserView>, input: CreateUserView) -> u16 {
    if registration_rejection(input.name, input.email) is Some {
        BAD_REQUEST
    } else if email_taken(users, input.email) {
        CONFLICT
    } else {
        CREATED
    }
}

/// The message a registration of `input` answers with when the store holds `users`.
pub open spec fn register_message(users: Seq<UserView>, input: CreateUserView) -> Seq<char> {
    match registration_rejection(input.name, input.email) {
        Some(msg) => msg,
        None => if email_taken(users, input.email) {
            msg_user_exists()
        } else {
            msg_user_created()
        },
    }
}

/// The record a registration of `input` answers with when the store holds
/// `users`: the created one on success, none otherwise.
pub open spec fn register_record(users: Seq<UserView>, input: CreateUserView) -> Option<UserView> {
    if register_status(users, input) == CREATED {
        Some(new_record(users, input))
    } else {
        None
    }
}

/// The records the store holds after a registration of `input`: one more,
/// the new one, exactly when the registration succeeds.
pub open spec fn users_after_register(users: Seq<UserView>, input: CreateUserView) -> Seq<
    UserView,
> {
    if register_status(users, input) == CREATED {
        users.push(new_record(users, input))
    } else {
        users
    }
}

/// The status a login with `email` answers with when the store holds `users`.
pub open spec fn login_status(users: Seq<UserView>, email: Seq<char>) -> u16 {
    if !email.contains('@') {
        BAD_REQUEST
    } else if !email_taken(users, email) {
        NOT_FOUND
    } else {
        ACCEPTED
    }
}

/// The message a login with `email` answers with when the store holds `users`.
pub open spec fn login_message(users: Seq<UserView>, email: Seq<char>) -> Seq<char> {
    if !email.contains('@') {
        msg_email_without_at()
    } else if !email_taken(users, email) {
        msg_user_not_found()
    } else {
        msg_welcome()
    }
}

/// Registers `input` against `db`: validates it, refuses an email that is
/// already registered, and otherwise inserts it and answers with the created
/// record.
pub fn register(db: &mut Database, input: CreateUser) -> (r: ServerResponse<User>)
    requires
        old(db).wf(),
    ensures
        final(db).wf(),
        final(db)@ == users_after_register(old(db)@, input@),
        r.status == register_status(old(db)@, input@),
        r.msg@ == register_message(old(db)@, input@),
        optional_record(r.data) == register_record(old(db)@, input@),
{
    if let Err(resp) = check_registration(&input) {
        return resp;
    }
    let existing = db.get_user_by_email(&input.email);
    if let Some(resp) = registration_after_lookup(existing.is_some()) {
        return resp;
    }
    let user = db.insert_user(input);
    registration_after_insert::<User, ()>(Ok(user))
}

/// Logs in with `input`: answers 202 with an empty payload when the email is
/// registered. No credential is checked.
pub fn login(db: &Database, input: LoginUser) -> (r: ServerResponse<()>)
    ensures
        r.status == login_status(db@, input.email@),
        r.msg@ == login_message(db@, input.email@),
        r.data is Some == (r.status == ACCEPTED),
{
    if let Err(resp) = check_login(&input) {
        return resp;
    }
    let existing = db.get_user_by_email(&input.email);
    login_after_lookup(existing.is_some())
}

/// A registration with an empty name or an empty email is refused with 400
/// and no record, whatever the store holds.
pub proof fn lemma_register_empty_field_refused(users: Seq<UserView>, input: CreateUserView)
    requires
        input.name.len() == 0 || input.email.len() == 0,
    ensures
        register_status(users, input) == BAD_REQUEST,
        register_record(users, input) is None,
        users_after_register(users, input) == users,
{
}

/// A registration whose name has fewer than three characters is refused with 400.
pub proof fn lemma_register_short_name_refused(users: Seq<UserView>, input: CreateUserView)
    requires
        input.name.len() < 3,
    ensures
        register_status(users, input) == BAD_REQUEST,
        register_record(users, input) is None,
{
}

/// A registration whose email holds no `@` is refused with 400.
pub proof fn lemma_register_email_without_at_refused(users: Seq<UserView>, input: CreateUserView)
    requires
        !input.email.contains('@'),
    ensures
        register_status(users, input) == BAD_REQUEST,
        register_record(users, input) is None,
{
}

/// A valid registration whose email is not yet registered answers 201 with
/// the record it inserts, and the store gains exactly that record.
pub proof fn lemma_register_new_email_created(users: Seq<UserView>, input: CreateUserView)
    requires
        registration_rejection(input.name, input.email) is None,
        !email_taken(users, input.email),
    ensures
        register_status(users, input) == CREATED,
        register_record(users, input) == Some(new_record(users, input)),
        users_after_register(users, input) == users.push(new_record(users, input)),
{
}

/// Registering a second time with the same email answers 409 with no record,
/// and leaves the store as the first registration left it.
pub proof fn lemma_register_twice_conflicts(
    users: Seq<UserView>,
    first: CreateUserView,
    second: CreateUserView,
)
    requires
        registration_rejection(first.name, first.email) is None,
        registration_rejection(second.name, second.email) is None,
        second.email == first.email,
    ensures
        ({
            let after = users_after_register(users, first);
            &&& register_status(after, second) == CONFLICT
            &&& register_record(after, second) is None
            &&& users_after_register(after, second) == after
        }),
{
    let after = users_after_register(users, first);
    if !email_taken(users, first.email) {
        let i = users.len() as int;
        assert(after[i].email == second.email);
    }
    assert(email_taken(after, second.email));
}

/// A login whose email holds no `@` is refused with 400.
pub proof fn lemma_login_email_without_at_refused(users: Seq<UserView>, email: Seq<char>)
    requires
        !email.contains('@'),
    ensures
        login_status(users, email) == BAD_REQUEST,
{
}

/// A login with a well-formed email that no record has answers 404.
pub proof fn lemma_login_unknown_email_not_found(users: Seq<UserView>, email: Seq<char>)
    requires
        email.contains('@'),
        !email_taken(users, email),
    ensures
        login_status(users, email) == NOT_FOUND,
        login_message(users, email) == msg_user_not_found(),
{
}

/// A login with a well-formed email that a record has answers 202; no
/// credential enters the decision.
pub proof fn lemma_login_known_email_accepted(users: Seq<UserView>, email: Seq<char>)
    requires
        email.contains('@'),
        email_taken(users, email),
    ensures
        login_status(users, email) == ACCEPTED,
        login_message(users, email) == msg_welcome(),
{
}

} // verus!
