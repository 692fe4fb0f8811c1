//! The handlers under `/users`, all of them for super users only.
//!
//! A user as the gateway service shows one is of some type `U`, and the
//! service's error of some type `E`: the handlers look into neither.

use crate::access::Admin;
use vstd::prelude::*;

verus! {

/// Asks the service for the user of the account `account_name`.
#[derive(Debug, PartialEq, Eq)]
pub struct RetrieveUser {
    pub account_name: String,
}

/// Asks the service to create the user of the account `account_name`.
#[derive(Debug, PartialEq, Eq)]
pub struct CreateUser {
    pub account_name: String,
}

/// What [`get_user`] asks for.
pub open spec fn retrieve_command(account_name: String) -> RetrieveUser {
    RetrieveUser { account_name }
}

/// What [`post_user`] asks for.
pub open spec fn create_command(account_name: String) -> CreateUser {
    CreateUser { account_name }
}

/// `GET /users/:account_name`.
pub fn get_user(admin: &Admin, account_name: String) -> (command: RetrieveUser)
    ensures
        command == retrieve_command(account_name),
        admin.user().super_user,
{
    proof {
        use_type_invariant(admin);
    }
    RetrieveUser { account_name }
}

/// `POST /users/:account_name`.
pub fn post_user(admin: &Admin, account_name: String) -> (command: CreateUser)
    ensures
        command == create_command(account_name),
        admin.user().super_user,
{
    proof {
        use_type_invariant(admin);
    }
    CreateUser { account_name }
}

impl RetrieveUser {
    pub open spec fn answer<U, E>(self, found: Result<U, E>) -> Result<U, E> {
        found
    }

    /// The answer, once the service has looked for the user: what it found, or
    /// its error.
    pub fn retrieved<U, E>(self, found: Result<U, E>) -> (answer: Result<U, E>)
        ensures
            answer == self.answer(found),
    {
        found
    }
}

impl CreateUser {
    pub open spec fn answer<U, E>(self, created: Result<U, E>) -> Result<U, E> {
        created
    }

    /// The answer, once the service was asked to create the user: the user, or
    /// the service's error, such as that there is one already.
    pub fn created<U, E>(self, created: Result<U, E>) -> (answer: Result<U, E>)
        ensures
            answer == self.answer(created),
    {
        created
    }
}

/// While the service shows a user as it did when it created the user, asking
/// for the user gives the answer that creating the user gave.
pub proof fn get_user_answers_as_post_user_did<U, E>(
    account_name: String,
    created: Result<U, E>,
    found: Result<U, E>,
    answer: U,
)
    requires
        create_command(account_name).answer(created) == Ok::<U, E>(answer),
        found == created,
    ensures
        retrieve_command(account_name).account_name == create_command(account_name).account_name,
        retrieve_command(account_name).answer(found) == Ok::<U, E>(answer),
{
}

/// `GET /users/:account_name` from first to last: the service is asked about
/// the named account, and what it says is the answer.
pub proof fn get_user_shows_what_was_found<U, E>(
    admin: &Admin,
    account_name: String,
    command: RetrieveUser,
    found: Result<U, E>,
    answer: Result<U, E>,
)
    requires
        call_ensures(get_user, (admin, account_name), command),
        call_ensures(RetrieveUser::retrieved::<U, E>, (command, found), answer),
    ensures
        command.account_name@ == account_name@,
        answer == found,
{
}

/// `POST /users/:account_name` from first to last: the service is asked to
/// create the named account, and what it says is the answer.
pub proof fn post_user_shows_what_was_created<U, E>(
    admin: &Admin,
    account_name: String,
    command: CreateUser,
    created: Result<U, E>,
    answer: Result<U, E>,
)
    requires
        call_ensures(post_user, (admin, account_name), command),
        call_ensures(CreateUser::created::<U, E>, (command, created), answer),
    ensures
        command.account_name@ == account_name@,
        answer == created,
{
}

} // verus!
