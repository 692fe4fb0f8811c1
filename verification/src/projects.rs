//! The handlers under `/projects`.
//!
//! The project's state as the gateway service reports it is of some type `S`,
//! and the service's error of some type `E`: the handlers look into neither.

use crate::access::{ScopedUser, User};
use vstd::prelude::*;

verus! {

/// The state of a project in a response.
#[derive(Debug, PartialEq, Eq)]
pub enum State<S> {
    /// What the gateway service reports.
    Reported(S),
    /// The project is on its way out.
    Destroying,
}

/// What the handlers answer about a project.
#[derive(Debug, PartialEq, Eq)]
pub struct Response<S> {
    pub name: String,
    pub state: State<S>,
}

/// Work on a project for the gateway's worker.
#[derive(Debug, PartialEq, Eq)]
pub struct Task {
    pub project: String,
    /// The account in whose name the work is done.
    pub account: String,
    /// Whether the work ends with the project destroyed.
    pub destroy: bool,
}

/// Asks the service for the state of `project`.
#[derive(Debug, PartialEq, Eq)]
pub struct FindProject {
    pub project: String,
}

/// `GET /projects/:project`.
pub fn get_project(user: &ScopedUser) -> (command: FindProject)
    ensures
        command == (FindProject { project: user.scope() }),
        user.user().may_access(command.project@),
{
    FindProject { project: user.project() }
}

impl FindProject {
    pub open spec fn answer<S, E>(self, found: Result<S, E>) -> Result<Response<S>, E> {
        match found {
            Ok(state) => Ok(Response { name: self.project, state: State::Reported(state) }),
            Err(error) => Err(error),
        }
    }

    /// The answer, once the service has looked for the project.
    pub fn found<S, E>(self, found: Result<S, E>) -> (answer: Result<Response<S>, E>)
        ensures
            answer == self.answer(found),
    {
        match found {
            Ok(state) => Ok(Response { name: self.project, state: State::Reported(state) }),
            Err(error) => Err(error),
        }
    }
}

/// Asks the service to create `project` for `account`.
#[derive(Debug, PartialEq, Eq)]
pub struct CreateProject {
    pub project: String,
    pub account: String,
}

/// Asks for `task` to be sent to the worker: the service has created a project,
/// which is in `state`.
#[derive(Debug, PartialEq, Eq)]
pub struct StartProject<S> {
    pub task: Task,
    pub state: S,
}

/// What [`post_project`] asks for.
pub open spec fn create_command(user: User, project: String) -> CreateProject {
    CreateProject { project, account: user.name }
}

/// `POST /projects/:project`: first the service creates the project, then the
/// worker gets a task for it.
pub fn post_project(user: &User, project: String) -> (command: CreateProject)
    ensures
        command == create_command(*user, project),
{
    CreateProject { project, account: user.name.clone() }
}

impl CreateProject {
    pub open spec fn next<S, E>(self, created: Result<S, E>) -> Result<StartProject<S>, E> {
        match created {
            Ok(state) => Ok(
                StartProject {
                    task: Task { project: self.project, account: self.account, destroy: false },
                    state,
                },
            ),
            Err(error) => Err(error),
        }
    }

    /// The next command, once the service has created the project; the answer,
    /// if it has not.
    pub fn created<S, E>(self, created: Result<S, E>) -> (next: Result<StartProject<S>, E>)
        ensures
            next == self.next(created),
    {
        match created {
            Ok(state) => Ok(
                StartProject {
                    task: Task { project: self.project, account: self.account, destroy: false },
                    state,
                },
            ),
            Err(error) => Err(error),
        }
    }
}

impl<S> StartProject<S> {
    pub open spec fn answer<E>(self, sent: Result<(), E>) -> Result<Response<S>, E> {
        match sent {
            Ok(()) => Ok(Response { name: self.task.project, state: State::Reported(self.state) }),
            Err(error) => Err(error),
        }
    }

    /// The answer, once the task was sent to the worker.
    pub fn sent<E>(self, sent: Result<(), E>) -> (answer: Result<Response<S>, E>)
        ensures
            answer == self.answer(sent),
    {
        match sent {
            Ok(()) => Ok(Response { name: self.task.project, state: State::Reported(self.state) }),
            Err(error) => Err(error),
        }
    }
}

/// Asks for `task` to be sent to the worker.
#[derive(Debug, PartialEq, Eq)]
pub struct DestroyProject {
    pub task: Task,
}

/// What [`delete_project`] asks for.
pub open spec fn destroy_command(user: ScopedUser, project: String) -> DestroyProject {
    DestroyProject { task: Task { project, account: user.user().name, destroy: true } }
}

/// `DELETE /projects/:project`: the worker gets the task to destroy `project`.
///
/// `user` was let in to the project that the request's path names, and
/// `project` is that same name, read from the path a second time.
pub fn delete_project(user: &ScopedUser, project: String) -> (command: DestroyProject)
    ensures
        command == destroy_command(*user, project),
        project@ == user.scope()@ ==> user.user().may_access(command.task.project@),
{
    proof {
        use_type_invariant(user);
    }
    DestroyProject { task: Task { project, account: user.name(), destroy: true } }
}

impl DestroyProject {
    pub open spec fn answer<S, E>(self, sent: Result<(), E>) -> Result<Response<S>, E> {
        match sent {
            Ok(()) => Ok(Response { name: self.task.project, state: State::Destroying }),
            Err(error) => Err(error),
        }
    }

    /// The answer, once the task was sent to the worker. The worker has not
    /// carried it out yet.
    pub fn sent<S, E>(self, sent: Result<(), E>) -> (answer: Result<Response<S>, E>)
        ensures
            answer == self.answer::<S, E>(sent),
    {
        match sent {
            Ok(()) => Ok(Response { name: self.task.project, state: State::Destroying }),
            Err(error) => Err(error),
        }
    }
}

/// Asks the service to pass `request` on to the running `project`.
#[derive(Debug, PartialEq, Eq)]
pub struct RouteProject<R> {
    pub project: String,
    pub request: R,
}

/// Any request for `/projects/:project/*any`: it is passed on as it came.
pub fn route_project<R>(user: &ScopedUser, request: R) -> (command: RouteProject<R>)
    ensures
        command == (RouteProject { project: user.scope(), request }),
        user.user().may_access(command.project@),
{
    RouteProject { project: user.project(), request }
}

/// The answer to a request that was passed on, once the service is done: the
/// response that came back, or the service's error.
pub fn project_routed<T, E>(routed: Result<T, E>) -> (answer: Result<T, E>)
    ensures
        answer == routed,
{
    routed
}

/// The answer to `POST /projects/:project` from first to last: `command` is
/// what [`post_project`] asks for, `created` and `sent` are the outcomes.
pub open spec fn post_project_answer<S, E>(
    command: CreateProject,
    created: Result<S, E>,
    sent: Result<(), E>,
) -> Result<Response<S>, E> {
    match command.next(created) {
        Ok(start) => start.answer(sent),
        Err(error) => Err(error),
    }
}

/// A project that was not created gets no task and its error is the answer. A
/// task that could not be sent is an error too. With neither, the answer is
/// the project in the state it was created in.
pub proof fn post_project_reports_the_first_error<S, E>(
    command: CreateProject,
    created: Result<S, E>,
    sent: Result<(), E>,
)
    ensures
        created matches Err(error) ==> command.next(created) is Err && post_project_answer(
            command,
            created,
            sent,
        ) == Err::<Response<S>, E>(error),
        created is Ok ==> (sent matches Err(error) ==> post_project_answer(command, created, sent)
            == Err::<Response<S>, E>(error)),
        created matches Ok(state) ==> (sent is Ok ==> post_project_answer(command, created, sent)
            == Ok::<Response<S>, E>(
            Response { name: command.project, state: State::Reported(state) },
        )),
{
}

/// While the service reports a project in the state it was created in, asking
/// for the project gives the answer that creating it gave.
pub proof fn get_project_answers_as_post_project_did<S, E>(command: CreateProject, state: S)
    ensures
        (FindProject { project: command.project }).answer::<S, E>(Ok(state))
            == post_project_answer::<S, E>(command, Ok(state), Ok(())),
{
}

/// `DELETE /projects/:project` sends a task that destroys the project and, once
/// it is sent, answers that the project is on its way out.
/// `POST /projects/:project` does neither. Both send the task in the name of
/// the caller and answer under the name of the project that it is about.
pub proof fn only_delete_project_destroys<S, E>(
    user: User,
    scoped: ScopedUser,
    project: String,
    state: S,
)
    ensures
        create_command(user, project).next::<S, E>(Ok(state)) matches Ok(start) && start.task == (
        Task { project, account: user.name, destroy: false }),
        post_project_answer::<S, E>(create_command(user, project), Ok(state), Ok(())) matches Ok(
            response,
        ) && response.name == project && response.state !is Destroying,
        destroy_command(scoped, project).task == (Task {
            project,
            account: scoped.user().name,
            destroy: true,
        }),
        destroy_command(scoped, project).answer::<S, E>(Ok(())) matches Ok(response)
            && response.name == project && response.state is Destroying,
{
}

/// `GET /projects/:project` from first to last: the service is asked about the
/// project that the caller was let in to, and the answer is that project in the
/// state that the service reports, or the service's error.
pub proof fn get_project_shows_what_was_found<S, E>(
    user: &ScopedUser,
    command: FindProject,
    found: Result<S, E>,
    answer: Result<Response<S>, E>,
)
    requires
        call_ensures(get_project, (user,), command),
        call_ensures(FindProject::found::<S, E>, (command, found), answer),
    ensures
        command.project@ == user.scope()@,
        found matches Ok(state) ==> (answer matches Ok(response) && response.name@
            == user.scope()@ && response.state == State::Reported(state)),
        found matches Err(error) ==> answer == Err::<Response<S>, E>(error),
{
}

/// `POST /projects/:project` up to the service's outcome: the service is asked
/// to create the named project for the caller. If it fails its error is the
/// answer; otherwise the worker gets a task that is about the named project, in
/// the caller's name, and does not destroy it.
pub proof fn post_project_starts_what_was_named<S, E>(
    user: &User,
    project: String,
    command: CreateProject,
    created: Result<S, E>,
    next: Result<StartProject<S>, E>,
)
    requires
        call_ensures(post_project, (user, project), command),
        call_ensures(CreateProject::created::<S, E>, (command, created), next),
    ensures
        command.project@ == project@,
        command.account@ == user.name@,
        created matches Err(error) ==> next == Err::<StartProject<S>, E>(error),
        created matches Ok(state) ==> (next matches Ok(start) && start.task.project@ == project@
            && start.task.account@ == user.name@ && !start.task.destroy && start.state == state),
{
}

/// `POST /projects/:project` after the task was sent, or not: the answer is the
/// project that the task is about, in the state it was created in, or the error.
pub proof fn post_project_answers_for_its_task<S, E>(
    start: StartProject<S>,
    sent: Result<(), E>,
    answer: Result<Response<S>, E>,
)
    requires
        call_ensures(StartProject::<S>::sent::<E>, (start, sent), answer),
    ensures
        sent is Ok ==> (answer matches Ok(response) && response.name@ == start.task.project@
            && response.state == State::Reported(start.state)),
        sent matches Err(error) ==> answer == Err::<Response<S>, E>(error),
{
}

/// `DELETE /projects/:project` from first to last: the task destroys the named
/// project in the caller's name, and the answer is that project on its way out,
/// or the error of sending the task.
pub proof fn delete_project_destroys_what_was_named<S, E>(
    user: &ScopedUser,
    project: String,
    command: DestroyProject,
    sent: Result<(), E>,
    answer: Result<Response<S>, E>,
)
    requires
        call_ensures(delete_project, (user, project), command),
        call_ensures(DestroyProject::sent::<S, E>, (command, sent), answer),
    ensures
        command.task.project@ == project@,
        command.task.account@ == user.user().name@,
        command.task.destroy,
        sent is Ok ==> (answer matches Ok(response) && response.name@ == project@
            && response.state is Destroying),
        sent matches Err(error) ==> answer == Err::<Response<S>, E>(error),
{
}

/// Any request for a running project: it is passed on as it came, to the
/// project that the caller was let in to, and what comes back is the answer.
pub proof fn route_project_changes_nothing<R, T, E>(
    user: &ScopedUser,
    request: R,
    command: RouteProject<R>,
    routed: Result<T, E>,
    answer: Result<T, E>,
)
    requires
        call_ensures(route_project::<R>, (user, request), command),
        call_ensures(project_routed::<T, E>, (routed,), answer),
    ensures
        command.project@ == user.scope()@,
        command.request == request,
        answer == routed,
{
}

} // verus!
