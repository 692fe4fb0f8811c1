//! What becomes of a request: it is refused, or its handler runs for the caller
//! it asks for and hands out a command.
//!
//! Without a command nothing is asked of the gateway service, of its worker or
//! of an ACME server, so a refused request changes and discloses nothing.

use crate::access::{Admin, Refusal, ScopedUser, User};
use crate::admin;
use crate::admin::{CreateAcmeAccount, RestoreAcmeAccount, ReviveProjects};
use crate::error::ApiError;
use crate::projects;
use crate::projects::{CreateProject, DestroyProject, FindProject, RouteProject};
use crate::routes::Endpoint;
use crate::users;
use crate::users::{CreateUser, RetrieveUser};
use vstd::prelude::*;

verus! {

/// A request, by the handler it is for, with what that handler reads from it.
/// One that is passed on to a project is whole, of some type `R`.
pub enum Request<R> {
    GetStatus,
    GetProject { project: String },
    DeleteProject { project: String },
    PostProject { project: String },
    GetUser { account_name: String },
    PostUser { account_name: String },
    RouteProject { project: String, request: R },
    ReviveProjects,
    CreateAcmeAccount { email: String },
    RequestAcmeCertificate { fqdn: String, json: serde_json::Value },
}

/// What a handler hands out.
pub enum Command<R> {
    /// To be answered with [`crate::status::get_status`].
    ReportStatus,
    FindProject(FindProject),
    DestroyProject(DestroyProject),
    CreateProject(CreateProject),
    RetrieveUser(RetrieveUser),
    CreateUser(CreateUser),
    RouteProject(RouteProject<R>),
    ReviveProjects(ReviveProjects),
    CreateAcmeAccount(CreateAcmeAccount),
    /// An error is the answer already.
    RestoreAcmeAccount(Result<RestoreAcmeAccount, ApiError>),
}

impl<R> Request<R> {
    /// The handler that the request is for.
    pub open spec fn endpoint(self) -> Endpoint {
        match self {
            Request::GetStatus => Endpoint::GetStatus,
            Request::GetProject { .. } => Endpoint::GetProject,
            Request::DeleteProject { .. } => Endpoint::DeleteProject,
            Request::PostProject { .. } => Endpoint::PostProject,
            Request::GetUser { .. } => Endpoint::GetUser,
            Request::PostUser { .. } => Endpoint::PostUser,
            Request::RouteProject { .. } => Endpoint::RouteProject,
            Request::ReviveProjects => Endpoint::ReviveProjects,
            Request::CreateAcmeAccount { .. } => Endpoint::CreateAcmeAccount,
            Request::RequestAcmeCertificate { .. } => Endpoint::RequestAcmeCertificate,
        }
    }

    /// The project that the request names; empty if it names none.
    pub open spec fn project(self) -> Seq<char> {
        match self {
            Request::GetProject { project } => project@,
            Request::DeleteProject { project } => project@,
            Request::PostProject { project } => project@,
            Request::RouteProject { project, .. } => project@,
            _ => Seq::empty(),
        }
    }

    /// Why the request, sent with the key of `found`, is refused, if so.
    pub open spec fn refusal(self, found: Option<User>) -> Option<Refusal> {
        self.endpoint().caller().refusal(found, self.project())
    }

    /// `command` is what the request asks for when `found` sends it.
    pub open spec fn asks_for(self, found: Option<User>, command: Command<R>) -> bool {
        match self {
            Request::GetStatus => command == Command::<R>::ReportStatus,
            Request::GetProject { project } => command == Command::<R>::FindProject(
                FindProject { project },
            ),
            Request::DeleteProject { project } => command == Command::<R>::DestroyProject(
                DestroyProject {
                    task: projects::Task { project, account: found->0.name, destroy: true },
                },
            ),
            Request::PostProject { project } => command == Command::<R>::CreateProject(
                projects::create_command(found->0, project),
            ),
            Request::GetUser { account_name } => command == Command::<R>::RetrieveUser(
                users::retrieve_command(account_name),
            ),
            Request::PostUser { account_name } => command == Command::<R>::CreateUser(
                users::create_command(account_name),
            ),
            Request::RouteProject { project, request } => command == Command::<R>::RouteProject(
                RouteProject { project, request },
            ),
            Request::ReviveProjects => command == Command::<R>::ReviveProjects(ReviveProjects),
            Request::CreateAcmeAccount { email } => command matches Command::CreateAcmeAccount(
                create,
            ) && create.is_for(email@),
            Request::RequestAcmeCertificate { fqdn, json } => command
                == Command::<R>::RestoreAcmeAccount(admin::certificate_command(fqdn@, json)),
        }
    }
}

/// Refuses a request that was sent with the key of `found`, or runs its handler.
pub fn handle<R>(request: Request<R>, found: Option<User>) -> (result: Result<Command<R>, Refusal>)
    ensures
        match result {
            Ok(command) => request.refusal(found) is None && request.asks_for(found, command),
            Err(refusal) => request.refusal(found) == Some(refusal),
        },
{
    match request {
        Request::GetStatus => Ok(Command::ReportStatus),
        Request::GetProject { project } => match ScopedUser::authorize(found, project) {
            Ok(user) => Ok(Command::FindProject(projects::get_project(&user))),
            Err(refusal) => Err(refusal),
        },
        Request::DeleteProject { project } => match ScopedUser::authorize(found, project.clone()) {
            Ok(user) => Ok(Command::DestroyProject(projects::delete_project(&user, project))),
            Err(refusal) => Err(refusal),
        },
        Request::PostProject { project } => match User::authenticate(found) {
            Ok(user) => Ok(Command::CreateProject(projects::post_project(&user, project))),
            Err(refusal) => Err(refusal),
        },
        Request::GetUser { account_name } => match Admin::authorize(found) {
            Ok(admin) => Ok(Command::RetrieveUser(users::get_user(&admin, account_name))),
            Err(refusal) => Err(refusal),
        },
        Request::PostUser { account_name } => match Admin::authorize(found) {
            Ok(admin) => Ok(Command::CreateUser(users::post_user(&admin, account_name))),
            Err(refusal) => Err(refusal),
        },
        Request::RouteProject { project, request } => match ScopedUser::authorize(found, project) {
            Ok(user) => Ok(Command::RouteProject(projects::route_project(&user, request))),
            Err(refusal) => Err(refusal),
        },
        Request::ReviveProjects => match Admin::authorize(found) {
            Ok(admin) => Ok(Command::ReviveProjects(admin::revive_projects(&admin))),
            Err(refusal) => Err(refusal),
        },
        Request::CreateAcmeAccount { email } => match Admin::authorize(found) {
            Ok(admin) => Ok(
                Command::CreateAcmeAccount(admin::create_acme_account(&admin, email.as_str())),
            ),
            Err(refusal) => Err(refusal),
        },
        Request::RequestAcmeCertificate { fqdn, json } => match Admin::authorize(found) {
            Ok(admin) => Ok(
                Command::RestoreAcmeAccount(
                    admin::request_acme_certificate(&admin, fqdn.as_str(), json),
                ),
            ),
            Err(refusal) => Err(refusal),
        },
    }
}

/// Every request but `GET /` is answered 401 if it carries no key: `i` is the
/// route that the request comes by.
pub proof fn without_a_key_only_the_status_is_served<R>(i: int, request: Request<R>)
    requires
        0 <= i < crate::routes::api().len(),
        crate::routes::api()[i].2 == request.endpoint(),
        crate::routes::api()[i].0 != "/"@,
    ensures
        request.refusal(None) matches Some(refusal) && refusal.code() == 401,
{
}

/// `GET /` is served to everybody.
pub proof fn the_status_is_served_to_everybody<R>(
    i: int,
    request: Request<R>,
    found: Option<User>,
)
    requires
        0 <= i < crate::routes::api().len(),
        crate::routes::api()[i].2 == request.endpoint(),
        crate::routes::api()[i].0 == "/"@,
    ensures
        request.refusal(found) is None,
{
    crate::routes::callers_go_by_section(i);
}

/// Every request under `/users/` and `/admin/` is answered 403 to a user who is
/// no super user, whichever account it names: `i` is the route that the request
/// comes by.
pub proof fn plain_users_do_not_administer<R>(i: int, request: Request<R>, user: User)
    requires
        0 <= i < crate::routes::api().len(),
        crate::routes::api()[i].2 == request.endpoint(),
        "/users/"@.is_prefix_of(crate::routes::api()[i].0) || "/admin/"@.is_prefix_of(
            crate::routes::api()[i].0,
        ),
        !user.super_user,
    ensures
        request.refusal(Some(user)) matches Some(refusal) && refusal.code() == 403,
{
    crate::routes::callers_go_by_section(i);
}

/// A request for `/projects/:project` or below it, other than one to create the
/// project, is answered 404 to a user who is no super user and does not own it.
pub proof fn projects_of_others_do_not_exist<R>(i: int, request: Request<R>, user: User)
    requires
        0 <= i < crate::routes::api().len(),
        crate::routes::api()[i].2 == request.endpoint(),
        "/projects/"@.is_prefix_of(crate::routes::api()[i].0),
        crate::routes::api()[i].1 !is Post,
        !user.may_access(request.project()),
    ensures
        request.refusal(Some(user)) matches Some(refusal) && refusal.code() == 404,
{
    crate::routes::callers_go_by_section(i);
}

/// A request goes to the handler of its kind.
pub proof fn requests_go_to_the_handler_of_their_kind<R>(request: Request<R>)
    ensures
        request.endpoint() is GetStatus <==> request is GetStatus,
        request.endpoint() is GetProject <==> request is GetProject,
        request.endpoint() is DeleteProject <==> request is DeleteProject,
        request.endpoint() is PostProject <==> request is PostProject,
        request.endpoint() is GetUser <==> request is GetUser,
        request.endpoint() is PostUser <==> request is PostUser,
        request.endpoint() is RouteProject <==> request is RouteProject,
        request.endpoint() is ReviveProjects <==> request is ReviveProjects,
        request.endpoint() is CreateAcmeAccount <==> request is CreateAcmeAccount,
        request.endpoint() is RequestAcmeCertificate <==> request is RequestAcmeCertificate,
{
}

/// Without a user nothing is served but the status, which everybody gets, and
/// every user may ask for a new project.
pub proof fn handle_serves_users<R>(
    request: Request<R>,
    found: Option<User>,
    result: Result<Command<R>, Refusal>,
)
    requires
        call_ensures(handle::<R>, (request, found), result),
    ensures
        request is GetStatus ==> result is Ok,
        request !is GetStatus && found is None ==> result == Err::<Command<R>, Refusal>(
            Refusal::Unauthorized,
        ),
        request is PostProject && found is Some ==> result is Ok,
{
}

/// A request about an existing project is served to super users and to whoever
/// has the project's very name on the list of projects. To any other user the
/// project does not exist.
pub proof fn handle_opens_listed_projects<R>(
    request: Request<R>,
    project: String,
    passed_on: R,
    user: User,
    result: Result<Command<R>, Refusal>,
)
    requires
        request == (Request::<R>::GetProject { project }) || request == (
        Request::<R>::DeleteProject { project }) || request == (Request::<R>::RouteProject {
            project,
            request: passed_on,
        }),
        call_ensures(handle::<R>, (request, Some(user)), result),
    ensures
        result is Ok <==> user.super_user || exists|i: int|
            0 <= i < user.projects@.len() && (#[trigger] user.projects@[i])@ == project@,
        result is Err ==> result == Err::<Command<R>, Refusal>(Refusal::NotFound),
{
}

/// A request about users or of administration is served to super users, and
/// forbidden to any other user.
pub proof fn handle_administers_for_super_users<R>(
    request: Request<R>,
    user: User,
    result: Result<Command<R>, Refusal>,
)
    requires
        request is GetUser || request is PostUser || request is ReviveProjects
            || request is CreateAcmeAccount || request is RequestAcmeCertificate,
        call_ensures(handle::<R>, (request, Some(user)), result),
    ensures
        result is Ok <==> user.super_user,
        result is Err ==> result == Err::<Command<R>, Refusal>(Refusal::Forbidden),
{
}

/// The command is always of the kind of the request, whoever sends it.
pub proof fn handle_keeps_the_kind<R>(
    request: Request<R>,
    found: Option<User>,
    result: Result<Command<R>, Refusal>,
)
    requires
        call_ensures(handle::<R>, (request, found), result),
    ensures
        result matches Ok(command) ==> {
            &&& command is ReportStatus <==> request is GetStatus
            &&& command is FindProject <==> request is GetProject
            &&& command is DestroyProject <==> request is DeleteProject
            &&& command is CreateProject <==> request is PostProject
            &&& command is RetrieveUser <==> request is GetUser
            &&& command is CreateUser <==> request is PostUser
            &&& command is RouteProject <==> request is RouteProject
            &&& command is ReviveProjects <==> request is ReviveProjects
            &&& command is CreateAcmeAccount <==> request is CreateAcmeAccount
            &&& command is RestoreAcmeAccount <==> request is RequestAcmeCertificate
        },
{
}

/// A request to delete a project destroys the project that it names, in the
/// name of its sender, and no project that the sender is not let in to.
pub proof fn handle_destroys_what_is_named<R>(
    project: String,
    found: Option<User>,
    result: Result<Command<R>, Refusal>,
)
    requires
        call_ensures(handle::<R>, (Request::<R>::DeleteProject { project }, found), result),
    ensures
        result is Ok ==> (result matches Ok(Command::DestroyProject(destroy))
            && destroy.task.destroy && destroy.task.project@ == project@),
        result matches Ok(Command::DestroyProject(destroy)) ==> (found matches Some(user)
            && destroy.task.account@ == user.name@ && (user.super_user || exists|i: int|
            0 <= i < user.projects@.len() && (#[trigger] user.projects@[i])@
                == destroy.task.project@)),
{
}

/// A request to create a project creates the project that it names, for its
/// sender.
pub proof fn handle_creates_what_is_named<R>(
    project: String,
    user: User,
    result: Result<Command<R>, Refusal>,
)
    requires
        call_ensures(handle::<R>, (Request::<R>::PostProject { project }, Some(user)), result),
    ensures
        result matches Ok(Command::CreateProject(create)) && create.project@ == project@
            && create.account@ == user.name@,
{
}

/// A request for a project finds the project that it names.
pub proof fn handle_finds_what_is_named<R>(
    project: String,
    found: Option<User>,
    result: Result<Command<R>, Refusal>,
)
    requires
        call_ensures(handle::<R>, (Request::<R>::GetProject { project }, found), result),
    ensures
        result is Ok ==> (result matches Ok(Command::FindProject(find)) && find.project@
            == project@),
{
}

/// A request for something below a project is passed on, as it came, to the
/// project that it names, whoever of those let in sends it.
pub proof fn handle_passes_on_what_came<R>(
    project: String,
    request: R,
    found: Option<User>,
    result: Result<Command<R>, Refusal>,
)
    requires
        call_ensures(handle::<R>, (Request::<R>::RouteProject { project, request }, found), result),
    ensures
        result is Ok ==> (result matches Ok(Command::RouteProject(route)) && route.project@
            == project@ && route.request == request),
{
}

/// A request about a user is about the account that it names.
pub proof fn handle_looks_for_the_account_named<R>(
    account_name: String,
    found: Option<User>,
    retrieved: Result<Command<R>, Refusal>,
    created: Result<Command<R>, Refusal>,
)
    requires
        call_ensures(handle::<R>, (Request::<R>::GetUser { account_name }, found), retrieved),
        call_ensures(handle::<R>, (Request::<R>::PostUser { account_name }, found), created),
    ensures
        retrieved is Ok <==> created is Ok,
        retrieved is Ok ==> (retrieved matches Ok(Command::RetrieveUser(retrieve))
            && retrieve.account_name@ == account_name@),
        created is Ok ==> (created matches Ok(Command::CreateUser(create))
            && create.account_name@ == account_name@),
{
}

/// A super user's request for an ACME account asks Let's Encrypt for a new one,
/// under accepted terms, that is reached at the address of the request.
pub proof fn handle_asks_for_the_account_of_the_address<R>(
    email: String,
    user: User,
    result: Result<Command<R>, Refusal>,
)
    requires
        user.super_user,
        call_ensures(handle::<R>, (Request::<R>::CreateAcmeAccount { email }, Some(user)), result),
    ensures
        result matches Ok(Command::CreateAcmeAccount(create)) && {
            &&& create.contact@.len() == 7 + email@.len()
            &&& create.contact@.take(7) == "mailto:"@
            &&& create.contact@.skip(7) == email@
            &&& create.terms_of_service_agreed
            &&& !create.only_return_existing
            &&& create.server_url@ == "https://acme-v02.api.letsencrypt.org/directory"@
        },
{
    reveal_strlit("mailto:");
}

/// A super user's request for a certificate goes on exactly with JSON that
/// stands for credentials. It goes on with those very credentials and with what
/// its domain is read as, and otherwise its answer is an internal error.
pub proof fn handle_restores_the_account_given<R>(
    fqdn: String,
    json: serde_json::Value,
    user: User,
    result: Result<Command<R>, Refusal>,
)
    requires
        user.super_user,
        call_ensures(
            handle::<R>,
            (Request::<R>::RequestAcmeCertificate { fqdn, json }, Some(user)),
            result,
        ),
    ensures
        crate::trusted::credentials_from_json(json) matches Some(credentials) ==> (
        result matches Ok(Command::RestoreAcmeAccount(Ok(restore))) && {
            &&& restore.credentials == credentials
            &&& restore.fqdn is Ok <==> crate::trusted::is_fqdn(fqdn@)
            &&& restore.fqdn matches Ok(name) ==> name == crate::trusted::fqdn_of(fqdn@)
            &&& restore.fqdn matches Err(error) ==> error.kind is InvalidOperation
        }),
        crate::trusted::credentials_from_json(json) is None ==> (result matches Ok(
            Command::RestoreAcmeAccount(Err(error)),
        ) && error.kind is Internal),
{
}

/// What a request asks for lies in the request alone: of any two senders that
/// are let in, both get the same done. Only the name in which a project is
/// created or destroyed is the sender's own.
pub proof fn handle_does_the_same_for_all_let_in<R>(
    request: Request<R>,
    one: Option<User>,
    other: Option<User>,
    first: Command<R>,
    second: Command<R>,
)
    requires
        call_ensures(handle::<R>, (request, one), Ok::<Command<R>, Refusal>(first)),
        call_ensures(handle::<R>, (request, other), Ok::<Command<R>, Refusal>(second)),
    ensures
        request !is DeleteProject && request !is PostProject && request !is CreateAcmeAccount
            ==> first == second,
        first matches Command::DestroyProject(a) ==> (second matches Command::DestroyProject(b)
            && a.task.project == b.task.project && a.task.destroy == b.task.destroy),
        first matches Command::CreateProject(a) ==> (second matches Command::CreateProject(b)
            && a.project == b.project),
        first matches Command::CreateAcmeAccount(a) ==> (second matches Command::CreateAcmeAccount(
            b,
        ) && a.contact@ == b.contact@ && a.terms_of_service_agreed == b.terms_of_service_agreed
            && a.only_return_existing == b.only_return_existing && a.server_url@
            == b.server_url@),
        one == other ==> (first matches Command::DestroyProject(a) ==> second == first),
        one == other ==> (first matches Command::CreateProject(a) ==> second == first),
{
}

/// Whom the door of a handler turns away, the handler would turn away with the
/// same refusal.
pub proof fn the_door_agrees_with_the_handler<R>(
    request: Request<R>,
    found: Option<User>,
    caller: crate::access::Caller,
    refusal: Refusal,
    result: Result<Command<R>, Refusal>,
)
    requires
        call_ensures(Endpoint::asks_for, (request.endpoint(),), caller),
        call_ensures(
            crate::access::Caller::refuse_at_the_door,
            (caller, &found),
            Some(refusal),
        ),
        call_ensures(handle::<R>, (request, found), result),
    ensures
        result == Err::<Command<R>, Refusal>(refusal),
{
}

} // verus!
