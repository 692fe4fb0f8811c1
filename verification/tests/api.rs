//! The API as a client sees it, over a gateway service that lives in memory.

use gateway::access::{Admin, Caller, Refusal, ScopedUser, User};
use gateway::projects::{
    delete_project, get_project, post_project, project_routed, route_project, Response, State, Task,
};
use gateway::requests::{handle, Command, Request};
use gateway::routes::{make_api, Endpoint, Method};
use gateway::status::get_status;
use gateway::users::{get_user, post_user};
use tokio::sync::mpsc::{channel, Receiver, Sender};

const QUEUE_SIZE: usize = 2048;

const OK: u16 = 200;
const BAD_REQUEST: u16 = 400;
const UNAUTHORIZED: u16 = 401;
const FORBIDDEN: u16 = 403;
const NOT_FOUND: u16 = 404;
const INTERNAL_SERVER_ERROR: u16 = 500;

struct Registered {
    name: String,
    key: String,
    super_user: bool,
}

struct World {
    accounts: Vec<Registered>,
    /// Projects and their owners.
    projects: Vec<(String, String)>,
    sender: Sender<Task>,
}

impl World {
    fn new(sender: Sender<Task>) -> World {
        World {
            accounts: Vec::new(),
            projects: Vec::new(),
            sender,
        }
    }

    fn create_user(&mut self, name: &str) -> Result<String, u16> {
        if self.accounts.iter().any(|account| account.name == name) {
            return Err(BAD_REQUEST);
        }
        let key = format!("key-of-{name}");
        self.accounts.push(Registered {
            name: name.to_string(),
            key: key.clone(),
            super_user: false,
        });
        Ok(key)
    }

    fn find_user(&self, name: &str) -> Result<String, u16> {
        let found = self.accounts.iter().find(|account| account.name == name);
        found.map(|account| account.key.clone()).ok_or(NOT_FOUND)
    }

    fn set_super_user(&mut self, name: &str) {
        for account in self.accounts.iter_mut() {
            if account.name == name {
                account.super_user = true;
            }
        }
    }

    fn create_project(&mut self, project: &str, account: &str) -> Result<&'static str, u16> {
        if self.projects.iter().any(|(name, _)| name == project) {
            return Err(BAD_REQUEST);
        }
        self.projects
            .push((project.to_string(), account.to_string()));
        Ok("creating")
    }

    fn find_project(&self, project: &str) -> Result<&'static str, u16> {
        if self.projects.iter().any(|(name, _)| name == project) {
            Ok("creating")
        } else {
            Err(NOT_FOUND)
        }
    }

    fn send(&self, task: &Task) -> Result<(), u16> {
        let task = Task {
            project: task.project.clone(),
            account: task.account.clone(),
            destroy: task.destroy,
        };
        self.sender.try_send(task).map_err(|_| INTERNAL_SERVER_ERROR)
    }

    fn caller(&self, key: Option<&str>) -> Option<User> {
        let key = key?;
        let account = self.accounts.iter().find(|account| account.key == key)?;
        let projects = self
            .projects
            .iter()
            .filter(|(_, owner)| *owner == account.name)
            .map(|(project, _)| project.clone())
            .collect();
        Some(User {
            name: account.name.clone(),
            projects,
            super_user: account.super_user,
        })
    }

    /// The status code of the answer to a request.
    fn call(&mut self, method: Method, path: &str, key: Option<&str>) -> u16 {
        let (endpoint, parameter) = find_route(method, path).unwrap();
        let request = match endpoint {
            Endpoint::GetStatus => Request::GetStatus,
            Endpoint::GetProject => Request::GetProject { project: parameter },
            Endpoint::DeleteProject => Request::DeleteProject { project: parameter },
            Endpoint::PostProject => Request::PostProject { project: parameter },
            Endpoint::GetUser => Request::GetUser {
                account_name: parameter,
            },
            Endpoint::PostUser => Request::PostUser {
                account_name: parameter,
            },
            _ => panic!("not part of this world"),
        };
        let command = match handle::<()>(request, self.caller(key)) {
            Ok(command) => command,
            Err(refusal) => return refusal.status_code(),
        };
        match self.carry_out(command) {
            Ok(code) => code,
            Err(code) => code,
        }
    }

    fn carry_out(&mut self, command: Command<()>) -> Result<u16, u16> {
        match command {
            Command::ReportStatus => Ok(get_status(&self.sender, QUEUE_SIZE).code),
            Command::FindProject(command) => {
                let found = self.find_project(&command.project);
                command.found(found).map(|_| OK)
            }
            Command::CreateProject(command) => {
                let created = self.create_project(&command.project, &command.account);
                let start = command.created(created)?;
                let sent = self.send(&start.task);
                start.sent(sent).map(|_| OK)
            }
            Command::DestroyProject(command) => {
                let sent = self.send(&command.task);
                command.sent::<(), u16>(sent).map(|_| OK)
            }
            Command::RetrieveUser(command) => {
                let found = self.find_user(&command.account_name);
                command.retrieved(found).map(|_| OK)
            }
            Command::CreateUser(command) => {
                let created = self.create_user(&command.account_name);
                command.created(created).map(|_| OK)
            }
            _ => panic!("not part of this world"),
        }
    }
}

/// The endpoint behind a path, with the last parameter in the path.
fn find_route(method: Method, path: &str) -> Option<(Endpoint, String)> {
    let given: Vec<&str> = path.split('/').collect();
    for route in make_api() {
        let wanted: Vec<&str> = route.path.split('/').collect();
        let fits = wanted.len() == given.len()
            && wanted
                .iter()
                .zip(given.iter())
                .all(|(wanted, given)| wanted.starts_with(':') || wanted == given);
        if fits && route.method == method {
            return Some((route.endpoint, given[given.len() - 1].to_string()));
        }
    }
    None
}

fn drain(receiver: &mut Receiver<Task>) -> Vec<Task> {
    let mut tasks = Vec::new();
    while let Ok(task) = receiver.try_recv() {
        tasks.push(task);
    }
    tasks
}

#[test]
fn api_create_get_delete_projects() {
    let (sender, mut receiver) = channel::<Task>(256);
    let mut world = World::new(sender);

    let neo = world.create_user("neo").unwrap();
    let neo = Some(neo.as_str());

    let code = world.call(Method::Post, "/projects/matrix", None);
    assert_eq!(code, UNAUTHORIZED);
    assert!(drain(&mut receiver).is_empty());

    let code = world.call(Method::Post, "/projects/matrix", neo);
    assert_eq!(code, OK);
    let started = Task {
        project: "matrix".to_string(),
        account: "neo".to_string(),
        destroy: false,
    };
    assert_eq!(drain(&mut receiver), vec![started]);

    let code = world.call(Method::Post, "/projects/matrix", neo);
    assert_eq!(code, BAD_REQUEST);
    assert!(drain(&mut receiver).is_empty());

    let code = world.call(Method::Get, "/projects/matrix", None);
    assert_eq!(code, UNAUTHORIZED);

    let code = world.call(Method::Get, "/projects/matrix", neo);
    assert_eq!(code, OK);

    let code = world.call(Method::Delete, "/projects/matrix", neo);
    assert_eq!(code, OK);
    let destroyed = Task {
        project: "matrix".to_string(),
        account: "neo".to_string(),
        destroy: true,
    };
    assert_eq!(drain(&mut receiver), vec![destroyed]);

    let code = world.call(Method::Post, "/projects/reloaded", neo);
    assert_eq!(code, OK);
    drain(&mut receiver);

    let trinity = world.create_user("trinity").unwrap();
    let trinity = Some(trinity.as_str());

    let code = world.call(Method::Get, "/projects/reloaded", trinity);
    assert_eq!(code, NOT_FOUND);

    let code = world.call(Method::Delete, "/projects/reloaded", trinity);
    assert_eq!(code, NOT_FOUND);
    assert!(drain(&mut receiver).is_empty());

    world.set_super_user("trinity");

    let code = world.call(Method::Get, "/projects/reloaded", trinity);
    assert_eq!(code, OK);

    let code = world.call(Method::Delete, "/projects/reloaded", trinity);
    assert_eq!(code, OK);
    let destroyed = Task {
        project: "reloaded".to_string(),
        account: "trinity".to_string(),
        destroy: true,
    };
    assert_eq!(drain(&mut receiver), vec![destroyed]);
}

#[test]
fn api_create_get_users() {
    let (sender, _receiver) = channel::<Task>(256);
    let mut world = World::new(sender);

    let code = world.call(Method::Get, "/users/neo", None);
    assert_eq!(code, UNAUTHORIZED);

    let neo = world.create_user("neo").unwrap();

    let code = world.call(Method::Get, "/users/neo", None);
    assert_eq!(code, UNAUTHORIZED);

    let neo = Some(neo.as_str());

    let code = world.call(Method::Get, "/users/neo", neo);
    assert_eq!(code, FORBIDDEN);

    let code = world.call(Method::Post, "/users/trinity", neo);
    assert_eq!(code, FORBIDDEN);

    world.set_super_user("neo");

    let code = world.call(Method::Get, "/users/neo", neo);
    assert_eq!(code, OK);

    let code = world.call(Method::Post, "/users/trinity", neo);
    assert_eq!(code, OK);

    let code = world.call(Method::Post, "/users/trinity", neo);
    assert_eq!(code, BAD_REQUEST);
}

#[test]
fn status() {
    let (sender, mut receiver) = channel::<Task>(1);
    let mut world = World::new(sender);

    let code = world.call(Method::Get, "/", None);
    assert_eq!(code, OK);

    let neo = world.create_user("neo").unwrap();
    let code = world.call(Method::Post, "/projects/matrix", Some(neo.as_str()));
    assert_eq!(code, OK);

    let code = world.call(Method::Get, "/", None);
    assert_eq!(code, INTERNAL_SERVER_ERROR);

    assert_eq!(drain(&mut receiver).len(), 1);

    let code = world.call(Method::Get, "/", None);
    assert_eq!(code, OK);

    drop(receiver);

    let code = world.call(Method::Get, "/", None);
    assert_eq!(code, INTERNAL_SERVER_ERROR);
}

fn user(name: &str, projects: &[&str], super_user: bool) -> User {
    User {
        name: name.to_string(),
        projects: projects.iter().map(|project| project.to_string()).collect(),
        super_user,
    }
}

#[test]
fn a_project_is_answered_under_its_name() {
    let neo = user("neo", &["matrix", "reloaded"], false);
    let scoped = ScopedUser::authorize(Some(neo), "reloaded".to_string()).unwrap();
    assert_eq!(scoped.name(), "neo");
    assert_eq!(scoped.project(), "reloaded");

    let command = get_project(&scoped);
    assert_eq!(command.project, "reloaded");
    let answer = command.found::<&str, ()>(Ok("ready"));
    let expected = Response {
        name: "reloaded".to_string(),
        state: State::Reported("ready"),
    };
    assert_eq!(answer, Ok(expected));

    assert_eq!(get_project(&scoped).found::<&str, u8>(Err(7)), Err(7));
}

#[test]
fn a_routed_request_is_passed_on_as_it_came() {
    let neo = user("neo", &["matrix"], false);
    let scoped = ScopedUser::authorize(Some(neo), "matrix".to_string()).unwrap();

    let command = route_project(&scoped, "GET /projects/matrix/status");
    assert_eq!(command.project, "matrix");
    assert_eq!(command.request, "GET /projects/matrix/status");

    assert_eq!(project_routed::<&str, u8>(Ok("running")), Ok("running"));
    assert_eq!(project_routed::<&str, u8>(Err(5)), Err(5));
}

#[test]
fn get_user_answers_what_post_user_answered() {
    let smith = Admin::authorize(Some(user("smith", &[], true))).unwrap();

    let command = post_user(&smith, "neo".to_string());
    assert_eq!(command.account_name, "neo");
    let posted = command.created::<&str, u8>(Ok("neo, with a key"));
    assert_eq!(posted, Ok("neo, with a key"));

    let command = get_user(&smith, "neo".to_string());
    assert_eq!(command.account_name, "neo");
    let got = command.retrieved::<&str, u8>(Ok("neo, with a key"));
    assert_eq!(got, posted);
}

#[test]
fn errors_about_users_are_handed_on() {
    let smith = Admin::authorize(Some(user("smith", &[], true))).unwrap();

    let command = post_user(&smith, "neo".to_string());
    assert_eq!(command.created::<&str, u8>(Err(4)), Err(4));
    let command = get_user(&smith, "neo".to_string());
    assert_eq!(command.retrieved::<&str, u8>(Err(9)), Err(9));
}

/// One request for each endpoint, about the project and the account `name`.
fn requests(name: &str) -> Vec<(Endpoint, Request<u8>)> {
    let name = name.to_string();
    vec![
        (Endpoint::GetStatus, Request::GetStatus),
        (
            Endpoint::GetProject,
            Request::GetProject {
                project: name.clone(),
            },
        ),
        (
            Endpoint::DeleteProject,
            Request::DeleteProject {
                project: name.clone(),
            },
        ),
        (
            Endpoint::PostProject,
            Request::PostProject {
                project: name.clone(),
            },
        ),
        (
            Endpoint::GetUser,
            Request::GetUser {
                account_name: name.clone(),
            },
        ),
        (
            Endpoint::PostUser,
            Request::PostUser {
                account_name: name.clone(),
            },
        ),
        (
            Endpoint::RouteProject,
            Request::RouteProject {
                project: name.clone(),
                request: 1,
            },
        ),
        (Endpoint::ReviveProjects, Request::ReviveProjects),
        (
            Endpoint::CreateAcmeAccount,
            Request::CreateAcmeAccount {
                email: name.clone(),
            },
        ),
        (
            Endpoint::RequestAcmeCertificate,
            Request::RequestAcmeCertificate {
                fqdn: name,
                json: serde_json::Value::Null,
            },
        ),
    ]
}

fn path_of(endpoint: Endpoint) -> &'static str {
    let routes = make_api();
    let route = routes.iter().find(|route| route.endpoint == endpoint);
    route.unwrap().path
}

#[test]
fn every_route_but_the_status_asks_for_a_key() {
    for (endpoint, request) in requests("neo") {
        let result = handle(request, None);
        if path_of(endpoint) == "/" {
            assert!(matches!(result, Ok(Command::ReportStatus)));
        } else {
            assert_eq!(result.err(), Some(Refusal::Unauthorized));
        }
    }
}

#[test]
fn plain_users_administer_nothing() {
    // Not even their own account.
    for (endpoint, request) in requests("neo") {
        let refused = handle(request, Some(user("neo", &[], false))).err();
        let path = path_of(endpoint);
        let expected = if path.starts_with("/users/") || path.starts_with("/admin/") {
            Some(Refusal::Forbidden)
        } else if path.starts_with("/projects/") && endpoint != Endpoint::PostProject {
            Some(Refusal::NotFound)
        } else {
            None
        };
        assert_eq!(refused, expected);
    }
}

#[test]
fn super_users_are_let_in_everywhere() {
    for (_, request) in requests("matrix") {
        assert!(handle(request, Some(user("smith", &[], true))).is_ok());
    }
}

#[test]
fn requests_lead_to_their_commands() {
    for (endpoint, request) in requests("matrix") {
        let command = handle(request, Some(user("smith", &[], true)))
            .unwrap_or_else(|refusal| panic!("{refusal:?}"));
        match (endpoint, command) {
            (Endpoint::GetStatus, Command::ReportStatus) => {}
            (Endpoint::GetProject, Command::FindProject(command)) => {
                assert_eq!(command.project, "matrix");
            }
            (Endpoint::DeleteProject, Command::DestroyProject(command)) => {
                let task = Task {
                    project: "matrix".to_string(),
                    account: "smith".to_string(),
                    destroy: true,
                };
                assert_eq!(command.task, task);
            }
            (Endpoint::PostProject, Command::CreateProject(command)) => {
                assert_eq!(command.project, "matrix");
                assert_eq!(command.account, "smith");
            }
            (Endpoint::GetUser, Command::RetrieveUser(command)) => {
                assert_eq!(command.account_name, "matrix");
            }
            (Endpoint::PostUser, Command::CreateUser(command)) => {
                assert_eq!(command.account_name, "matrix");
            }
            (Endpoint::RouteProject, Command::RouteProject(command)) => {
                assert_eq!(command.project, "matrix");
                assert_eq!(command.request, 1);
            }
            (Endpoint::ReviveProjects, Command::ReviveProjects(_)) => {}
            (Endpoint::CreateAcmeAccount, Command::CreateAcmeAccount(command)) => {
                assert_eq!(command.contact, "mailto:matrix");
            }
            (Endpoint::RequestAcmeCertificate, Command::RestoreAcmeAccount(command)) => {
                assert!(command.is_err());
            }
            (endpoint, _) => panic!("{endpoint:?}"),
        }
    }
}

#[test]
fn post_project_stops_at_the_first_error() {
    let neo = user("neo", &[], false);

    let command = post_project(&neo, "matrix".to_string());
    assert_eq!(command.created::<&str, u8>(Err(1)), Err(1));

    let command = post_project(&neo, "matrix".to_string());
    let start = command.created::<&str, u8>(Ok("creating")).unwrap();
    assert_eq!(start.sent(Err(2)), Err(2));
}

#[test]
fn get_project_answers_what_post_project_answered() {
    let neo = user("neo", &["matrix"], false);

    let command = post_project(&neo, "matrix".to_string());
    let start = command.created::<&str, u8>(Ok("creating")).unwrap();
    let posted = start.sent::<u8>(Ok(()));

    let scoped = ScopedUser::authorize(Some(neo), "matrix".to_string()).unwrap();
    let got = get_project(&scoped).found::<&str, u8>(Ok("creating"));
    assert_eq!(got, posted);
}

#[test]
fn a_deleted_project_is_destroying() {
    let morpheus = user("morpheus", &[], true);
    let scoped = ScopedUser::authorize(Some(morpheus), "matrix".to_string()).unwrap();

    let command = delete_project(&scoped, "matrix".to_string());
    assert_eq!(command.task.account, "morpheus");
    assert!(command.task.destroy);
    let expected = Response {
        name: "matrix".to_string(),
        state: State::Destroying,
    };
    assert_eq!(command.sent::<&str, u8>(Ok(())), Ok(expected));

    let command = delete_project(&scoped, "matrix".to_string());
    assert_eq!(command.sent::<&str, u8>(Err(3)), Err(3));
}

#[test]
fn refusals() {
    let refused = User::authenticate(None).unwrap_err();
    assert_eq!(refused, Refusal::Unauthorized);
    let refused = Admin::authorize(None).unwrap_err();
    assert_eq!(refused, Refusal::Unauthorized);
    let refused = ScopedUser::authorize(None, "matrix".to_string()).unwrap_err();
    assert_eq!(refused, Refusal::Unauthorized);

    let neo = user("neo", &["matrix"], false);
    let refused = Admin::authorize(Some(neo)).unwrap_err();
    assert_eq!(refused, Refusal::Forbidden);

    let neo = user("neo", &["matrix", "reload"], false);
    let refused = ScopedUser::authorize(Some(neo), "reloaded".to_string()).unwrap_err();
    assert_eq!(refused, Refusal::NotFound);

    assert_eq!(Refusal::Unauthorized.status_code(), 401);
    assert_eq!(Refusal::Forbidden.status_code(), 403);
    assert_eq!(Refusal::NotFound.status_code(), 404);
}

#[test]
fn routes_are_distinct() {
    let routes = make_api();
    assert_eq!(routes.len(), 10);
    for (i, one) in routes.iter().enumerate() {
        for other in &routes[i + 1..] {
            assert_ne!(one.endpoint, other.endpoint);
            if one.path == other.path {
                assert_ne!(one.method, other.method);
            }
        }
    }
    let catch_all = routes
        .iter()
        .find(|route| route.endpoint == Endpoint::RouteProject)
        .unwrap();
    assert_eq!(catch_all.path, "/projects/:project/*any");
    assert_eq!(catch_all.method, Method::Any);
}

#[test]
fn refusals_at_the_door() {
    let neo = Some(user("neo", &["matrix"], false));
    let smith = Some(user("smith", &[], true));

    assert_eq!(Caller::Anyone.refuse_at_the_door(&None), None);
    for caller in [Caller::User, Caller::ScopedUser, Caller::Admin] {
        let refused = caller.refuse_at_the_door(&None);
        assert_eq!(refused, Some(Refusal::Unauthorized));
        assert_eq!(caller.refuse_at_the_door(&smith), None);
    }
    assert_eq!(Caller::User.refuse_at_the_door(&neo), None);
    assert_eq!(Caller::ScopedUser.refuse_at_the_door(&neo), None);
    let refused = Caller::Admin.refuse_at_the_door(&neo);
    assert_eq!(refused, Some(Refusal::Forbidden));
}

#[test]
fn a_router_takes_all_routes() {
    // Panics where a route overlaps with one that is there already.
    let mut router = axum::Router::<axum::body::Body>::new();
    for route in make_api() {
        let handler = match route.method {
            Method::Get => axum::routing::get(|| async {}),
            Method::Post => axum::routing::post(|| async {}),
            Method::Delete => axum::routing::delete(|| async {}),
            Method::Any => axum::routing::any(|| async {}),
        };
        let handler = handler.layer(axum::Extension(route.endpoint));
        router = router.route(route.path, handler);
    }
    drop(router);
}

#[test]
fn endpoints_ask_for_their_callers() {
    for route in make_api() {
        let expected = if route.path == "/" {
            Caller::Anyone
        } else if !route.path.starts_with("/projects/") {
            Caller::Admin
        } else if route.method == Method::Post {
            Caller::User
        } else {
            Caller::ScopedUser
        };
        assert_eq!(route.endpoint.asks_for(), expected);
    }
}
