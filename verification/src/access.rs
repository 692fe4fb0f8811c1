//! Who may use which part of the API.
//!
//! A request carries the key of a user, or none. `found` below is the user
//! whose key it carries, or `None`.
//!
//! Every handler but that of the status asks for one of three callers: some
//! user ([`User`]), a user who may see the project that the request names
//! ([`ScopedUser`]), or a super user ([`Admin`]). The latter two can be had only
//! through their `authorize`, so a handler that holds one runs for a caller who
//! was let in.

use crate::trusted;
use vstd::prelude::*;

verus! {

/// Why a request is turned away before its handler runs.
#[derive(Clone, Copy, Debug, PartialEq, Eq, Structural)]
pub enum Refusal {
    /// The request does not say whose it is.
    Unauthorized,
    /// Only a super user may do this.
    Forbidden,
    /// The caller has no such project.
    NotFound,
}

impl Refusal {
    pub open spec fn code(self) -> u16 {
        match self {
            Refusal::Unauthorized => 401,
            Refusal::Forbidden => 403,
            Refusal::NotFound => 404,
        }
    }

    /// The HTTP status code that the request is answered with.
    pub fn status_code(self) -> (code: u16)
        ensures
            code == self.code(),
    {
        match self {
            Refusal::Unauthorized => trusted::status_unauthorized(),
            Refusal::Forbidden => trusted::status_forbidden(),
            Refusal::NotFound => trusted::status_not_found(),
        }
    }
}

/// A user of the gateway.
#[derive(Debug)]
pub struct User {
    pub name: String,
    /// The projects that the user owns.
    pub projects: Vec<String>,
    pub super_user: bool,
}

impl User {
    /// The user owns `project`.
    pub open spec fn owns(self, project: Seq<char>) -> bool {
        exists|i: int| 0 <= i < self.projects@.len() && (#[trigger] self.projects@[i])@ == project
    }

    /// The user may see and change `project`.
    pub open spec fn may_access(self, project: Seq<char>) -> bool {
        self.super_user || self.owns(project)
    }

    /// Lets every user in.
    pub fn authenticate(found: Option<User>) -> (result: Result<User, Refusal>)
        ensures
            match result {
                Ok(user) => user_refusal(found) is None && Some(user) == found,
                Err(refusal) => user_refusal(found) == Some(refusal),
            },
    {
        match found {
            Some(user) => Ok(user),
            None => Err(Refusal::Unauthorized),
        }
    }

    fn is_owner_of(&self, project: &String) -> (owner: bool)
        ensures
            owner == self.owns(project@),
    {
        let mut i: usize = 0;
        while i < self.projects.len()
            invariant
                i <= self.projects@.len(),
                forall|j: int| 0 <= j < i ==> (#[trigger] self.projects@[j])@ != project@,
            decreases self.projects@.len() - i,
        {
            if self.projects[i] == *project {
                return true;
            }
            i += 1;
        }
        false
    }
}

/// Why a caller is kept from what every user may do, if so.
pub open spec fn user_refusal(found: Option<User>) -> Option<Refusal> {
    match found {
        None => Some(Refusal::Unauthorized),
        Some(_) => None,
    }
}

/// Why a caller is kept from what only super users may do, if so.
pub open spec fn admin_refusal(found: Option<User>) -> Option<Refusal> {
    match found {
        None => Some(Refusal::Unauthorized),
        Some(user) => if user.super_user {
            None
        } else {
            Some(Refusal::Forbidden)
        },
    }
}

/// Why a caller is kept from `project`, if so.
pub open spec fn scope_refusal(found: Option<User>, project: Seq<char>) -> Option<Refusal> {
    match found {
        None => Some(Refusal::Unauthorized),
        Some(user) => if user.may_access(project) {
            None
        } else {
            Some(Refusal::NotFound)
        },
    }
}

/// The caller that a handler asks for.
#[derive(Clone, Copy, Debug, PartialEq, Eq, Structural)]
pub enum Caller {
    /// Whoever sends the request, with a key or without.
    Anyone,
    /// A [`User`].
    User,
    /// A [`ScopedUser`].
    ScopedUser,
    /// An [`Admin`].
    Admin,
}

impl Caller {
    /// Why a request, which names `project` if any, is kept from a handler that
    /// asks for this caller, if so.
    pub open spec fn refusal(self, found: Option<User>, project: Seq<char>) -> Option<Refusal> {
        match self {
            Caller::Anyone => None,
            Caller::User => user_refusal(found),
            Caller::ScopedUser => scope_refusal(found, project),
            Caller::Admin => admin_refusal(found),
        }
    }

    /// Why a request is kept from a handler that asks for this caller before
    /// anything else of it is read, if so.
    pub open spec fn refusal_at_the_door(self, found: Option<User>) -> Option<Refusal> {
        match self {
            Caller::Anyone => None,
            Caller::User => user_refusal(found),
            Caller::ScopedUser => user_refusal(found),
            Caller::Admin => admin_refusal(found),
        }
    }

    /// Refuses a request before anything but its key was read, where it can.
    /// A request that is refused here would be refused in the same way whatever
    /// project it names.
    pub fn refuse_at_the_door(self, found: &Option<User>) -> (refusal: Option<Refusal>)
        ensures
            refusal == self.refusal_at_the_door(*found),
            refusal is Some ==> forall|project: Seq<char>| #[trigger]
                self.refusal(*found, project) == refusal,
    {
        match (self, found) {
            (Caller::Anyone, _) => None,
            (_, None) => Some(Refusal::Unauthorized),
            (Caller::Admin, Some(user)) => if user.super_user {
                None
            } else {
                Some(Refusal::Forbidden)
            },
            (_, Some(_)) => None,
        }
    }
}

/// A super user.
#[derive(Debug)]
pub struct Admin {
    user: User,
}

impl Admin {
    pub closed spec fn user(self) -> User {
        self.user
    }

    #[verifier::type_invariant]
    pub open spec fn wf(self) -> bool {
        self.user().super_user
    }

    /// Lets super users in, and nobody else.
    pub fn authorize(found: Option<User>) -> (result: Result<Admin, Refusal>)
        ensures
            match result {
                Ok(admin) => admin_refusal(found) is None && Some(admin.user()) == found,
                Err(refusal) => admin_refusal(found) == Some(refusal),
            },
    {
        let user = match User::authenticate(found) {
            Ok(user) => user,
            Err(refusal) => return Err(refusal),
        };
        if user.super_user {
            Ok(Admin { user })
        } else {
            Err(Refusal::Forbidden)
        }
    }
}

/// A user together with a project that the user may see and change.
#[derive(Debug)]
pub struct ScopedUser {
    user: User,
    scope: String,
}

impl ScopedUser {
    pub closed spec fn user(self) -> User {
        self.user
    }

    pub closed spec fn scope(self) -> String {
        self.scope
    }

    #[verifier::type_invariant]
    pub open spec fn wf(self) -> bool {
        self.user().may_access(self.scope()@)
    }

    /// Lets in the owner of the project `scope` and super users. To anybody
    /// else the project does not exist.
    pub fn authorize(found: Option<User>, scope: String) -> (result: Result<ScopedUser, Refusal>)
        ensures
            match result {
                Ok(scoped) => {
                    &&& scope_refusal(found, scope@) is None
                    &&& Some(scoped.user()) == found
                    &&& scoped.scope() == scope
                },
                Err(refusal) => scope_refusal(found, scope@) == Some(refusal),
            },
    {
        let user = match User::authenticate(found) {
            Ok(user) => user,
            Err(refusal) => return Err(refusal),
        };
        if user.super_user || user.is_owner_of(&scope) {
            Ok(ScopedUser { user, scope })
        } else {
            Err(Refusal::NotFound)
        }
    }

    /// The project that the user was let in to.
    pub fn project(&self) -> (project: String)
        ensures
            project == self.scope(),
            self.user().may_access(project@),
    {
        proof {
            use_type_invariant(self);
        }
        self.scope.clone()
    }

    /// The name of the user.
    pub fn name(&self) -> (name: String)
        ensures
            name == self.user().name,
    {
        self.user.name.clone()
    }
}

/// A request that carries no key is answered 401, whichever user its handler
/// asks for.
pub proof fn without_a_key_nothing_is_allowed(caller: Caller, project: Seq<char>)
    requires
        caller !is Anyone,
    ensures
        caller.refusal(None, project) matches Some(refusal) && refusal.code() == 401,
{
}

/// A user who is no super user is answered 403 where only super users may go,
/// and 404 about a project of somebody else, as about one that does not exist.
pub proof fn strangers_are_turned_away(user: User, project: Seq<char>)
    requires
        !user.super_user,
    ensures
        admin_refusal(Some(user)) matches Some(refusal) && refusal.code() == 403,
        !user.owns(project) ==> (scope_refusal(Some(user), project) matches Some(refusal)
            && refusal.code() == 404),
{
}

/// A super user is let in everywhere, to the projects of others too.
pub proof fn super_users_are_never_refused(user: User, caller: Caller, project: Seq<char>)
    requires
        user.super_user,
    ensures
        caller.refusal(Some(user), project) is None,
{
}

/// Once a project was added to those of a user, the user is let in to it, and
/// still to each project from before.
pub proof fn owners_see_their_projects(before: User, after: User, created: String, other: Seq<char>)
    requires
        after.super_user == before.super_user,
        after.projects@ == before.projects@.push(created),
    ensures
        scope_refusal(Some(after), created@) is None,
        scope_refusal(Some(before), other) is None ==> scope_refusal(Some(after), other) is None,
{
    assert(after.projects@[before.projects@.len() as int] == created);
    if before.owns(other) {
        let i = choose|i: int|
            0 <= i < before.projects@.len() && (#[trigger] before.projects@[i])@ == other;
        assert(after.projects@[i]@ == other);
    }
}

/// A request is let in to a project exactly if its user is a super user or has
/// the project's very name on the list of projects. To any other user the
/// project does not exist, and without a user there is no way in.
pub proof fn only_listed_projects_are_open(found: Option<User>, project: Seq<char>)
    ensures
        found is None ==> scope_refusal(found, project) == Some(Refusal::Unauthorized),
        found matches Some(user) && user.super_user ==> scope_refusal(found, project) is None,
        found matches Some(user) && user.projects@.map_values(|name: String| name@).contains(
            project,
        ) ==> scope_refusal(found, project) is None,
        found matches Some(user) && !user.super_user && (forall|i: int|
            0 <= i < user.projects@.len() ==> (#[trigger] user.projects@[i])@ != project)
            ==> scope_refusal(found, project) == Some(Refusal::NotFound),
{
    if let Some(user) = found {
        let names = user.projects@.map_values(|name: String| name@);
        if names.contains(project) {
            let i = choose|i: int| 0 <= i < names.len() && names[i] == project;
            assert(user.projects@[i]@ == project);
        }
    }
}

/// What [`ScopedUser::authorize`] gives: the user as it was found, with the
/// project that was asked for, or the refusal.
pub proof fn authorized_for_what_was_asked(
    found: Option<User>,
    scope: String,
    result: Result<ScopedUser, Refusal>,
)
    requires
        call_ensures(ScopedUser::authorize, (found, scope), result),
    ensures
        result is Ok <==> (found matches Some(user) && (user.super_user || exists|i: int|
            0 <= i < user.projects@.len() && (#[trigger] user.projects@[i])@ == scope@)),
        result matches Ok(scoped) ==> found == Some(scoped.user()) && scoped.scope()@ == scope@,
        result matches Err(refusal) ==> (refusal is Unauthorized <==> found is None) && (
        refusal is NotFound <==> found is Some),
{
}

/// What [`Admin::authorize`] gives: the user as it was found if that is a super
/// user, or the refusal.
pub proof fn only_super_users_are_admins(found: Option<User>, result: Result<Admin, Refusal>)
    requires
        call_ensures(Admin::authorize, (found,), result),
    ensures
        result is Ok <==> (found matches Some(user) && user.super_user),
        result matches Ok(admin) ==> found == Some(admin.user()),
        result matches Err(refusal) ==> (refusal is Unauthorized <==> found is None) && (
        refusal is Forbidden <==> found is Some),
{
}

/// What [`User::authenticate`] gives: whoever was found, whichever projects it
/// owns.
pub proof fn every_user_is_a_user(found: Option<User>, result: Result<User, Refusal>)
    requires
        call_ensures(User::authenticate, (found,), result),
    ensures
        result is Ok <==> found is Some,
        result matches Ok(user) ==> found == Some(user),
        result matches Err(refusal) ==> refusal is Unauthorized,
{
}

/// What a caller is turned away with before the rest of the request is read:
/// 401 without a user where one is asked for, 403 for a plain user where a
/// super user is asked for, and nothing otherwise.
pub proof fn the_door_knows_users_and_super_users(
    caller: Caller,
    found: &Option<User>,
    refusal: Option<Refusal>,
)
    requires
        call_ensures(Caller::refuse_at_the_door, (caller, found), refusal),
    ensures
        refusal == Some(Refusal::Unauthorized) <==> caller !is Anyone && *found is None,
        refusal == Some(Refusal::Forbidden) <==> caller is Admin && (*found matches Some(user)
            && !user.super_user),
        refusal != Some(Refusal::NotFound),
{
}

/// The codes that refusals are answered with.
pub proof fn refusals_have_their_codes(refusal: Refusal, code: u16)
    requires
        call_ensures(Refusal::status_code, (refusal,), code),
    ensures
        code == 401 <==> refusal is Unauthorized,
        code == 403 <==> refusal is Forbidden,
        code == 404 <==> refusal is NotFound,
{
}

} // verus!
