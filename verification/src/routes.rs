//! The route registry: which paths the service answers, for `GET` requests
//! only, and what it answers.
//!
//! A path is matched as a whole and exactly as written: there are no wildcards
//! and no path parameters. A path that no route is registered under is not
//! found. The pages that show the API description are no routes of the
//! registry: the server mounts them beside it.

use crate::handlers::{greeting, hello_with_name, hello_world, hello_world_text};
use crate::query::{decoded, name_key, named, pairs_of, rejection_text, MyQueryParams, Pairs, QueryRejection};
use vstd::prelude::*;
use vstd::string::StringExecFns;

verus! {

/// The handlers of the service.
#[derive(Debug, Clone, Copy, PartialEq, Eq)]
pub enum Handler {
    /// Replies with the fixed greeting.
    HelloWorld,
    /// Replies with a greeting for the name in the query.
    HelloWithName,
}

/// One entry of the registry: a path and the handler that answers it.
#[derive(Debug, Clone, Copy, PartialEq, Eq)]
pub struct Route {
    pub path: &'static str,
    pub handler: Handler,
}

/// The outcome of a request.
#[derive(Debug, Clone, Copy, PartialEq, Eq)]
pub enum Status {
    /// The handler replied.
    Success,
    /// The query was refused before the handler ran.
    BadRequest,
    /// No route is registered under the path.
    NotFound,
}

/// What is sent back for a request.
#[derive(Debug, Clone, PartialEq, Eq)]
pub struct Response {
    pub status: Status,
    /// The plain text of the reply.
    pub body: String,
}

/// A response as a value of the specification.
pub struct ResponseView {
    pub status: Status,
    pub body: Seq<char>,
}

impl View for Response {
    type V = ResponseView;

    open spec fn view(&self) -> ResponseView {
        ResponseView { status: self.status, body: self.body@ }
    }
}

/// The handlers in the order in which their routes are registered.
pub open spec fn route_table() -> Seq<Handler> {
    seq![Handler::HelloWorld, Handler::HelloWithName]
}

/// The handler registered under `path`, if there is one.
pub open spec fn registered(path: Seq<char>) -> Option<Handler> {
    if path == Handler::HelloWorld.spec_path() {
        Some(Handler::HelloWorld)
    } else if path == Handler::HelloWithName.spec_path() {
        Some(Handler::HelloWithName)
    } else {
        None
    }
}

/// What `handler` replies to a request whose query decodes to `pairs`.
pub open spec fn reply(handler: Handler, pairs: Pairs) -> ResponseView {
    match handler {
        Handler::HelloWorld => ResponseView { status: Status::Success, body: hello_world_text() },
        Handler::HelloWithName => match decoded(pairs) {
            Ok(name) => ResponseView { status: Status::Success, body: greeting(name) },
            Err(rejection) => ResponseView {
                status: Status::BadRequest,
                body: rejection_text(rejection),
            },
        },
    }
}

/// What the service answers to a `GET` request for `path` whose query decodes to `pairs`.
pub open spec fn answer(path: Seq<char>, pairs: Pairs) -> ResponseView {
    match registered(path) {
        Some(handler) => reply(handler, pairs),
        None => ResponseView { status: Status::NotFound, body: Seq::empty() },
    }
}

impl Status {
    /// The HTTP status code of this outcome.
    pub open spec fn spec_code(self) -> int {
        match self {
            Status::Success => 200,
            Status::BadRequest => 400,
            Status::NotFound => 404,
        }
    }

    /// The HTTP status code of this outcome.
    pub fn code(self) -> (code: u16)
        ensures
            code == self.spec_code(),
    {
        match self {
            Status::Success => 200,
            Status::BadRequest => 400,
            Status::NotFound => 404,
        }
    }
}

impl Handler {
    /// The path under which the handler is registered.
    pub open spec fn spec_path(self) -> Seq<char> {
        match self {
            Handler::HelloWorld => "/hello-world"@,
            Handler::HelloWithName => "/hello-with-name"@,
        }
    }

    /// The name under which the API description lists the handler.
    pub open spec fn spec_operation_id(self) -> Seq<char> {
        match self {
            Handler::HelloWorld => "hello_world"@,
            Handler::HelloWithName => "hello_with_name"@,
        }
    }

    /// The query parameters the handler reads. Each is required and is text.
    pub open spec fn spec_parameters(self) -> Seq<Seq<char>> {
        match self {
            Handler::HelloWorld => Seq::empty(),
            Handler::HelloWithName => MyQueryParams::spec_fields(),
        }
    }

    /// The path under which the handler is registered.
    pub fn path(self) -> (path: &'static str)
        ensures
            path@ == self.spec_path(),
    {
        match self {
            Handler::HelloWorld => "/hello-world",
            Handler::HelloWithName => "/hello-with-name",
        }
    }

    /// The name under which the API description lists the handler.
    pub fn operation_id(self) -> (id: &'static str)
        ensures
            id@ == self.spec_operation_id(),
    {
        match self {
            Handler::HelloWorld => "hello_world",
            Handler::HelloWithName => "hello_with_name",
        }
    }

    /// The query parameters the handler reads.
    pub fn parameters(self) -> (names: Vec<&'static str>)
        ensures
            names@.len() == self.spec_parameters().len(),
            forall|i: int| 0 <= i < names@.len() ==> names@[i]@ == self.spec_parameters()[i],
    {
        match self {
            Handler::HelloWorld => Vec::new(),
            Handler::HelloWithName => MyQueryParams::fields(),
        }
    }

    /// Replies to a request that was routed to this handler.
    ///
    /// `HelloWorld` does not look at the query. `HelloWithName` decodes it first
    /// and replies with a bad request, without greeting anyone, when the query
    /// is refused.
    pub fn respond(self, query: Option<&str>) -> (response: Response)
        ensures
            response@ == reply(self, pairs_of(query)),
    {
        match self {
            Handler::HelloWorld => Response {
                status: Status::Success,
                body: String::from_str(hello_world()),
            },
            Handler::HelloWithName => match MyQueryParams::from_query(query) {
                Ok(params) => Response { status: Status::Success, body: hello_with_name(params) },
                Err(rejection) => Response {
                    status: Status::BadRequest,
                    body: String::from_str(rejection.message()),
                },
            },
        }
    }
}

/// The two registered paths differ, so a path names at most one handler.
pub proof fn lemma_paths_distinct()
    ensures
        Handler::HelloWorld.spec_path() != Handler::HelloWithName.spec_path(),
        forall|first: Handler, second: Handler|
            first.spec_path() == second.spec_path() ==> first == second,
{
    reveal_strlit("/hello-world");
    reveal_strlit("/hello-with-name");
    assert("/hello-world"@.len() != "/hello-with-name"@.len());
}

/// `registered` finds a handler exactly under the handler's own path.
pub proof fn lemma_registered(path: Seq<char>, handler: Handler)
    ensures
        registered(path) == Some(handler) <==> path == handler.spec_path(),
        registered(path) is None <==> forall|other: Handler| path != #[trigger] other.spec_path(),
{
    lemma_paths_distinct();
    if registered(path) is None {
        assert forall|other: Handler| path != #[trigger] other.spec_path() by {
            match other {
                Handler::HelloWorld => {},
                Handler::HelloWithName => {},
            }
        }
    } else {
        assert(path == registered(path).unwrap().spec_path());
    }
}

/// The registry: one route for each handler, in the order of `route_table`.
pub fn routes() -> (table: Vec<Route>)
    ensures
        table@.len() == route_table().len(),
        forall|i: int|
            0 <= i < table@.len() ==> table@[i].handler == route_table()[i] && table@[i].path@
                == route_table()[i].spec_path(),
{
    let mut table: Vec<Route> = Vec::new();
    table.push(Route { path: Handler::HelloWorld.path(), handler: Handler::HelloWorld });
    table.push(Route { path: Handler::HelloWithName.path(), handler: Handler::HelloWithName });
    table
}

/// Finds the handler registered under `path`.
pub fn lookup(path: &str) -> (found: Option<Handler>)
    ensures
        found == registered(path@),
{
    let wanted = String::from_str(path);
    let table = routes();
    let mut i: usize = 0;
    while i < table.len()
        invariant
            i <= table.len(),
            wanted@ == path@,
            table@.len() == route_table().len(),
            forall|j: int|
                0 <= j < table@.len() ==> table@[j].handler == route_table()[j] && table@[j].path@
                    == route_table()[j].spec_path(),
            forall|j: int| 0 <= j < i ==> route_table()[j].spec_path() != path@,
        decreases table.len() - i,
    {
        let candidate = String::from_str(table[i].path);
        if candidate == wanted {
            proof {
                lemma_registered(path@, table@[i as int].handler);
            }
            return Some(table[i].handler);
        }
        i += 1;
    }
    proof {
        assert(route_table()[0] == Handler::HelloWorld);
        assert(route_table()[1] == Handler::HelloWithName);
    }
    None
}

/// Answers a `GET` request for `path` with the given query string, if it has one.
///
/// A registered path is answered by its handler; any other path is not found,
/// with an empty body.
pub fn dispatch(path: &str, query: Option<&str>) -> (response: Response)
    ensures
        response@ == answer(path@, pairs_of(query)),
{
    match lookup(path) {
        Some(handler) => handler.respond(query),
        None => Response { status: Status::NotFound, body: String::new() },
    }
}

/// A request for `/hello-with-name` whose query carries `name` exactly once is
/// answered with the greeting for that name, whatever the name is and whatever
/// else the query carries.
pub proof fn law_greets_by_name(pairs: Pairs, name: Seq<char>)
    requires
        decoded(pairs) == Ok::<Seq<char>, QueryRejection>(name),
    ensures
        answer("/hello-with-name"@, pairs) == (ResponseView {
            status: Status::Success,
            body: "Hello, "@ + name + "!"@,
        }),
{
    lemma_registered("/hello-with-name"@, Handler::HelloWithName);
}

/// A query that is the one pair of `name` and a value carries that value as
/// its name, whatever the value is: such a request is greeted by it.
pub proof fn law_greets_single_name(name: Seq<char>)
    ensures
        decoded(seq![(name_key(), name)]) == Ok::<Seq<char>, QueryRejection>(name),
        answer("/hello-with-name"@, seq![(name_key(), name)]).status == Status::Success,
        answer("/hello-with-name"@, seq![(name_key(), name)]).body == greeting(name),
{
    let pairs = seq![(name_key(), name)];
    reveal_with_fuel(Seq::filter, 2);
    assert(pairs.drop_last() =~= Seq::empty());
    assert(named(pairs) =~= pairs);
    law_greets_by_name(pairs, name);
}

/// A request for `/hello-with-name` whose query does not carry `name` is a bad
/// request, and its body is no greeting.
pub proof fn law_name_is_required(pairs: Pairs)
    requires
        named(pairs).len() == 0,
    ensures
        answer("/hello-with-name"@, pairs).status == Status::BadRequest,
        forall|name: Seq<char>| answer("/hello-with-name"@, pairs).body != #[trigger] greeting(name),
{
    lemma_registered("/hello-with-name"@, Handler::HelloWithName);
    let body = answer("/hello-with-name"@, pairs).body;
    assert(body == rejection_text(QueryRejection::MissingName));
    assert forall|name: Seq<char>| body != #[trigger] greeting(name) by {
        reveal_strlit("Failed to deserialize query string: missing field `name`");
        reveal_strlit("Hello, ");
        assert(body[0] == 'F');
        assert(greeting(name)[0] == 'H');
    }
}

/// A request for `/hello-world` is answered with the fixed greeting, whatever
/// its query holds.
pub proof fn law_hello_world_ignores_query(pairs: Pairs)
    ensures
        answer("/hello-world"@, pairs) == (ResponseView {
            status: Status::Success,
            body: "Hello world"@,
        }),
{
}

/// A request for a path that no handler is registered under is not found,
/// whatever its query holds, and the reply has no body.
pub proof fn law_unregistered_is_not_found(path: Seq<char>, pairs: Pairs)
    requires
        forall|handler: Handler| path != #[trigger] handler.spec_path(),
    ensures
        answer(path, pairs).status == Status::NotFound,
        answer(path, pairs).body == Seq::<char>::empty(),
{
    lemma_registered(path, Handler::HelloWorld);
}

} // verus!
