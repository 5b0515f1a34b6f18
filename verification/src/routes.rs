//! The route table: one description per route, from which both the set of
//! served routes and the published schema are derived.

use vstd::prelude::*;

verus! {

/// The HTTP method of a route.
#[derive(Clone, Copy, Debug, PartialEq, Eq, Structural)]
pub enum Method {
    Get,
    Post,
}

/// The handler that a route is mapped to.
#[derive(Clone, Copy, Debug, PartialEq, Eq, Structural)]
pub enum Handler {
    GetAllUsers,
    GetUser,
    GetUserByName,
    CreateUser,
    Hidden,
    CreatePostByQuery,
}

/// Where a parameter is taken from.
#[derive(Clone, Copy, Debug, PartialEq, Eq, Structural)]
pub enum Place {
    Path,
    Query,
}

/// The type that a parameter is decoded to.
#[derive(Clone, Copy, Debug, PartialEq, Eq, Structural)]
pub enum Kind {
    Integer,
    Text,
}

/// What a request or response body carries.
#[derive(Clone, Copy, Debug, PartialEq, Eq, Structural)]
pub enum Shape {
    /// A sequence of users.
    Users,
    /// Exactly two users.
    UserPair,
    /// One user.
    User,
    /// One post.
    Post,
    /// A text.
    Text,
}

/// One parameter of a route.
#[derive(Clone, Copy, Debug, PartialEq, Eq)]
pub struct Param {
    pub name: &'static str,
    pub place: Place,
    pub kind: Kind,
    pub required: bool,
}

/// The description of one route.
#[derive(Debug, PartialEq, Eq)]
pub struct Route {
    pub method: Method,
    pub path: &'static str,
    pub handler: Handler,
    pub params: Vec<Param>,
    /// The shape of the request body, for a route that takes one.
    pub body: Option<Shape>,
    pub response: Shape,
    /// Whether the published schema lists the route. A route that is not
    /// listed is served all the same.
    pub documented: bool,
}

/// What a [`Param`] means.
pub struct ParamView {
    pub name: Seq<char>,
    pub place: Place,
    pub kind: Kind,
    pub required: bool,
}

/// What a [`Route`] means.
pub struct RouteView {
    pub method: Method,
    pub path: Seq<char>,
    pub handler: Handler,
    pub params: Seq<ParamView>,
    pub body: Option<Shape>,
    pub response: Shape,
    pub documented: bool,
}

impl View for Param {
    type V = ParamView;

    open spec fn view(&self) -> ParamView {
        ParamView { name: self.name@, place: self.place, kind: self.kind, required: self.required }
    }
}

impl View for Route {
    type V = RouteView;

    open spec fn view(&self) -> RouteView {
        RouteView {
            method: self.method,
            path: self.path@,
            handler: self.handler,
            params: self.params@.map_values(|p: Param| p@),
            body: self.body,
            response: self.response,
            documented: self.documented,
        }
    }
}

impl Clone for Route {
    /// A copy that means the same as the route it was made from.
    fn clone(&self) -> (copy: Self)
        ensures
            copy@ == self@,
    {
        let mut params: Vec<Param> = Vec::new();
        let mut i: usize = 0;
        while i < self.params.len()
            invariant
                i <= self.params.len(),
                params@ == self.params@.subrange(0, i as int),
            decreases self.params.len() - i,
        {
            params.push(self.params[i]);
            assert(params@ =~= self.params@.subrange(0, i + 1));
            i += 1;
        }
        assert(params@ =~= self.params@);
        Route {
            method: self.method,
            path: self.path,
            handler: self.handler,
            params,
            body: self.body,
            response: self.response,
            documented: self.documented,
        }
    }
}

/// The meaning of a sequence of routes, route by route.
pub open spec fn routes_view(routes: Seq<Route>) -> Seq<RouteView> {
    routes.map_values(|r: Route| r@)
}

/// A required integer parameter taken from the path.
pub open spec fn path_integer(name: Seq<char>) -> ParamView {
    ParamView { name, place: Place::Path, kind: Kind::Integer, required: true }
}

/// A required integer parameter taken from the query.
pub open spec fn query_integer(name: Seq<char>) -> ParamView {
    ParamView { name, place: Place::Query, kind: Kind::Integer, required: true }
}

/// A text parameter taken from the query.
pub open spec fn query_text(name: Seq<char>, required: bool) -> ParamView {
    ParamView { name, place: Place::Query, kind: Kind::Text, required }
}

/// The six routes of the API, in the order in which they are registered.
pub open spec fn api_routes() -> Seq<RouteView> {
    seq![
        RouteView {
            method: Method::Get,
            path: "/user"@,
            handler: Handler::GetAllUsers,
            params: seq![],
            body: None,
            response: Shape::Users,
            documented: true,
        },
        RouteView {
            method: Method::Get,
            path: "/user/{id}"@,
            handler: Handler::GetUser,
            params: seq![path_integer("id"@)],
            body: None,
            response: Shape::UserPair,
            documented: true,
        },
        RouteView {
            method: Method::Get,
            path: "/user_example"@,
            handler: Handler::GetUserByName,
            params: seq![
                query_integer("userId"@),
                query_text("name"@, true),
                query_text("email"@, false),
            ],
            body: None,
            response: Shape::User,
            documented: true,
        },
        RouteView {
            method: Method::Post,
            path: "/user"@,
            handler: Handler::CreateUser,
            params: seq![],
            body: Some(Shape::User),
            response: Shape::User,
            documented: true,
        },
        RouteView {
            method: Method::Get,
            path: "/hidden"@,
            handler: Handler::Hidden,
            params: seq![],
            body: None,
            response: Shape::Text,
            documented: false,
        },
        RouteView {
            method: Method::Get,
            path: "/post_by_query"@,
            handler: Handler::CreatePostByQuery,
            params: seq![
                query_integer("postId"@),
                query_text("title"@, true),
                query_text("summary"@, false),
            ],
            body: None,
            response: Shape::Post,
            documented: true,
        },
    ]
}

/// The position in the table of the route that `handler` serves.
pub open spec fn position(handler: Handler) -> int {
    match handler {
        Handler::GetAllUsers => 0,
        Handler::GetUser => 1,
        Handler::GetUserByName => 2,
        Handler::CreateUser => 3,
        Handler::Hidden => 4,
        Handler::CreatePostByQuery => 5,
    }
}

/// The route that `handler` serves.
pub open spec fn route_of(handler: Handler) -> RouteView {
    api_routes()[position(handler)]
}

/// Every handler serves one route of the table, and every route of the table
/// is served by its own handler.
pub proof fn each_handler_serves_one_route()
    ensures
        api_routes().len() == 6,
        forall|handler: Handler| (#[trigger] route_of(handler)).handler == handler,
        forall|i: int| 0 <= i < 6 ==> position((#[trigger] api_routes()[i]).handler) == i,
{
}

/// No two routes of the table have both the method and the path in common.
pub proof fn routes_are_distinct(i: int, j: int)
    requires
        0 <= i < j < api_routes().len(),
    ensures
        api_routes()[i].method != api_routes()[j].method || api_routes()[i].path
            != api_routes()[j].path,
{
    reveal_strlit("/user");
    reveal_strlit("/user/{id}");
    reveal_strlit("/user_example");
    reveal_strlit("/hidden");
    reveal_strlit("/post_by_query");
    assert("/user"@.len() == 5);
    assert("/user/{id}"@.len() == 10);
    assert("/user_example"@.len() == 13);
    assert("/hidden"@.len() == 7);
    assert("/post_by_query"@.len() == 14);
}

/// Builds the description of a route without a request body.
fn plain_route(
    method: Method,
    path: &'static str,
    handler: Handler,
    params: Vec<Param>,
    response: Shape,
    documented: bool,
) -> (route: Route)
    ensures
        route == (Route { method, path, handler, params, body: None, response, documented }),
{
    Route { method, path, handler, params, body: None, response, documented }
}

/// Builds the parameter list of a query that takes a required number, a
/// required text and an optional text.
fn record_params(number: &'static str, text: &'static str, optional: &'static str) -> (params: Vec<Param>)
    ensures
        params@.map_values(|p: Param| p@) == seq![
            query_integer(number@),
            query_text(text@, true),
            query_text(optional@, false),
        ],
{
    let mut params: Vec<Param> = Vec::new();
    params.push(Param { name: number, place: Place::Query, kind: Kind::Integer, required: true });
    params.push(Param { name: text, place: Place::Query, kind: Kind::Text, required: true });
    params.push(Param { name: optional, place: Place::Query, kind: Kind::Text, required: false });
    assert(params@.map_values(|p: Param| p@) =~= seq![
        query_integer(number@),
        query_text(text@, true),
        query_text(optional@, false),
    ]);
    params
}

/// The route table.
pub fn route_table() -> (table: Vec<Route>)
    ensures
        routes_view(table@) == api_routes(),
{
    let mut id_param: Vec<Param> = Vec::new();
    id_param.push(Param { name: "id", place: Place::Path, kind: Kind::Integer, required: true });
    assert(id_param@.map_values(|p: Param| p@) =~= seq![path_integer("id"@)]);

    let mut table: Vec<Route> = Vec::new();
    table.push(plain_route(Method::Get, "/user", Handler::GetAllUsers, Vec::new(), Shape::Users, true));
    table.push(plain_route(Method::Get, "/user/{id}", Handler::GetUser, id_param, Shape::UserPair, true));
    table.push(
        plain_route(
            Method::Get,
            "/user_example",
            Handler::GetUserByName,
            record_params("userId", "name", "email"),
            Shape::User,
            true,
        ),
    );
    table.push(
        Route {
            method: Method::Post,
            path: "/user",
            handler: Handler::CreateUser,
            params: Vec::new(),
            body: Some(Shape::User),
            response: Shape::User,
            documented: true,
        },
    );
    table.push(plain_route(Method::Get, "/hidden", Handler::Hidden, Vec::new(), Shape::Text, false));
    table.push(
        plain_route(
            Method::Get,
            "/post_by_query",
            Handler::CreatePostByQuery,
            record_params("postId", "title", "summary"),
            Shape::Post,
            true,
        ),
    );
    proof {
        let views = routes_view(table@);
        let empty = Seq::<Param>::empty();
        assert(empty.map_values(|p: Param| p@) =~= Seq::<ParamView>::empty());
        assert(views =~= api_routes());
    }
    table
}

} // verus!
