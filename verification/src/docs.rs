//! The documentation switch: what the server mounts in each mode.
//!
//! In plain mode the server mounts the routes of the table and nothing else.
//! In documented mode it also publishes a schema document that lists the
//! documented routes, and a browser that renders that document.

use vstd::prelude::*;
use crate::routes::{
    api_routes, route_of, route_table, routes_view, Handler, Method, Route, RouteView,
};

verus! {

/// The mode the service is started in. It is chosen once, before startup.
#[derive(Clone, Copy, Debug, PartialEq, Eq, Structural)]
pub enum DocMode {
    Plain,
    Documented,
}

/// Something the server mounts.
#[derive(Debug, PartialEq, Eq)]
pub enum Endpoint {
    /// A route of the API.
    Api(Route),
    /// The schema document, served at `path`, which describes the routes of
    /// `listing`.
    SchemaDocument { path: &'static str, listing: Vec<Route> },
    /// The documentation browser, mounted under `base`, which renders the
    /// schema document found at `schema_url`, an address relative to `base`.
    DocBrowser { base: &'static str, schema_url: &'static str },
}

/// What an [`Endpoint`] means.
pub enum EndpointView {
    Api(RouteView),
    SchemaDocument { path: Seq<char>, listing: Seq<RouteView> },
    DocBrowser { base: Seq<char>, schema_url: Seq<char> },
}

impl View for Endpoint {
    type V = EndpointView;

    open spec fn view(&self) -> EndpointView {
        match self {
            Endpoint::Api(route) => EndpointView::Api(route@),
            Endpoint::SchemaDocument { path, listing } => EndpointView::SchemaDocument {
                path: path@,
                listing: routes_view(listing@),
            },
            Endpoint::DocBrowser { base, schema_url } => EndpointView::DocBrowser {
                base: base@,
                schema_url: schema_url@,
            },
        }
    }
}

/// The meaning of a sequence of endpoints, endpoint by endpoint.
pub open spec fn endpoints_view(endpoints: Seq<Endpoint>) -> Seq<EndpointView> {
    endpoints.map_values(|e: Endpoint| e@)
}

/// The test that decides whether the schema lists a route.
pub open spec fn is_documented() -> spec_fn(RouteView) -> bool {
    |route: RouteView| route.documented
}

/// The routes that a schema of `routes` lists: the documented ones, in order.
pub open spec fn listed(routes: Seq<RouteView>) -> Seq<RouteView> {
    routes.filter(is_documented())
}

/// The routes of the table as endpoints.
pub open spec fn api_endpoints() -> Seq<EndpointView> {
    api_routes().map_values(|route: RouteView| EndpointView::Api(route))
}

/// The schema document of the API.
pub open spec fn schema_document() -> EndpointView {
    EndpointView::SchemaDocument { path: "/openapi.json"@, listing: listed(api_routes()) }
}

/// The documentation browser of the API.
pub open spec fn doc_browser() -> EndpointView {
    EndpointView::DocBrowser { base: "/swagger/"@, schema_url: "../openapi.json"@ }
}

/// What registering the routes mounts: the routes of the table and, in
/// documented mode, the schema document after them.
pub open spec fn registered(mode: DocMode) -> Seq<EndpointView> {
    match mode {
        DocMode::Plain => api_endpoints(),
        DocMode::Documented => api_endpoints().push(schema_document()),
    }
}

/// What setting up the documentation browser adds to `mounted`: in documented
/// mode the browser, in plain mode nothing.
pub open spec fn with_browser(mounted: Seq<EndpointView>, mode: DocMode) -> Seq<EndpointView> {
    match mode {
        DocMode::Plain => mounted,
        DocMode::Documented => mounted.push(doc_browser()),
    }
}

/// Everything the server mounts in `mode`.
pub open spec fn service(mode: DocMode) -> Seq<EndpointView> {
    with_browser(registered(mode), mode)
}

/// Selects the routes that a schema lists: those marked as documented, in
/// their order.
pub fn schema_listing(routes: &Vec<Route>) -> (listing: Vec<Route>)
    ensures
        routes_view(listing@) == listed(routes_view(routes@)),
{
    let ghost all = routes_view(routes@);
    let mut listing: Vec<Route> = Vec::new();
    let mut i: usize = 0;
    proof {
        reveal(Seq::filter);
        assert(routes_view(listing@) =~= listed(all.subrange(0, 0)));
    }
    while i < routes.len()
        invariant
            i <= routes.len(),
            all == routes_view(routes@),
            routes_view(listing@) == listed(all.subrange(0, i as int)),
        decreases routes.len() - i,
    {
        let ghost before = routes_view(listing@);
        let ghost done = all.subrange(0, i as int);
        let ghost next = all.subrange(0, i + 1);
        proof {
            reveal(Seq::filter);
            assert(next.drop_last() =~= done);
            assert(next.last() == routes@[i as int]@);
        }
        if routes[i].documented {
            let copy = routes[i].clone();
            listing.push(copy);
            assert(routes_view(listing@) =~= before.push(routes@[i as int]@));
        }
        i += 1;
    }
    assert(all.subrange(0, routes.len() as int) =~= all);
    listing
}

/// Registers the routes of the API: every route of the table in either mode,
/// and in documented mode the schema document after them.
pub fn mount_routes(mode: DocMode) -> (mounted: Vec<Endpoint>)
    ensures
        endpoints_view(mounted@) == registered(mode),
{
    let table = route_table();
    let mut mounted: Vec<Endpoint> = Vec::new();
    let mut i: usize = 0;
    while i < table.len()
        invariant
            i <= table.len(),
            routes_view(table@) == api_routes(),
            mounted@.len() == i,
            forall|j: int| 0 <= j < i ==> (#[trigger] mounted@[j])@ == EndpointView::Api(api_routes()[j]),
        decreases table.len() - i,
    {
        mounted.push(Endpoint::Api(table[i].clone()));
        i += 1;
    }
    assert(endpoints_view(mounted@) =~= api_endpoints());
    if mode == DocMode::Documented {
        mounted.push(Endpoint::SchemaDocument { path: "/openapi.json", listing: schema_listing(&table) });
        assert(endpoints_view(mounted@) =~= api_endpoints().push(schema_document()));
    }
    mounted
}

/// Sets up the documentation browser on what has been mounted so far: in
/// documented mode the browser is mounted last, under `/swagger/`, and reads
/// the schema document one level up; in plain mode nothing changes.
pub fn swagger_setup(builder: Vec<Endpoint>, mode: DocMode) -> (out: Vec<Endpoint>)
    ensures
        endpoints_view(out@) == with_browser(endpoints_view(builder@), mode),
        mode == DocMode::Plain ==> out == builder,
{
    match mode {
        DocMode::Plain => builder,
        DocMode::Documented => {
            let mut out = builder;
            out.push(Endpoint::DocBrowser { base: "/swagger/", schema_url: "../openapi.json" });
            assert(endpoints_view(out@) =~= endpoints_view(builder@).push(doc_browser()));
            out
        },
    }
}

/// Everything the server mounts in `mode`: the registered routes, then the
/// documentation browser where the mode has one.
pub fn endpoints(mode: DocMode) -> (mounted: Vec<Endpoint>)
    ensures
        endpoints_view(mounted@) == service(mode),
{
    swagger_setup(mount_routes(mode), mode)
}

/// The description of `GET /hidden` in the route table.
pub open spec fn hidden_route() -> RouteView {
    route_of(Handler::Hidden)
}

/// The paths of the route table are the six that the API serves, and
/// `/hidden` is the path of one route only.
proof fn lemma_paths_of_the_table()
    ensures
        api_routes().len() == 6,
        hidden_route().path == "/hidden"@,
        forall|i: int| 0 <= i < 6 && i != 4 ==> (#[trigger] api_routes()[i]).path != "/hidden"@,
        forall|i: int| 0 <= i < 6 ==> ((#[trigger] api_routes()[i]).documented <==> i != 4),
{
    reveal_strlit("/user");
    reveal_strlit("/user/{id}");
    reveal_strlit("/user_example");
    reveal_strlit("/hidden");
    reveal_strlit("/post_by_query");
    assert("/user"@.len() != "/hidden"@.len());
    assert("/user/{id}"@.len() != "/hidden"@.len());
    assert("/user_example"@.len() != "/hidden"@.len());
    assert("/post_by_query"@.len() != "/hidden"@.len());
}

/// The schema of the API lists a route of the table exactly if the route is
/// not `/hidden`, and it lists nothing that is not in the table.
pub proof fn schema_lists_every_route_but_hidden(route: RouteView)
    ensures
        listed(api_routes()).contains(route) <==> api_routes().contains(route) && route.path
            != "/hidden"@,
{
    let table = api_routes();
    lemma_paths_of_the_table();
    if listed(table).contains(route) {
        table.lemma_filter_contains_rev(is_documented(), route);
        let j = choose|j: int| 0 <= j < listed(table).len() && listed(table)[j] == route;
        table.lemma_filter_pred(is_documented(), j);
        let i = choose|i: int| 0 <= i < table.len() && table[i] == route;
        assert(table[i].documented);
    }
    if table.contains(route) && route.path != "/hidden"@ {
        let i = choose|i: int| 0 <= i < table.len() && table[i] == route;
        assert(table[i].documented);
        table.lemma_filter_contains(is_documented(), i);
    }
}

/// `GET /hidden` is served in either mode, by the handler of that name.
pub proof fn hidden_is_served_in_every_mode(mode: DocMode)
    ensures
        service(mode).contains(EndpointView::Api(hidden_route())),
        hidden_route().method == Method::Get,
        hidden_route().path == "/hidden"@,
        hidden_route().handler == Handler::Hidden,
{
    assert(api_endpoints()[4] == EndpointView::Api(hidden_route()));
    assert(service(mode)[4] == EndpointView::Api(hidden_route()));
}

/// In plain mode the server mounts the routes of the table and nothing else:
/// there is no schema document and no documentation browser.
pub proof fn plain_mode_serves_no_documentation()
    ensures
        service(DocMode::Plain) == api_endpoints(),
        forall|i: int|
            0 <= i < service(DocMode::Plain).len() ==> (#[trigger] service(DocMode::Plain)[i]) is Api,
{
}

/// In documented mode the server mounts the routes of the table, then the
/// schema document, then the browser that renders it, and nothing else.
pub proof fn documented_mode_serves_documentation()
    ensures
        service(DocMode::Documented) == api_endpoints().push(schema_document()).push(doc_browser()),
        forall|i: int|
            0 <= i < api_endpoints().len() ==> (#[trigger] service(DocMode::Documented)[i])
                == api_endpoints()[i],
{
}

} // verus!
