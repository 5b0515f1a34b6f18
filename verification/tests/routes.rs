use gateway_stub::docs::{endpoints, mount_routes, schema_listing, swagger_setup, DocMode, Endpoint};
use gateway_stub::request::{decode_post_query, decode_user_query};
use gateway_stub::routes::{route_table, Handler, Kind, Method, Param, Place, Route, Shape};

fn query(name: &'static str, kind: Kind, required: bool) -> Param {
    Param { name, place: Place::Query, kind, required }
}

fn api(endpoint: &Endpoint) -> Option<&Route> {
    match endpoint {
        Endpoint::Api(route) => Some(route),
        _ => None,
    }
}

#[test]
fn route_table_holds_the_six_routes_in_order() {
    let table = route_table();
    let seen: Vec<(Method, &str, Handler)> =
        table.iter().map(|route| (route.method, route.path, route.handler)).collect();
    assert_eq!(
        seen,
        vec![
            (Method::Get, "/user", Handler::GetAllUsers),
            (Method::Get, "/user/{id}", Handler::GetUser),
            (Method::Get, "/user_example", Handler::GetUserByName),
            (Method::Post, "/user", Handler::CreateUser),
            (Method::Get, "/hidden", Handler::Hidden),
            (Method::Get, "/post_by_query", Handler::CreatePostByQuery),
        ]
    );
}

#[test]
fn route_table_describes_parameters_bodies_and_responses() {
    let table = route_table();
    assert_eq!(table[0].params, vec![]);
    assert_eq!(
        table[1].params,
        vec![Param { name: "id", place: Place::Path, kind: Kind::Integer, required: true }]
    );
    assert_eq!(
        table[2].params,
        vec![
            query("userId", Kind::Integer, true),
            query("name", Kind::Text, true),
            query("email", Kind::Text, false),
        ]
    );
    assert_eq!(table[3].params, vec![]);
    assert_eq!(table[4].params, vec![]);
    assert_eq!(
        table[5].params,
        vec![
            query("postId", Kind::Integer, true),
            query("title", Kind::Text, true),
            query("summary", Kind::Text, false),
        ]
    );
    let bodies: Vec<Option<Shape>> = table.iter().map(|route| route.body).collect();
    assert_eq!(bodies, vec![None, None, None, Some(Shape::User), None, None]);
    let responses: Vec<Shape> = table.iter().map(|route| route.response).collect();
    assert_eq!(
        responses,
        vec![Shape::Users, Shape::UserPair, Shape::User, Shape::User, Shape::Text, Shape::Post]
    );
}

#[test]
fn route_table_marks_only_hidden_as_undocumented() {
    for route in route_table() {
        assert_eq!(route.documented, route.path != "/hidden", "on {}", route.path);
    }
}

#[test]
fn route_table_has_no_two_routes_with_the_same_method_and_path() {
    let table = route_table();
    for i in 0..table.len() {
        for j in (i + 1)..table.len() {
            assert!(table[i].method != table[j].method || table[i].path != table[j].path);
            assert_ne!(table[i].handler, table[j].handler);
        }
    }
}

#[test]
fn a_cloned_route_equals_its_source() {
    for route in route_table() {
        assert_eq!(route.clone(), route);
    }
}

#[test]
fn decoders_accept_what_the_table_requires() {
    let table = route_table();
    for (route, decodes) in [
        (&table[2], decode_user_query(&Vec::new()).is_ok()),
        (&table[5], decode_post_query(&Vec::new()).is_ok()),
    ] {
        let required = route.params.iter().filter(|param| param.required).count();
        assert_eq!(required, 2);
        assert!(!decodes);
    }
    let user: Vec<(String, String)> = table[2]
        .params
        .iter()
        .filter(|param| param.required)
        .map(|param| (param.name.to_string(), "1".to_string()))
        .collect();
    assert!(decode_user_query(&user).is_ok());
    let post: Vec<(String, String)> = table[5]
        .params
        .iter()
        .filter(|param| param.required)
        .map(|param| (param.name.to_string(), "1".to_string()))
        .collect();
    assert!(decode_post_query(&post).is_ok());
}

#[test]
fn schema_listing_keeps_the_documented_routes_in_order() {
    let table = route_table();
    let listing = schema_listing(&table);
    let paths: Vec<(Method, &str)> = listing.iter().map(|route| (route.method, route.path)).collect();
    assert_eq!(
        paths,
        vec![
            (Method::Get, "/user"),
            (Method::Get, "/user/{id}"),
            (Method::Get, "/user_example"),
            (Method::Post, "/user"),
            (Method::Get, "/post_by_query"),
        ]
    );
    for route in &listing {
        assert!(table.contains(route));
    }
}

#[test]
fn schema_listing_of_nothing_is_empty() {
    assert_eq!(schema_listing(&Vec::new()), Vec::new());
}

#[test]
fn schema_listing_drops_every_undocumented_route() {
    let mut routes = route_table();
    for route in routes.iter_mut() {
        route.documented = !route.documented;
    }
    let listing = schema_listing(&routes);
    assert_eq!(listing.len(), 1);
    assert_eq!(listing[0].path, "/hidden");
    assert_eq!(listing[0], routes[4]);
}

#[test]
fn plain_mode_mounts_the_routes_and_nothing_else() {
    let mounted = endpoints(DocMode::Plain);
    let table = route_table();
    assert_eq!(mounted.len(), table.len());
    for (endpoint, route) in mounted.iter().zip(table.iter()) {
        assert_eq!(api(endpoint), Some(route));
    }
}

#[test]
fn documented_mode_adds_the_schema_document_and_the_browser() {
    let mounted = endpoints(DocMode::Documented);
    let table = route_table();
    assert_eq!(mounted.len(), table.len() + 2);
    for (endpoint, route) in mounted.iter().zip(table.iter()) {
        assert_eq!(api(endpoint), Some(route));
    }
    assert_eq!(
        mounted[6],
        Endpoint::SchemaDocument { path: "/openapi.json", listing: schema_listing(&table) }
    );
    assert_eq!(
        mounted[7],
        Endpoint::DocBrowser { base: "/swagger/", schema_url: "../openapi.json" }
    );
}

#[test]
fn the_schema_document_lists_every_route_but_hidden() {
    let mounted = endpoints(DocMode::Documented);
    let listing = match &mounted[6] {
        Endpoint::SchemaDocument { listing, .. } => listing,
        other => panic!("not a schema document: {:?}", other),
    };
    for route in route_table() {
        assert_eq!(listing.contains(&route), route.path != "/hidden");
    }
    assert_eq!(listing.len(), 5);
}

#[test]
fn hidden_is_served_in_both_modes() {
    for mode in [DocMode::Plain, DocMode::Documented] {
        let mounted = endpoints(mode);
        let hidden: Vec<&Route> = mounted
            .iter()
            .filter_map(api)
            .filter(|route| route.path == "/hidden")
            .collect();
        assert_eq!(hidden.len(), 1);
        assert_eq!(hidden[0].method, Method::Get);
        assert_eq!(hidden[0].handler, Handler::Hidden);
        assert_eq!(hidden[0].response, Shape::Text);
    }
}

#[test]
fn mount_routes_registers_the_schema_document_only_when_documented() {
    assert_eq!(mount_routes(DocMode::Plain).len(), 6);
    let documented = mount_routes(DocMode::Documented);
    assert_eq!(documented.len(), 7);
    assert!(matches!(documented[6], Endpoint::SchemaDocument { path: "/openapi.json", .. }));
    assert!(documented[..6].iter().all(|endpoint| matches!(endpoint, Endpoint::Api(_))));
}

#[test]
fn swagger_setup_changes_nothing_in_plain_mode() {
    assert_eq!(swagger_setup(Vec::new(), DocMode::Plain), Vec::new());
    assert_eq!(swagger_setup(mount_routes(DocMode::Plain), DocMode::Plain), mount_routes(DocMode::Plain));
}

#[test]
fn swagger_setup_mounts_the_browser_last_in_documented_mode() {
    let browser = Endpoint::DocBrowser { base: "/swagger/", schema_url: "../openapi.json" };
    assert_eq!(swagger_setup(Vec::new(), DocMode::Documented), vec![browser]);
    let before = mount_routes(DocMode::Documented);
    let after = swagger_setup(mount_routes(DocMode::Documented), DocMode::Documented);
    assert_eq!(after.len(), before.len() + 1);
    assert_eq!(after[..before.len()], before[..]);
    assert_eq!(
        after[before.len()],
        Endpoint::DocBrowser { base: "/swagger/", schema_url: "../openapi.json" }
    );
}
