use gimme_graphql::build_web_framework_config;
use gimme_graphql::hello_world_app::{App, Context};
use gimme_graphql::http::{Method, QueryItem, Request, STATUS_OK, STATUS_SERVICE_UNAVAILABLE};
use gimme_graphql::hyper_adapter::ContextError;
use gimme_graphql::pool::PoolState;
use gimme_graphql::rocket_adapter::{
    find_request_param, GetGraphqlHandler, GetOutcome, GraphiqlHandler, PostGraphqlHandler,
    PostOutcome, RocketAdapter,
};
use gimme_graphql::routes::RouteKind;
use gimme_graphql::Adapter;

fn item(key: &str, value: &str) -> QueryItem {
    QueryItem { key: key.to_string(), value: value.to_string() }
}

fn get_request(items: Vec<QueryItem>) -> Request {
    Request {
        method: Method::Get,
        path: "/graphql".to_string(),
        query_items: items,
        body: String::new(),
    }
}

#[test]
fn context_error_keeps_its_message() {
    let e = ContextError::new("no database".to_string());
    assert_eq!(e.into_message(), "no database");
}

#[test]
fn explorer_handler_serves_the_page_for_its_path() {
    let handler = GraphiqlHandler::new("/graphql".to_string());
    let response = handler.handle(&get_request(Vec::new()));
    assert_eq!(response.status, STATUS_OK);
    assert_eq!(response.body, juniper::http::graphiql::graphiql_source("/graphql", None));
    assert_ne!(response.body, "/graphql");
}

#[test]
fn explorer_handler_registers_one_get_route() {
    let handler = GraphiqlHandler::new("/graphql".to_string());
    let routes = handler.routes();
    assert_eq!(routes.len(), 1);
    assert_eq!(routes[0].method, Method::Get);
    assert_eq!(routes[0].path, "/graphiql");
    assert_eq!(routes[0].kind, RouteKind::Graphiql);
}

#[test]
fn post_handler_executes_while_a_slot_is_free() {
    let handler = PostGraphqlHandler::<(), (), Context>::new();
    let mut pool = PoolState::new(1);
    let req = Request {
        method: Method::Post,
        path: "/graphql".to_string(),
        query_items: Vec::new(),
        body: "{\"query\":\"{helloWorld}\"}".to_string(),
    };
    let outcome = handler.handle(&mut pool, &req);
    assert!(matches!(outcome, PostOutcome::Execute(_)));
    assert_eq!(pool.in_use, 1);
}

#[test]
fn post_handler_answers_503_once_exhausted() {
    let handler = PostGraphqlHandler::<(), (), Context>::new();
    let mut pool = PoolState::new(0);
    let req = Request {
        method: Method::Post,
        path: "/graphql".to_string(),
        query_items: Vec::new(),
        body: String::new(),
    };
    match handler.handle(&mut pool, &req) {
        PostOutcome::ContextFailed(r) => {
            assert_eq!(r.status, STATUS_SERVICE_UNAVAILABLE);
            assert_eq!(r.body, "connection pool exhausted");
        }
        PostOutcome::Execute(_) => panic!("an exhausted pool must answer 503"),
    }
}

#[test]
fn get_handler_executes_the_request_parameter() {
    let handler = GetGraphqlHandler::<(), (), Context>::new();
    let mut pool = PoolState::new(1);
    let req = get_request(vec![item("request", "{helloWorld}")]);
    match handler.handle(&mut pool, &req) {
        GetOutcome::Execute(_, value) => assert_eq!(value, "{helloWorld}"),
        _ => panic!("a request parameter must reach the engine"),
    }
    assert_eq!(pool.in_use, 1);
}

#[test]
fn get_handler_forwards_without_the_request_parameter() {
    let handler = GetGraphqlHandler::<(), (), Context>::new();
    let mut pool = PoolState::new(1);
    let req = get_request(vec![item("other", "x")]);
    assert!(matches!(handler.handle(&mut pool, &req), GetOutcome::Forward));
    assert_eq!(pool.in_use, 0);
}

#[test]
fn get_handler_answers_503_once_exhausted() {
    let handler = GetGraphqlHandler::<(), (), Context>::new();
    let mut pool = PoolState::new(0);
    let req = get_request(vec![item("request", "{helloWorld}")]);
    assert!(matches!(handler.handle(&mut pool, &req), GetOutcome::ContextFailed(_)));
}

#[test]
fn request_parameter_scan_finds_nothing_in_an_empty_query() {
    assert_eq!(find_request_param(&Vec::new()), None);
}

#[test]
fn request_parameter_scan_ignores_other_keys() {
    let items = vec![item("q", "1"), item("page", "2")];
    assert_eq!(find_request_param(&items), None);
}

#[test]
fn request_parameter_scan_finds_the_value() {
    let items = vec![item("q", "1"), item("request", "{helloWorld}")];
    assert_eq!(find_request_param(&items), Some("{helloWorld}".to_string()));
}

#[test]
fn later_request_parameter_overwrites_earlier() {
    let items = vec![item("request", "first"), item("q", "1"), item("request", "second")];
    assert_eq!(find_request_param(&items), Some("second".to_string()));
}

#[test]
fn pooled_thread_adapter_plans_its_three_routes() {
    let adapter = <RocketAdapter as Adapter>::new();
    let config = build_web_framework_config(&App::new());
    let routes = adapter.planned_routes(&config);
    assert_eq!(routes.len(), 3);
    assert_eq!(routes[0].method, Method::Get);
    assert_eq!(routes[0].mount, "/");
    assert_eq!(routes[0].path, "/graphiql");
    assert_eq!(routes[0].kind, RouteKind::Graphiql);
    assert_eq!(routes[1].method, Method::Post);
    assert_eq!(routes[1].mount, "/");
    assert_eq!(routes[1].path, "/graphql");
    assert_eq!(routes[1].kind, RouteKind::GraphqlPost);
    assert_eq!(routes[2].method, Method::Get);
    assert_eq!(routes[2].mount, "/");
    assert_eq!(routes[2].path, "/graphql");
    assert_eq!(routes[2].kind, RouteKind::GraphqlGet);
    for i in 0..routes.len() {
        for j in (i + 1)..routes.len() {
            let same_endpoint = routes[i].method == routes[j].method
                && routes[i].mount == routes[j].mount
                && routes[i].path == routes[j].path;
            assert!(!same_endpoint, "two planned routes claim one endpoint");
        }
    }
}

#[test]
fn post_handler_registers_one_post_route() {
    let handler = PostGraphqlHandler::<(), (), Context>::new();
    let routes = handler.routes();
    assert_eq!(routes.len(), 1);
    assert_eq!(routes[0].method, Method::Post);
    assert_eq!(routes[0].path, "/graphql");
    assert_eq!(routes[0].kind, RouteKind::GraphqlPost);
}

#[test]
fn get_handler_registers_one_get_route() {
    let handler = GetGraphqlHandler::<(), (), Context>::new();
    let routes = handler.routes();
    assert_eq!(routes.len(), 1);
    assert_eq!(routes[0].method, Method::Get);
    assert_eq!(routes[0].path, "/graphql");
    assert_eq!(routes[0].kind, RouteKind::GraphqlGet);
}
