//! The pooled-thread adapter.
//!
//! The framework dispatches each request on its own worker, against one of
//! three handlers registered at startup: the explorer page, GraphQL over
//! POST, and GraphQL over GET. Each handler's decision logic stands here
//! with its contract; the worker threads, body parsing and GraphQL
//! execution belong to the outside framework and engine.

use vstd::prelude::*;
use crate::graphiql::{graphiql_page, graphiql_source_of};
use crate::http::{
    html_response, service_unavailable_response, ContentType, HttpResponse, Method, QueryItem,
    Request, STATUS_OK, STATUS_SERVICE_UNAVAILABLE,
};
use crate::hyper_adapter::{ContextError, CreateContext};
use crate::pool::PoolState;
use crate::routes::{route_endpoints_distinct, RouteKind, RouteSpec, RouteSpecView};
use crate::{Adapter, WebFrameworkConfig, WebFrameworkConfigView};
use core::marker::PhantomData;

verus! {

/// The pooled-thread adapter. Like its event-loop sibling it holds no
/// state; its three handlers are built when the routes are laid out.
pub struct RocketAdapter {
    _unit: (),
}

impl Adapter for RocketAdapter {
    type Inner = ();

    /// The three registered endpoints differ in method or path whatever the
    /// mounts are, so any configuration lays out cleanly.
    open spec fn routes_ok(config: WebFrameworkConfigView) -> bool {
        true
    }

    open spec fn spec_routes(config: WebFrameworkConfigView) -> Seq<RouteSpecView> {
        seq![
            RouteSpecView {
                method: Method::Get,
                mount: config.mount_graphiql_at,
                path: "/graphiql"@,
                kind: RouteKind::Graphiql,
            },
            RouteSpecView {
                method: Method::Post,
                mount: config.mount_graphql_at,
                path: "/graphql"@,
                kind: RouteKind::GraphqlPost,
            },
            RouteSpecView {
                method: Method::Get,
                mount: config.mount_graphql_at,
                path: "/graphql"@,
                kind: RouteKind::GraphqlGet,
            },
        ]
    }

    fn new() -> (adapter: Self) {
        RocketAdapter { _unit: () }
    }

    fn planned_routes(&self, config: &WebFrameworkConfig) -> (routes: Vec<RouteSpec>) {
        proof {
            lemma_rocket_route_registration_distinct(config@);
        }
        let mut routes: Vec<RouteSpec> = Vec::new();
        routes.push(
            RouteSpec {
                method: Method::Get,
                mount: config.mount_graphiql_at.clone(),
                path: "/graphiql".to_owned(),
                kind: RouteKind::Graphiql,
            },
        );
        routes.push(
            RouteSpec {
                method: Method::Post,
                mount: config.mount_graphql_at.clone(),
                path: "/graphql".to_owned(),
                kind: RouteKind::GraphqlPost,
            },
        );
        routes.push(
            RouteSpec {
                method: Method::Get,
                mount: config.mount_graphql_at.clone(),
                path: "/graphql".to_owned(),
                kind: RouteKind::GraphqlGet,
            },
        );
        routes
    }
}

/// Registering this adapter's routes once yields exactly three routes, and
/// no two of them claim the same endpoint, whatever the configuration.
pub proof fn lemma_rocket_route_registration_distinct(config: WebFrameworkConfigView)
    ensures
        RocketAdapter::spec_routes(config).len() == 3,
        route_endpoints_distinct(RocketAdapter::spec_routes(config)),
{
    reveal_strlit("/graphiql");
    reveal_strlit("/graphql");
    assert("/graphiql"@.len() == 9);
    assert("/graphql"@.len() == 8);
}

/// Serves the interactive explorer page, rendered for the configured
/// GraphQL endpoint.
pub struct GraphiqlHandler {
    graphql_path: String,
}

impl View for GraphiqlHandler {
    type V = Seq<char>;

    closed spec fn view(&self) -> Seq<char> {
        self.graphql_path@
    }
}

impl GraphiqlHandler {
    pub fn new(graphql_path: String) -> (handler: GraphiqlHandler)
        ensures
            handler@ == graphql_path@,
    {
        GraphiqlHandler { graphql_path }
    }

    /// Answer any request with the explorer page.
    pub fn handle(&self, _request: &Request) -> (r: HttpResponse)
        ensures
            r.status == STATUS_OK,
            r.content_type == ContentType::Html,
            r.body@ == graphiql_source_of(self@),
    {
        let page = graphiql_page(self.graphql_path.as_str());
        html_response(page)
    }

    /// The one route this handler registers.
    pub fn routes(&self) -> (r: Vec<RouteSpec>)
        ensures
            r@.len() == 1,
            r@[0]@ == (RouteSpecView {
                method: Method::Get,
                mount: Seq::<char>::empty(),
                path: "/graphiql"@,
                kind: RouteKind::Graphiql,
            }),
    {
        let mut r: Vec<RouteSpec> = Vec::new();
        r.push(
            RouteSpec {
                method: Method::Get,
                mount: String::new(),
                path: "/graphiql".to_owned(),
                kind: RouteKind::Graphiql,
            },
        );
        r
    }
}

/// What a GraphQL-over-POST request comes to before the engine runs.
pub enum PostOutcome<Context> {
    /// The context could not be built: answer 503 with the failure's text.
    ContextFailed(HttpResponse),
    /// Hand the context to the engine, which parses the body and executes.
    Execute(Context),
}

/// Executes GraphQL requests carried in a POST body.
pub struct PostGraphqlHandler<Query, Mutation, Context> {
    query_type: PhantomData<Query>,
    mutation_type: PhantomData<Mutation>,
    context_type: PhantomData<Context>,
}

impl<Query, Mutation, Context> PostGraphqlHandler<Query, Mutation, Context> {
    pub fn new() -> (handler: Self) {
        PostGraphqlHandler {
            query_type: PhantomData,
            mutation_type: PhantomData,
            context_type: PhantomData,
        }
    }

    /// The one route this handler registers.
    pub fn routes(&self) -> (r: Vec<RouteSpec>)
        ensures
            r@.len() == 1,
            r@[0]@ == (RouteSpecView {
                method: Method::Post,
                mount: Seq::<char>::empty(),
                path: "/graphql"@,
                kind: RouteKind::GraphqlPost,
            }),
    {
        let mut r: Vec<RouteSpec> = Vec::new();
        r.push(
            RouteSpec {
                method: Method::Post,
                mount: String::new(),
                path: "/graphql".to_owned(),
                kind: RouteKind::GraphqlPost,
            },
        );
        r
    }
}

impl<Query, Mutation, Context: CreateContext> PostGraphqlHandler<Query, Mutation, Context> {
    /// Build the request's context, or answer 503 if that fails; parsing
    /// the body and executing it are the engine's work.
    pub fn handle(&self, pool: &mut PoolState, request: &Request) -> (outcome: PostOutcome<
        Context,
    >)
        requires
            old(pool).wf(),
        ensures
            final(pool).wf(),
            final(pool).max_size == old(pool).max_size,
            match outcome {
                PostOutcome::ContextFailed(r) => r.status == STATUS_SERVICE_UNAVAILABLE
                    && *final(pool) == *old(pool),
                PostOutcome::Execute(_) => old(pool).in_use < old(pool).max_size
                    && final(pool).in_use == old(pool).in_use + 1,
            },
            old(pool).in_use == old(pool).max_size ==> outcome is ContextFailed,
            Context::reliable() && old(pool).in_use < old(pool).max_size ==> outcome is Execute,
    {
        let created = Context::create(pool, request);
        match created {
            Ok(context) => PostOutcome::Execute(context),
            Err(e) => PostOutcome::ContextFailed(service_unavailable_response(e.into_message())),
        }
    }
}

/// What a GraphQL-over-GET request comes to before the engine runs.
pub enum GetOutcome<Context> {
    /// The context could not be built: answer 503 with the failure's text.
    ContextFailed(HttpResponse),
    /// No usable `request` parameter: hand the request on, to fall through
    /// to the framework's 404.
    Forward,
    /// Hand the engine the context and the raw value of the `request`
    /// query parameter.
    Execute(Context, String),
}

/// Executes GraphQL requests carried in the `request` query parameter.
pub struct GetGraphqlHandler<Query, Mutation, Context> {
    query_type: PhantomData<Query>,
    mutation_type: PhantomData<Mutation>,
    context_type: PhantomData<Context>,
}

impl<Query, Mutation, Context> GetGraphqlHandler<Query, Mutation, Context> {
    pub fn new() -> (handler: Self) {
        GetGraphqlHandler {
            query_type: PhantomData,
            mutation_type: PhantomData,
            context_type: PhantomData,
        }
    }

    /// The one route this handler registers.
    pub fn routes(&self) -> (r: Vec<RouteSpec>)
        ensures
            r@.len() == 1,
            r@[0]@ == (RouteSpecView {
                method: Method::Get,
                mount: Seq::<char>::empty(),
                path: "/graphql"@,
                kind: RouteKind::GraphqlGet,
            }),
    {
        let mut r: Vec<RouteSpec> = Vec::new();
        r.push(
            RouteSpec {
                method: Method::Get,
                mount: String::new(),
                path: "/graphql".to_owned(),
                kind: RouteKind::GraphqlGet,
            },
        );
        r
    }
}

impl<Query, Mutation, Context: CreateContext> GetGraphqlHandler<Query, Mutation, Context> {
    /// Build the request's context, then look for the `request` query
    /// parameter; without one the request is handed on and the context's
    /// slot returns to the pool.
    pub fn handle(&self, pool: &mut PoolState, request: &Request) -> (outcome: GetOutcome<Context>)
        requires
            old(pool).wf(),
        ensures
            final(pool).wf(),
            final(pool).max_size == old(pool).max_size,
            match outcome {
                GetOutcome::ContextFailed(r) => r.status == STATUS_SERVICE_UNAVAILABLE
                    && *final(pool) == *old(pool),
                GetOutcome::Forward => spec_request_param(request.query_items@) is None
                    && *final(pool) == *old(pool),
                GetOutcome::Execute(_, value) => spec_request_param(request.query_items@)
                    == Some(value@) && old(pool).in_use < old(pool).max_size
                    && final(pool).in_use == old(pool).in_use + 1,
            },
            old(pool).in_use == old(pool).max_size ==> outcome is ContextFailed,
            Context::reliable() && old(pool).in_use < old(pool).max_size ==> !(outcome
                is ContextFailed),
    {
        let created = Context::create(pool, request);
        match created {
            Err(e) => GetOutcome::ContextFailed(service_unavailable_response(e.into_message())),
            Ok(context) => {
                match find_request_param(&request.query_items) {
                    Some(value) => GetOutcome::Execute(context, value),
                    None => {
                        // nothing to execute: the context's slot goes back
                        pool.check_in();
                        GetOutcome::Forward
                    },
                }
            },
        }
    }
}

/// The value carried by the last `request` item of a query string, if any:
/// later occurrences of a parameter overwrite earlier ones.
pub open spec fn spec_request_param(items: Seq<QueryItem>) -> Option<Seq<char>>
    decreases items.len(),
{
    if items.len() == 0 {
        None
    } else if items.last().key@ == "request"@ {
        Some(items.last().value@)
    } else {
        spec_request_param(items.drop_last())
    }
}

/// Scan a query string for the `request` parameter.
pub fn find_request_param(items: &Vec<QueryItem>) -> (found: Option<String>)
    ensures
        match found {
            Some(value) => spec_request_param(items@) == Some(value@),
            None => spec_request_param(items@) is None,
        },
{
    let request_key: String = "request".to_owned();
    let mut found: Option<String> = None;
    let n: usize = items.len();
    let mut i: usize = 0;
    while i < n
        invariant
            n == items@.len(),
            i <= n,
            request_key@ == "request"@,
            match found {
                Some(value) => spec_request_param(items@.take(i as int)) == Some(value@),
                None => spec_request_param(items@.take(i as int)) is None,
            },
        decreases n - i,
    {
        if items[i].key == request_key {
            found = Some(items[i].value.clone());
        }
        proof {
            assert(items@.take(i + 1).drop_last() =~= items@.take(i as int));
            assert(items@.take(i + 1).last() == items@[i as int]);
        }
        i = i + 1;
    }
    proof {
        assert(items@.take(n as int) =~= items@);
    }
    found
}

} // verus!
