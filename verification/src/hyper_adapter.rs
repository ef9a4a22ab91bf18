//! The event-loop adapter.
//!
//! The serving loop multiplexes requests on a reactor and owns all the I/O;
//! what it asks of this module, once per request, is a decision: build the
//! context, pick the route, and either answer directly (explorer page, 404,
//! 503) or hand the context over for GraphQL execution. The decision is
//! [`HyperAdapter::handle_request`], and its contract pins each of the four
//! outcomes to the state of the pool and the shape of the request.

use vstd::prelude::*;
use crate::graphiql::{graphiql_page, graphiql_source_of};
use crate::http::{
    html_response, not_found_response, service_unavailable_response, ContentType, HttpResponse,
    Method, Request, STATUS_NOT_FOUND, STATUS_OK, STATUS_SERVICE_UNAVAILABLE,
};
use crate::pool::PoolState;
use crate::routes::{route_endpoints_distinct, RouteKind, RouteSpec, RouteSpecView};
use crate::{Adapter, WebFrameworkConfig, WebFrameworkConfigView};

verus! {

/// Registering this adapter's routes once yields exactly three routes, and
/// no two of them claim the same endpoint, for every configuration whose
/// explorer mount and GraphQL path differ.
pub proof fn lemma_hyper_route_registration_distinct(config: WebFrameworkConfigView)
    requires
        config.mount_graphiql_at != config.graphql_path,
    ensures
        HyperAdapter::spec_routes(config).len() == 3,
        route_endpoints_distinct(HyperAdapter::spec_routes(config)),
{
}

/// Why a request context could not be built; its text becomes the body of
/// the 503 answer.
pub struct ContextError {
    message: String,
}

impl View for ContextError {
    type V = Seq<char>;

    closed spec fn view(&self) -> Seq<char> {
        self.message@
    }
}

impl ContextError {
    pub fn new(message: String) -> (e: ContextError)
        ensures
            e@ == message@,
    {
        ContextError { message }
    }

    /// The display text of the failure.
    pub fn into_message(self) -> (msg: String)
        ensures
            msg@ == self@,
    {
        self.message
    }
}

/// A pluggable request context: built once per request from the pool and
/// the raw request, checking out one connection slot for its lifetime.
///
/// Construction must fail when every slot is taken, must take exactly one
/// slot when it succeeds, and must leave the pool untouched when it fails.
/// A context type may refuse requests for reasons of its own; one that
/// never does — one that succeeds whenever a slot is free — says so
/// through `reliable`.
pub trait CreateContext: Sized {
    /// True if construction succeeds whenever a pool slot is free.
    spec fn reliable() -> bool;

    fn create(pool: &mut PoolState, request: &Request) -> (r: Result<Self, ContextError>)
        requires
            old(pool).wf(),
        ensures
            final(pool).wf(),
            final(pool).max_size == old(pool).max_size,
            r is Ok ==> old(pool).in_use < old(pool).max_size && final(pool).in_use == old(
                pool,
            ).in_use + 1,
            r is Err ==> *final(pool) == *old(pool),
            old(pool).in_use == old(pool).max_size ==> r is Err,
            Self::reliable() && old(pool).in_use < old(pool).max_size ==> r is Ok,
    ;
}

/// Where a request is dispatched once its context exists.
#[derive(Clone, Copy, Debug, PartialEq, Eq, Structural)]
pub enum RouteTarget {
    /// The explorer page route.
    GraphiqlPage,
    /// The GraphQL endpoint, over GET or POST.
    GraphqlExecute,
    /// No registered route.
    Unmatched,
}

/// The dispatch rule of the event-loop adapter: GET on the explorer mount
/// serves the page, GET or POST on the GraphQL path executes, and
/// everything else is unmatched.
pub open spec fn spec_route(
    config: WebFrameworkConfigView,
    method: Method,
    path: Seq<char>,
) -> RouteTarget {
    if method == Method::Get && path == config.mount_graphiql_at {
        RouteTarget::GraphiqlPage
    } else if path == config.graphql_path {
        RouteTarget::GraphqlExecute
    } else {
        RouteTarget::Unmatched
    }
}

/// Decide where a request goes.
pub fn route(config: &WebFrameworkConfig, method: Method, path: &String) -> (target: RouteTarget)
    ensures
        target == spec_route(config@, method, path@),
{
    if method == Method::Get && *path == config.mount_graphiql_at {
        RouteTarget::GraphiqlPage
    } else if *path == config.graphql_path {
        RouteTarget::GraphqlExecute
    } else {
        RouteTarget::Unmatched
    }
}

/// What one request comes to, as far as this layer decides it.
pub enum RequestOutcome<Context> {
    /// The context could not be built: answer 503 with the failure's text.
    ContextFailed(HttpResponse),
    /// The explorer route matched: answer 200 with the explorer page.
    Page(HttpResponse),
    /// No route matched: answer 404 with an empty body.
    NotFound(HttpResponse),
    /// The GraphQL route matched: hand the context to the engine, which
    /// executes the request and decides the response itself.
    Execute(Context),
}

/// The event-loop adapter. It holds no state of its own; every decision is
/// drawn from the configuration and the request.
pub struct HyperAdapter {
    _unit: (),
}

impl HyperAdapter {
    /// Decide one request.
    ///
    /// The context is built first, so an exhausted pool answers 503
    /// whatever the path. A context that only serves the explorer page or
    /// a 404 is dropped at once, returning its slot; only an `Execute`
    /// outcome keeps its slot until the engine is done.
    pub fn handle_request<Context: CreateContext>(
        &self,
        config: &mut WebFrameworkConfig,
        request: &Request,
    ) -> (outcome: RequestOutcome<Context>)
        requires
            old(config).database_connection_pool.wf(),
        ensures
            final(config).database_connection_pool.wf(),
            final(config).database_connection_pool.max_size == old(
                config,
            ).database_connection_pool.max_size,
            final(config).graphql_path@ == old(config).graphql_path@,
            final(config).mount_graphiql_at@ == old(config).mount_graphiql_at@,
            final(config).mount_graphql_at@ == old(config).mount_graphql_at@,
            match outcome {
                RequestOutcome::ContextFailed(r) => r.status == STATUS_SERVICE_UNAVAILABLE
                    && final(config).database_connection_pool == old(
                    config,
                ).database_connection_pool,
                RequestOutcome::Page(r) => spec_route(old(config)@, request.method, request.path@)
                    == RouteTarget::GraphiqlPage && r.status == STATUS_OK && r.content_type
                    == ContentType::Html && r.body@ == graphiql_source_of(old(config).graphql_path@)
                    && final(config).database_connection_pool == old(
                    config,
                ).database_connection_pool,
                RequestOutcome::NotFound(r) => spec_route(
                    old(config)@,
                    request.method,
                    request.path@,
                ) == RouteTarget::Unmatched && r.status == STATUS_NOT_FOUND && r.body@
                    == Seq::<char>::empty() && final(config).database_connection_pool == old(
                    config,
                ).database_connection_pool,
                RequestOutcome::Execute(_) => spec_route(old(config)@, request.method, request.path@)
                    == RouteTarget::GraphqlExecute && final(config).database_connection_pool.in_use
                    == old(config).database_connection_pool.in_use + 1,
            },
            // a fully exhausted pool answers 503, whatever the request
            old(config).database_connection_pool.in_use == old(
                config,
            ).database_connection_pool.max_size ==> outcome is ContextFailed,
            // a free slot and a reliable context always carry the request through
            Context::reliable() && old(config).database_connection_pool.in_use < old(
                config,
            ).database_connection_pool.max_size ==> !(outcome is ContextFailed),
            // with a free slot and a reliable context, a request to the GraphQL
            // route always reaches the engine
            Context::reliable() && old(config).database_connection_pool.in_use < old(
                config,
            ).database_connection_pool.max_size && spec_route(
                old(config)@,
                request.method,
                request.path@,
            ) == RouteTarget::GraphqlExecute ==> outcome is Execute,
            // an unregistered path, reached with a context, answers 404
            Context::reliable() && old(config).database_connection_pool.in_use < old(
                config,
            ).database_connection_pool.max_size && spec_route(
                old(config)@,
                request.method,
                request.path@,
            ) == RouteTarget::Unmatched ==> outcome is NotFound,
    {
        let created = Context::create(&mut config.database_connection_pool, request);
        match created {
            Err(e) => RequestOutcome::ContextFailed(
                service_unavailable_response(e.into_message()),
            ),
            Ok(context) => {
                let target = route(config, request.method, &request.path);
                match target {
                    RouteTarget::GraphiqlPage => {
                        // the context is done with: its slot goes back to the pool
                        config.database_connection_pool.check_in();
                        let page = graphiql_page(config.graphql_path.as_str());
                        RequestOutcome::Page(html_response(page))
                    },
                    RouteTarget::GraphqlExecute => RequestOutcome::Execute(context),
                    RouteTarget::Unmatched => {
                        config.database_connection_pool.check_in();
                        RequestOutcome::NotFound(not_found_response())
                    },
                }
            },
        }
    }

    /// Return the slot an `Execute` outcome's context held, once the engine
    /// has produced its response.
    pub fn finish_request(&self, config: &mut WebFrameworkConfig)
        requires
            old(config).database_connection_pool.wf(),
            old(config).database_connection_pool.in_use > 0,
        ensures
            final(config).database_connection_pool.wf(),
            final(config).database_connection_pool.max_size == old(
                config,
            ).database_connection_pool.max_size,
            final(config).database_connection_pool.in_use == old(
                config,
            ).database_connection_pool.in_use - 1,
            final(config).graphql_path@ == old(config).graphql_path@,
            final(config).mount_graphiql_at@ == old(config).mount_graphiql_at@,
            final(config).mount_graphql_at@ == old(config).mount_graphql_at@,
    {
        config.database_connection_pool.check_in();
    }
}

impl Adapter for HyperAdapter {
    type Inner = ();

    /// The explorer mount and the GraphQL path must differ, else the two
    /// GET routes would claim one endpoint.
    open spec fn routes_ok(config: WebFrameworkConfigView) -> bool {
        config.mount_graphiql_at != config.graphql_path
    }

    open spec fn spec_routes(config: WebFrameworkConfigView) -> Seq<RouteSpecView> {
        seq![
            RouteSpecView {
                method: Method::Get,
                mount: Seq::<char>::empty(),
                path: config.mount_graphiql_at,
                kind: RouteKind::Graphiql,
            },
            RouteSpecView {
                method: Method::Get,
                mount: Seq::<char>::empty(),
                path: config.graphql_path,
                kind: RouteKind::GraphqlGet,
            },
            RouteSpecView {
                method: Method::Post,
                mount: Seq::<char>::empty(),
                path: config.graphql_path,
                kind: RouteKind::GraphqlPost,
            },
        ]
    }

    fn new() -> (adapter: Self) {
        HyperAdapter { _unit: () }
    }

    fn planned_routes(&self, config: &WebFrameworkConfig) -> (routes: Vec<RouteSpec>) {
        let mut routes: Vec<RouteSpec> = Vec::new();
        routes.push(
            RouteSpec {
                method: Method::Get,
                mount: String::new(),
                path: config.mount_graphiql_at.clone(),
                kind: RouteKind::Graphiql,
            },
        );
        routes.push(
            RouteSpec {
                method: Method::Get,
                mount: String::new(),
                path: config.graphql_path.clone(),
                kind: RouteKind::GraphqlGet,
            },
        );
        routes.push(
            RouteSpec {
                method: Method::Post,
                mount: String::new(),
                path: config.graphql_path.clone(),
                kind: RouteKind::GraphqlPost,
            },
        );
        routes
    }
}

} // verus!
