//! Serve a GraphQL schema over an interchangeable HTTP web framework, backed
//! by a pooled database connection.
//!
//! The crate models the decision logic of such a shim: which route an
//! incoming request is dispatched to, which status code each outcome maps
//! to, what the adapters register at startup, and how request contexts draw
//! connections from the bounded pool. The HTTP serving itself, the GraphQL
//! engine and the database driver are outside collaborators; the verified
//! functions here say exactly what is decided before and after those
//! collaborators run.

use vstd::prelude::*;

pub mod graphiql;
pub mod hello_world_app;
pub mod http;
pub mod hyper_adapter;
pub mod pool;
pub mod rocket_adapter;
pub mod routes;

use crate::pool::PoolState;
use crate::routes::{routes_match, route_endpoints_distinct, RouteSpec, RouteSpecView};

verus! {

/// The pool size an application gets when it does not choose one.
pub const DEFAULT_DATABASE_CONNECTION_POOL_MAX_SIZE: u32 = 10;

/// The path the GraphQL endpoint is served at by default.
pub fn default_graphql_path() -> (r: String)
    ensures
        r@ == "/graphql"@,
{
    "/graphql".to_owned()
}

/// The mount point the GraphQL routes are nested under by default.
pub fn default_mount_graphql_at() -> (r: String)
    ensures
        r@ == "/"@,
{
    "/".to_owned()
}

/// The mount point the explorer route is nested under by default.
pub fn default_mount_graphiql_at() -> (r: String)
    ensures
        r@ == "/"@,
{
    "/".to_owned()
}

/// The environment variable the database URL is read from by default.
pub fn default_database_url_env_var() -> (r: String)
    ensures
        r@ == "DATABASE_URL"@,
{
    "DATABASE_URL".to_owned()
}

/// Everything a web framework adapter is handed before it starts serving:
/// the connection pool and the paths its routes go to.
pub struct WebFrameworkConfig {
    pub database_connection_pool: PoolState,
    pub graphql_path: String,
    pub mount_graphiql_at: String,
    pub mount_graphql_at: String,
}

/// The mathematical value of a [`WebFrameworkConfig`].
pub struct WebFrameworkConfigView {
    pub database_connection_pool: PoolState,
    pub graphql_path: Seq<char>,
    pub mount_graphiql_at: Seq<char>,
    pub mount_graphql_at: Seq<char>,
}

impl View for WebFrameworkConfig {
    type V = WebFrameworkConfigView;

    open spec fn view(&self) -> WebFrameworkConfigView {
        WebFrameworkConfigView {
            database_connection_pool: self.database_connection_pool,
            graphql_path: self.graphql_path@,
            mount_graphiql_at: self.mount_graphiql_at@,
            mount_graphql_at: self.mount_graphql_at@,
        }
    }
}

/// A pluggable web framework.
///
/// An adapter is a zero-state value; all its knowledge of the application
/// arrives through the configuration. `planned_routes` is the registration
/// plan its serving loop carries out once at startup: for a fixed
/// configuration the plan is one fixed, duplicate-free set of routes, so
/// running an adapter never registers a route twice.
pub trait Adapter: Sized {
    /// The framework value handed to the application's configuration hook
    /// before serving begins.
    type Inner;

    /// Configurations this adapter can lay its routes out for.
    spec fn routes_ok(config: WebFrameworkConfigView) -> bool;

    /// The exact routes this adapter registers for a configuration.
    spec fn spec_routes(config: WebFrameworkConfigView) -> Seq<RouteSpecView>;

    /// A zero-state adapter instance.
    fn new() -> (adapter: Self);

    /// The routes the adapter's serving loop registers, exactly once each.
    fn planned_routes(&self, config: &WebFrameworkConfig) -> (routes: Vec<RouteSpec>)
        requires
            Self::routes_ok(config@),
        ensures
            routes_match(routes@, Self::spec_routes(config@)),
            route_endpoints_distinct(Self::spec_routes(config@)),
    ;
}

/// A user-supplied application descriptor: one adapter, one context type,
/// one query root, one mutation root, and the configuration the defaults of
/// which this module provides.
pub trait GraphqlApp: Sized {
    type Adapter: Adapter;
    type Query;
    type Mutation;
    type Context;

    spec fn spec_graphql_path(&self) -> Seq<char>;

    spec fn spec_mount_graphql_at(&self) -> Seq<char>;

    spec fn spec_mount_graphiql_at(&self) -> Seq<char>;

    spec fn spec_database_connection_pool_max_size(&self) -> u32;

    spec fn spec_database_url_env_var(&self) -> Seq<char>;

    /// A hook to adjust the framework instance before serving begins; by
    /// default it hands the instance back untouched.
    fn configure_web_framework(
        &self,
        web_framework: <Self::Adapter as Adapter>::Inner,
    ) -> (r: <Self::Adapter as Adapter>::Inner)
        default_ensures
            r == web_framework,
    {
        web_framework
    }

    /// Where GraphQL requests are executed.
    fn graphql_path(&self) -> (r: String)
        ensures
            r@ == self.spec_graphql_path(),
    ;

    /// Where the GraphQL routes are mounted.
    fn mount_graphql_at(&self) -> (r: String)
        ensures
            r@ == self.spec_mount_graphql_at(),
    ;

    /// Where the explorer route is mounted.
    fn mount_graphiql_at(&self) -> (r: String)
        ensures
            r@ == self.spec_mount_graphiql_at(),
    ;

    /// The bound of the database connection pool.
    fn database_connection_pool_max_size(&self) -> (r: u32)
        ensures
            r == self.spec_database_connection_pool_max_size(),
    ;

    /// The environment variable naming the database to connect to.
    fn database_url_env_var(&self) -> (r: String)
        ensures
            r@ == self.spec_database_url_env_var(),
    ;
}

/// Assemble the configuration an adapter serves from: a fresh pool with the
/// application's chosen bound, and the application's paths.
pub fn build_web_framework_config<App: GraphqlApp>(app: &App) -> (config: WebFrameworkConfig)
    ensures
        config.database_connection_pool.max_size == app.spec_database_connection_pool_max_size(),
        config.database_connection_pool.in_use == 0,
        config.database_connection_pool.wf(),
        config@.graphql_path == app.spec_graphql_path(),
        config@.mount_graphiql_at == app.spec_mount_graphiql_at(),
        config@.mount_graphql_at == app.spec_mount_graphql_at(),
{
    WebFrameworkConfig {
        database_connection_pool: PoolState::new(app.database_connection_pool_max_size()),
        graphql_path: app.graphql_path(),
        mount_graphiql_at: app.mount_graphiql_at(),
        mount_graphql_at: app.mount_graphql_at(),
    }
}

} // verus!
