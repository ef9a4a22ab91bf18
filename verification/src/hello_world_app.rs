//! A minimal application: one query field, one mutation field, and a
//! context that does nothing beyond checking out a connection.
//!
//! It exercises every capability the crate defines — a descriptor with the
//! default configuration, a context that succeeds whenever the pool has a
//! free slot, and resolvers whose results are pinned exactly.

use vstd::prelude::*;
use crate::http::Request;
use crate::hyper_adapter::{ContextError, CreateContext, HyperAdapter};
use crate::pool::PoolState;
use crate::{
    default_database_url_env_var, default_graphql_path, default_mount_graphiql_at,
    default_mount_graphql_at, GraphqlApp, DEFAULT_DATABASE_CONNECTION_POOL_MAX_SIZE,
};

verus! {

/// The query root.
pub struct Query {
    _unit: (),
}

impl Query {
    pub fn new() -> (q: Query) {
        Query { _unit: () }
    }

    /// The one query field.
    pub fn hello_world(&self) -> (r: String)
        ensures
            r@ == "Hello, World!"@,
    {
        "Hello, World!".to_owned()
    }
}

/// The mutation root.
pub struct Mutation {
    _unit: (),
}

impl Mutation {
    pub fn new() -> (m: Mutation) {
        Mutation { _unit: () }
    }

    /// The one mutation field.
    pub fn noop(&self) -> (r: bool)
        ensures
            r,
    {
        true
    }
}

/// A request context that holds one connection checkout and nothing else.
pub struct Context {
    _connection: (),
}

impl CreateContext for Context {
    /// Construction does nothing beyond the checkout, so a free slot is all
    /// it ever needs.
    open spec fn reliable() -> bool {
        true
    }

    fn create(pool: &mut PoolState, _request: &Request) -> (r: Result<Self, ContextError>) {
        match pool.try_check_out() {
            Ok(()) => Ok(Context { _connection: () }),
            Err(e) => Err(ContextError::new(e.message())),
        }
    }
}

/// The application descriptor, content with every default.
pub struct App {
    _unit: (),
}

impl App {
    pub fn new() -> (app: App) {
        App { _unit: () }
    }
}

impl GraphqlApp for App {
    type Adapter = HyperAdapter;

    type Query = Query;

    type Mutation = Mutation;

    type Context = Context;

    open spec fn spec_graphql_path(&self) -> Seq<char> {
        "/graphql"@
    }

    open spec fn spec_mount_graphql_at(&self) -> Seq<char> {
        "/"@
    }

    open spec fn spec_mount_graphiql_at(&self) -> Seq<char> {
        "/"@
    }

    open spec fn spec_database_connection_pool_max_size(&self) -> u32 {
        DEFAULT_DATABASE_CONNECTION_POOL_MAX_SIZE
    }

    open spec fn spec_database_url_env_var(&self) -> Seq<char> {
        "DATABASE_URL"@
    }

    fn graphql_path(&self) -> (r: String) {
        default_graphql_path()
    }

    fn mount_graphql_at(&self) -> (r: String) {
        default_mount_graphql_at()
    }

    fn mount_graphiql_at(&self) -> (r: String) {
        default_mount_graphiql_at()
    }

    fn database_connection_pool_max_size(&self) -> (r: u32) {
        DEFAULT_DATABASE_CONNECTION_POOL_MAX_SIZE
    }

    fn database_url_env_var(&self) -> (r: String) {
        default_database_url_env_var()
    }
}

} // verus!
