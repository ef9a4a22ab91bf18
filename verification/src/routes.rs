//! The routes an adapter registers before it starts serving.
//!
//! Registration happens once, at startup; everything the framework needs to
//! know about one route is its method, the mount point it is nested under,
//! its path below that mount, and which handler it belongs to.

use vstd::prelude::*;
use crate::http::Method;

verus! {

/// Which handler a registered route belongs to.
#[derive(Clone, Copy, Debug, PartialEq, Eq, Structural)]
pub enum RouteKind {
    /// Serves the interactive explorer page.
    Graphiql,
    /// Executes a GraphQL request taken from the request body.
    GraphqlPost,
    /// Executes a GraphQL request taken from the `request` query parameter.
    GraphqlGet,
}

/// One route as an adapter registers it.
pub struct RouteSpec {
    pub method: Method,
    pub mount: String,
    pub path: String,
    pub kind: RouteKind,
}

/// The mathematical value of a [`RouteSpec`].
pub struct RouteSpecView {
    pub method: Method,
    pub mount: Seq<char>,
    pub path: Seq<char>,
    pub kind: RouteKind,
}

impl View for RouteSpec {
    type V = RouteSpecView;

    open spec fn view(&self) -> RouteSpecView {
        RouteSpecView {
            method: self.method,
            mount: self.mount@,
            path: self.path@,
            kind: self.kind,
        }
    }
}

/// The registered routes equal the planned ones, element for element.
pub open spec fn routes_match(routes: Seq<RouteSpec>, planned: Seq<RouteSpecView>) -> bool {
    &&& routes.len() == planned.len()
    &&& forall|i: int| 0 <= i < routes.len() ==> routes[i]@ == planned[i]
}

/// No two routes claim the same endpoint: every pair differs in method,
/// mount or path.
pub open spec fn route_endpoints_distinct(planned: Seq<RouteSpecView>) -> bool {
    forall|i: int, j: int|
        0 <= i < j < planned.len() ==> !(planned[i].method == planned[j].method
            && planned[i].mount == planned[j].mount && planned[i].path == planned[j].path)
}

} // verus!
