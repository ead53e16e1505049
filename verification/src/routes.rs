//! The route tables the application registers.
//!
//! Each controller contributes a prefixed set of routes; the application
//! mounts the sets under one API prefix. The tables are data; binding a
//! handler function to each entry is the caller's business.

use vstd::prelude::*;

verus! {

/// The HTTP methods the routes use.
#[derive(Debug, Clone, Copy, PartialEq, Eq, Structural)]
pub enum HttpMethod {
    Get,
    Post,
    Put,
    Delete,
}

/// One route: a method, a path under the set's prefix, and the name of
/// the handler bound to it.
#[derive(Debug, Clone)]
pub struct RouteDef {
    /// HTTP method answered.
    pub method: HttpMethod,
    /// Path under the set's prefix.
    pub path: String,
    /// Name of the handler bound to the route.
    pub handler: String,
}

/// A controller's routes under one prefix.
#[derive(Debug, Clone)]
pub struct RouteSet {
    /// Prefix every route of the set lives under.
    pub prefix: String,
    /// The routes, in registration order.
    pub routes: Vec<RouteDef>,
}

/// One route entry.
fn route(method: HttpMethod, path: &str, handler: &str) -> (r: RouteDef)
    ensures
        r.method == method,
        r.path@ == path@,
        r.handler@ == handler@,
{
    RouteDef { method, path: path.to_owned(), handler: handler.to_owned() }
}

/// One route of `s` has the given method, path and handler.
pub open spec fn route_is(s: RouteSet, i: int, method: HttpMethod, path: Seq<char>, handler: Seq<
    char,
>) -> bool {
    &&& s.routes@[i].method == method
    &&& s.routes@[i].path@ == path
    &&& s.routes@[i].handler@ == handler
}

/// The authentication controller's routes: login and the policy store's
/// management endpoints.
pub fn auth_routes() -> (r: RouteSet)
    ensures
        r.prefix@ == "auth"@,
        r.routes@.len() == 9,
        route_is(r, 0, HttpMethod::Post, "/login"@, "login"@),
        route_is(r, 1, HttpMethod::Get, "/get_all_policy"@, "get_all_policy"@),
        route_is(r, 2, HttpMethod::Get, "/get_all_grouping_policy"@, "get_all_grouping_policy"@),
        route_is(r, 3, HttpMethod::Get, "/get_all_subjects"@, "get_all_subjects"@),
        route_is(r, 4, HttpMethod::Get, "/get_all_objects"@, "get_all_objects"@),
        route_is(r, 5, HttpMethod::Get, "/get_all_actions"@, "get_all_actions"@),
        route_is(r, 6, HttpMethod::Get, "/get_all_roles"@, "get_all_roles"@),
        route_is(r, 7, HttpMethod::Post, "/add_policy"@, "add_policy"@),
        route_is(r, 8, HttpMethod::Post, "/remove_policy"@, "remove_policy"@),
{
    let mut routes: Vec<RouteDef> = Vec::new();
    routes.push(route(HttpMethod::Post, "/login", "login"));
    routes.push(route(HttpMethod::Get, "/get_all_policy", "get_all_policy"));
    routes.push(route(HttpMethod::Get, "/get_all_grouping_policy", "get_all_grouping_policy"));
    routes.push(route(HttpMethod::Get, "/get_all_subjects", "get_all_subjects"));
    routes.push(route(HttpMethod::Get, "/get_all_objects", "get_all_objects"));
    routes.push(route(HttpMethod::Get, "/get_all_actions", "get_all_actions"));
    routes.push(route(HttpMethod::Get, "/get_all_roles", "get_all_roles"));
    routes.push(route(HttpMethod::Post, "/add_policy", "add_policy"));
    routes.push(route(HttpMethod::Post, "/remove_policy", "remove_policy"));
    RouteSet { prefix: "auth".to_owned(), routes }
}

/// The user controller's routes: listing, profile, and the CRUD entries.
pub fn user_routes() -> (r: RouteSet)
    ensures
        r.prefix@ == "user"@,
        r.routes@.len() == 6,
        route_is(r, 0, HttpMethod::Get, ""@, "get_list"@),
        route_is(r, 1, HttpMethod::Get, "/current"@, "current"@),
        route_is(r, 2, HttpMethod::Post, ""@, "create_one"@),
        route_is(r, 3, HttpMethod::Get, "/{id}"@, "get_one"@),
        route_is(r, 4, HttpMethod::Put, "/{id}"@, "update_one"@),
        route_is(r, 5, HttpMethod::Delete, "/{id}"@, "delete_one"@),
{
    let mut routes: Vec<RouteDef> = Vec::new();
    routes.push(route(HttpMethod::Get, "", "get_list"));
    routes.push(route(HttpMethod::Get, "/current", "current"));
    routes.push(route(HttpMethod::Post, "", "create_one"));
    routes.push(route(HttpMethod::Get, "/{id}", "get_one"));
    routes.push(route(HttpMethod::Put, "/{id}", "update_one"));
    routes.push(route(HttpMethod::Delete, "/{id}", "delete_one"));
    RouteSet { prefix: "user".to_owned(), routes }
}

/// The admin controller's routes: the web config and the dashboard data.
pub fn admin_routes() -> (r: RouteSet)
    ensures
        r.prefix@ == "admin"@,
        r.routes@.len() == 2,
        route_is(r, 0, HttpMethod::Get, "/config"@, "config"@),
        route_is(r, 1, HttpMethod::Post, "/dashboard"@, "dashboard"@),
{
    let mut routes: Vec<RouteDef> = Vec::new();
    routes.push(route(HttpMethod::Get, "/config", "config"));
    routes.push(route(HttpMethod::Post, "/dashboard", "dashboard"));
    RouteSet { prefix: "admin".to_owned(), routes }
}

/// The upload controller's route.
pub fn upload_routes() -> (r: RouteSet)
    ensures
        r.prefix@ == "upload"@,
        r.routes@.len() == 1,
        route_is(r, 0, HttpMethod::Post, "/file"@, "upload_file"@),
{
    let mut routes: Vec<RouteDef> = Vec::new();
    routes.push(route(HttpMethod::Post, "/file", "upload_file"));
    RouteSet { prefix: "upload".to_owned(), routes }
}

/// The prefix every controller is mounted under.
pub fn api_prefix() -> (r: String)
    ensures
        r@ == "/api"@,
{
    "/api".to_owned()
}

/// The controllers the application mounts, in order.
pub fn mounted_controllers() -> (r: Vec<String>)
    ensures
        r@.len() == 4,
        r@[0]@ == "auth"@,
        r@[1]@ == "user"@,
        r@[2]@ == "graphql"@,
        r@[3]@ == "admin"@,
{
    let mut v: Vec<String> = Vec::new();
    v.push("auth".to_owned());
    v.push("user".to_owned());
    v.push("graphql".to_owned());
    v.push("admin".to_owned());
    v
}

} // verus!
