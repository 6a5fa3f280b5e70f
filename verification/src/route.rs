//! Routes: a path pattern, the methods it answers to, and its handler.

use vstd::prelude::*;
use crate::method::HttpMethod;
use crate::path::is_rooted;

verus! {

/// A route of the client: the page component for a path pattern. The
/// component is carried, never rendered.
#[derive(Debug)]
pub struct ClientPageRoute<C> {
    /// The component for this page route.
    pub component: C,
    /// The path pattern for this page route.
    pub path: String,
}

impl<C> ClientPageRoute<C> {
    /// A client route for `path` that shows `component`.
    pub fn new(component: C, path: &str) -> (r: ClientPageRoute<C>)
        ensures
            r.component == component,
            r.path@ == path@,
    {
        ClientPageRoute { component, path: path.to_owned() }
    }

    /// Returns a reference to the component for this page route.
    pub fn component(&self) -> (c: &C)
        ensures
            *c == self.component,
    {
        &self.component
    }

    /// Returns a reference to the path pattern for this page route.
    pub fn path(&self) -> (p: &str)
        ensures
            p@ == self.path@,
    {
        self.path.as_str()
    }
}

/// A route of the server: requests for `path` with one of the methods of
/// `method` go to `handler`. The handler is carried, never called.
#[derive(Debug)]
pub struct Route<H> {
    /// The path that the route matches, e.g. "/users/:id" or "/login".
    path: String,
    /// The methods that the route answers to.
    method: HttpMethod,
    /// What handles a request that the route matches.
    handler: H,
}

impl<H> Route<H> {
    #[verifier::type_invariant]
    spec fn rooted(self) -> bool {
        is_rooted(self.path@)
    }

    /// The path pattern of the route.
    pub closed spec fn spec_path(self) -> Seq<char> {
        self.path@
    }

    /// The methods of the route.
    pub closed spec fn spec_method(self) -> HttpMethod {
        self.method
    }

    /// The handler of the route.
    pub closed spec fn spec_handler(self) -> H {
        self.handler
    }

    /// Creates a new route with the given path, methods and handler. The path
    /// starts with a slash.
    pub fn new(path: &str, method: HttpMethod, handler: H) -> (r: Route<H>)
        requires
            is_rooted(path@),
        ensures
            r.spec_path() == path@,
            r.spec_method() == method,
            r.spec_handler() == handler,
    {
        Route { path: path.to_owned(), method, handler }
    }

    /// Creates a new route for the POST method.
    pub fn post(path: &str, handler: H) -> (r: Route<H>)
        requires
            is_rooted(path@),
        ensures
            r.spec_path() == path@,
            r.spec_method().bits() == crate::method::POST,
            r.spec_handler() == handler,
    {
        Self::new(path, HttpMethod::post(), handler)
    }

    /// Creates a new route for the GET method.
    pub fn get(path: &str, handler: H) -> (r: Route<H>)
        requires
            is_rooted(path@),
        ensures
            r.spec_path() == path@,
            r.spec_method().bits() == crate::method::GET,
            r.spec_handler() == handler,
    {
        Self::new(path, HttpMethod::get(), handler)
    }

    /// Creates a new route for the HEAD method.
    pub fn head(path: &str, handler: H) -> (r: Route<H>)
        requires
            is_rooted(path@),
        ensures
            r.spec_path() == path@,
            r.spec_method().bits() == crate::method::HEAD,
            r.spec_handler() == handler,
    {
        Self::new(path, HttpMethod::head(), handler)
    }

    /// Creates a new route for the PUT method.
    pub fn put(path: &str, handler: H) -> (r: Route<H>)
        requires
            is_rooted(path@),
        ensures
            r.spec_path() == path@,
            r.spec_method().bits() == crate::method::PUT,
            r.spec_handler() == handler,
    {
        Self::new(path, HttpMethod::put(), handler)
    }

    /// Creates a new route for the DELETE method.
    pub fn delete(path: &str, handler: H) -> (r: Route<H>)
        requires
            is_rooted(path@),
        ensures
            r.spec_path() == path@,
            r.spec_method().bits() == crate::method::DELETE,
            r.spec_handler() == handler,
    {
        Self::new(path, HttpMethod::delete(), handler)
    }

    /// Creates a new route for the OPTIONS method.
    pub fn options(path: &str, handler: H) -> (r: Route<H>)
        requires
            is_rooted(path@),
        ensures
            r.spec_path() == path@,
            r.spec_method().bits() == crate::method::OPTIONS,
            r.spec_handler() == handler,
    {
        Self::new(path, HttpMethod::options(), handler)
    }

    /// Creates a new route for the PATCH method.
    pub fn patch(path: &str, handler: H) -> (r: Route<H>)
        requires
            is_rooted(path@),
        ensures
            r.spec_path() == path@,
            r.spec_method().bits() == crate::method::PATCH,
            r.spec_handler() == handler,
    {
        Self::new(path, HttpMethod::patch(), handler)
    }

    /// Returns the path of this route. It starts with a slash.
    pub fn path(&self) -> (p: &str)
        ensures
            p@ == self.spec_path(),
            is_rooted(p@),
    {
        proof {
            use_type_invariant(self);
        }
        self.path.as_str()
    }

    /// Returns the methods of this route.
    pub fn method(&self) -> (m: HttpMethod)
        ensures
            m == self.spec_method(),
    {
        self.method
    }

    /// Returns the handler of this route.
    pub fn handler(&self) -> (h: &H)
        ensures
            *h == self.spec_handler(),
    {
        &self.handler
    }
}

} // verus!
