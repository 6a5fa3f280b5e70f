//! The dispatcher: from a request to what is to be done for it, and from what
//! a handler gave back to the response.
//!
//! The service calls no handler. It says which one is to be called and with
//! what, and is told the outcome; so each step is a function with a contract.

use vstd::prelude::*;
use crate::body::Body;
use crate::context::RequestContext;
use crate::error_router::ErrorRouter;
use crate::method::HttpMethod;
use crate::params::Params;
use crate::path::{normalize_path, normalized};
use crate::response::{message_bytes, Response, ResponseError};
use crate::router::{RouteMatch, RouteTable};
use crate::status::{StatusCode, INTERNAL_SERVER_ERROR, METHOD_NOT_ALLOWED, NOT_FOUND};

verus! {

/// Why a request has no route.
#[derive(Debug, Clone, Copy, PartialEq, Eq, Structural)]
pub enum RoutingError {
    /// No route matches the path.
    NotFound,
    /// A route matches the path, and answers to none of the request's methods.
    MethodNotAllowed,
}

impl RoutingError {
    /// The status that reports the error.
    pub open spec fn spec_status(self) -> StatusCode {
        match self {
            RoutingError::NotFound => StatusCode(NOT_FOUND),
            RoutingError::MethodNotAllowed => StatusCode(METHOD_NOT_ALLOWED),
        }
    }

    /// The status that reports the error.
    pub fn status(&self) -> (s: StatusCode)
        ensures
            s == self.spec_status(),
    {
        match self {
            RoutingError::NotFound => StatusCode(NOT_FOUND),
            RoutingError::MethodNotAllowed => StatusCode(METHOD_NOT_ALLOWED),
        }
    }
}

/// Where an error comes from: a response that reports one, or an error value.
#[derive(Debug)]
pub enum ErrorSource<S> {
    Response(Response<S>),
    Error(ResponseError),
}

impl<S> ErrorSource<S> {
    /// The status of the error.
    pub open spec fn status(self) -> StatusCode {
        match self {
            ErrorSource::Response(r) => r.status,
            ErrorSource::Error(e) => e.status,
        }
    }

    /// The message of the error: that of the error value, or that of the error
    /// attached to the response.
    pub open spec fn message(self) -> Option<Seq<char>> {
        match self {
            ErrorSource::Response(r) => r.error_message(),
            ErrorSource::Error(e) => e.message_view(),
        }
    }

    /// The error that the source stands for.
    pub fn into_error(self) -> (e: ResponseError)
        ensures
            e.status == self.status(),
            e.message_view() == self.message(),
    {
        match self {
            ErrorSource::Response(response) => {
                let status = response.status;
                let message = match response.error {
                    Some(attached) => attached.message,
                    None => None,
                };
                ResponseError::new(status, message)
            },
            ErrorSource::Error(error) => error,
        }
    }
}

/// How an error handler failed, in words.
#[derive(Debug)]
pub struct HandlerFailure {
    pub description: String,
}

/// What is to be done for a request.
#[derive(Debug)]
pub enum Dispatch<S> {
    /// Enter the hook at place `index`. To go on, the hook asks for
    /// `AppService::next` at `index + 1`.
    CallHook { index: usize },
    /// Call the handler of the route at place `route` with `context`, and hand
    /// its response to `AppService::on_handler_response`.
    CallHandler { route: usize, context: RequestContext },
    /// Call the error handler for `status` with `context`, and hand its result
    /// to `AppService::on_error_handler_result`.
    CallErrorHandler { status: StatusCode, context: RequestContext },
    /// Answer with this response.
    Respond(Response<S>),
}

/// Whether `d` calls the handler of the route at place `route` for the request
/// of `path` with the captured `params`, and no error.
pub open spec fn is_handler_call<S>(
    d: Dispatch<S>,
    route: usize,
    path: Seq<char>,
    params: Seq<(Seq<char>, Seq<char>)>,
) -> bool {
    d matches Dispatch::CallHandler { route: r, context } && r == route && context.path@ == path
        && context.params@ == params && context.error is None
}

/// Whether `r` is the bare answer to a request whose method the route does not
/// take: status 405, no header, an empty body.
pub open spec fn is_method_not_allowed<S>(r: Response<S>) -> bool {
    &&& r.status == StatusCode(METHOD_NOT_ALLOWED)
    &&& r.headers@.len() == 0
    &&& !r.body.spec_is_stream()
    &&& r.body.bytes() == Seq::<u8>::empty()
    &&& r.error is None
}

/// Whether `r` reports the error of `status` and `message` itself: that
/// status, the message as body, the error attached.
pub open spec fn is_error_response<S>(
    r: Response<S>,
    status: StatusCode,
    message: Option<Seq<char>>,
) -> bool {
    &&& r.status == status
    &&& r.headers@.len() == 0
    &&& !r.body.spec_is_stream()
    &&& r.body.bytes() == message_bytes(message)
    &&& r.error matches Some(e) && e.status == status && e.message_view() == message
}

/// Whether `d` is what the error of `status` and `message` on `path` leads to:
/// the call of the error handler for the status where one is registered, with
/// the path and the error in its context and no parameters; else the response
/// that reports the error itself.
pub open spec fn is_error_dispatch<S, E>(
    d: Dispatch<S>,
    errors: ErrorRouter<E>,
    path: Seq<char>,
    status: StatusCode,
    message: Option<Seq<char>>,
) -> bool {
    if errors.recognize(status) is Some {
        d matches Dispatch::CallErrorHandler { status: s, context } && s == status && context.path@
            == path && context.params@.len() == 0 && (context.error matches Some(e) && e.status
            == status && e.message_view() == message)
    } else {
        d matches Dispatch::Respond(r) && is_error_response(r, status, message)
    }
}

/// Whether `r` is the last resort after a failed error handler: status 500
/// and the description of the failure as body.
pub open spec fn is_failure_response<S>(r: Response<S>, description: Seq<char>) -> bool {
    &&& r.status == StatusCode(INTERNAL_SERVER_ERROR)
    &&& r.headers@.len() == 0
    &&& !r.body.spec_is_stream()
    &&& r.body.bytes() == vstd::utf8::encode_utf8(description)
    &&& r.error is None
}

/// The root service of an application: its routes, its error routes and its
/// hooks, in the order of their registration.
pub struct AppService<H, E, K> {
    routes: RouteTable<H>,
    errors: ErrorRouter<E>,
    hooks: Vec<K>,
}

impl<H, E, K> AppService<H, E, K> {
    /// The route table.
    pub closed spec fn routes(self) -> RouteTable<H> {
        self.routes
    }

    /// The error routes.
    pub closed spec fn errors(self) -> ErrorRouter<E> {
        self.errors
    }

    /// The hooks, first registered first.
    pub closed spec fn hook_list(self) -> Seq<K> {
        self.hooks@
    }

    /// Whether `d` is what the routes lead to for a request of `method` whose
    /// path has the normal form `path`: the handler call where a route matches
    /// and takes the method, the bare 405 where it matches and does not, and
    /// the dispatch of a 404 error where none matches.
    pub open spec fn is_route_dispatch<S>(self, d: Dispatch<S>, method: HttpMethod, path: Seq<char>) -> bool {
        match self.routes().lookup(path) {
            Some((index, params)) => if self.routes().routes()[index as int].spec_method().spec_matches(
                method,
            ) {
                is_handler_call(d, index, path, params)
            } else {
                d matches Dispatch::Respond(r) && is_method_not_allowed(r)
            },
            None => is_error_dispatch(d, self.errors(), path, StatusCode(NOT_FOUND), None),
        }
    }

    /// A service with the given routes, error routes and hooks.
    pub fn new(routes: RouteTable<H>, errors: ErrorRouter<E>, hooks: Vec<K>) -> (s: AppService<
        H,
        E,
        K,
    >)
        ensures
            s.routes() == routes,
            s.errors() == errors,
            s.hook_list() == hooks@,
    {
        AppService { routes, errors, hooks }
    }

    /// Returns the server router.
    pub fn server_router(&self) -> (r: &RouteTable<H>)
        ensures
            *r == self.routes(),
    {
        &self.routes
    }

    /// Returns the router of the error handlers.
    pub fn error_router(&self) -> (r: &ErrorRouter<E>)
        ensures
            *r == self.errors(),
    {
        &self.errors
    }

    /// Returns the hooks, first registered first.
    pub fn hooks(&self) -> (h: &Vec<K>)
        ensures
            h@ == self.hook_list(),
    {
        &self.hooks
    }

    /// Create a context to be used in the request.
    pub fn create_context(&self, path: String, params: Params, error: Option<ResponseError>) -> (c:
        RequestContext)
        ensures
            c.path == path,
            c.params == params,
            c.error == error,
    {
        RequestContext::new(path, params, error)
    }

    /// The route for a request of `method` and `path`, which is matched as it
    /// stands. A path that matches a route which takes none of the methods is
    /// set apart from a path that matches no route.
    pub fn match_route(&self, method: HttpMethod, path: &str) -> (r: Result<RouteMatch, RoutingError>)
        ensures
            match self.routes().lookup(path@) {
                Some((index, params)) => if self.routes().routes()[index as int].spec_method().spec_matches(
                    method,
                ) {
                    r matches Ok(m) && m.index == index && m.params@ == params
                } else {
                    r matches Err(e) && e == RoutingError::MethodNotAllowed
                },
                None => r matches Err(e) && e == RoutingError::NotFound,
            },
    {
        match self.routes.find(path) {
            Some(found) => {
                if self.routes.route(found.index).method().matches(&method) {
                    Ok(found)
                } else {
                    Err(RoutingError::MethodNotAllowed)
                }
            },
            None => Err(RoutingError::NotFound),
        }
    }

    /// Process the incoming request: the first step for it. Where hooks are
    /// registered, the first of them is entered; else the request is routed.
    pub fn handle<S>(&self, method: HttpMethod, path: &str) -> (d: Dispatch<S>)
        ensures
            self.hook_list().len() > 0 ==> d == (Dispatch::<S>::CallHook { index: 0 }),
            self.hook_list().len() == 0 ==> self.is_route_dispatch(d, method, normalized(path@)),
    {
        self.next(0, method, path)
    }

    /// The step after `entered` hooks have been entered: the next hook in the
    /// order of registration, and the routing of the request after the last.
    pub fn next<S>(&self, entered: usize, method: HttpMethod, path: &str) -> (d: Dispatch<S>)
        ensures
            entered < self.hook_list().len() ==> d == (Dispatch::<S>::CallHook { index: entered }),
            entered >= self.hook_list().len() ==> self.is_route_dispatch(
                d,
                method,
                normalized(path@),
            ),
    {
        if entered < self.hooks.len() {
            Dispatch::CallHook { index: entered }
        } else {
            self.handle_request(method, path)
        }
    }

    /// Routes the request: its path is brought to normal form and matched. A
    /// route that takes the method has its handler called; one that does not
    /// is answered with a bare 405, and no handler or error route is asked; no
    /// route at all is a 404 error, which goes to the error routes.
    pub fn handle_request<S>(&self, method: HttpMethod, path: &str) -> (d: Dispatch<S>)
        ensures
            self.is_route_dispatch(d, method, normalized(path@)),
    {
        let path = normalize_path(path);
        match self.match_route(method, path.as_str()) {
            Ok(found) => {
                let context = self.create_context(path, found.params, None);
                Dispatch::CallHandler { route: found.index, context }
            },
            Err(RoutingError::MethodNotAllowed) => Dispatch::Respond(
                Response::with_status(StatusCode(METHOD_NOT_ALLOWED), Body::default()),
            ),
            Err(RoutingError::NotFound) => {
                let source = ErrorSource::Error(ResponseError::from_status(StatusCode(NOT_FOUND)));
                self.handle_error(path.as_str(), source)
            },
        }
    }

    /// The handler of a route has answered the request of `path`. A response
    /// whose status reports an error goes to the error routes, with the message
    /// of the error attached to it; any other is the answer.
    pub fn on_handler_response<S>(&self, path: &str, response: Response<S>) -> (d: Dispatch<S>)
        ensures
            response.status.spec_is_error() ==> is_error_dispatch(
                d,
                self.errors(),
                path@,
                response.status,
                response.error_message(),
            ),
            !response.status.spec_is_error() ==> d == Dispatch::Respond(response),
    {
        if response.status.is_error() {
            self.handle_error(path, ErrorSource::Response(response))
        } else {
            Dispatch::Respond(response)
        }
    }

    /// Sends an error to the error routes. Where a handler is registered for
    /// its status, or for all, that handler is to be called; else the response
    /// reports the error itself.
    pub fn handle_error<S>(&self, path: &str, source: ErrorSource<S>) -> (d: Dispatch<S>)
        ensures
            is_error_dispatch(d, self.errors(), path@, source.status(), source.message()),
    {
        let error = source.into_error();
        let status = error.status();
        match self.errors.recognize_error(&status) {
            Some(_) => {
                let context = self.create_context(path.to_owned(), Params::new(), Some(error));
                Dispatch::CallErrorHandler { status, context }
            },
            None => Dispatch::Respond(error.into_response()),
        }
    }

    /// An error handler has ended. Its response is the answer. Where it failed,
    /// the answer is status 500 with the description of the failure: this is
    /// the last step, and no error route is asked again.
    pub fn on_error_handler_result<S>(&self, result: Result<Response<S>, HandlerFailure>) -> (r:
        Response<S>)
        ensures
            match result {
                Ok(response) => r == response,
                Err(failure) => is_failure_response(r, failure.description@),
            },
    {
        match result {
            Ok(response) => response,
            Err(failure) => Response::with_status(
                StatusCode(INTERNAL_SERVER_ERROR),
                Body::from_text(failure.description.as_str()),
            ),
        }
    }
}

/// A request whose path matches a route that does not take its method is
/// answered with status 405 at once: no handler is called, and no error route
/// is asked.
pub proof fn law_wrong_method_is_answered_405<H, E, K, S>(
    service: AppService<H, E, K>,
    d: Dispatch<S>,
    method: HttpMethod,
    path: Seq<char>,
)
    requires
        service.is_route_dispatch(d, method, path),
        service.routes().lookup(path) matches Some((index, params))
            && !service.routes().routes()[index as int].spec_method().spec_matches(method),
    ensures
        d is Respond,
        d->Respond_0.status == StatusCode(METHOD_NOT_ALLOWED),
        d->Respond_0.body.bytes().len() == 0,
{
}

/// An error whose status has no error handler, neither of its own nor the
/// fallback, is answered with that status, and with its message as body where
/// it has one.
pub proof fn law_unhandled_error_keeps_status_and_message<E, S>(
    d: Dispatch<S>,
    errors: ErrorRouter<E>,
    path: Seq<char>,
    status: StatusCode,
    message: Option<Seq<char>>,
)
    requires
        is_error_dispatch(d, errors, path, status, message),
        errors.recognize(status) is None,
    ensures
        d is Respond,
        d->Respond_0.status == status,
        message matches Some(text) ==> d->Respond_0.body.bytes() == vstd::utf8::encode_utf8(text),
        message is None ==> d->Respond_0.body.bytes().len() == 0,
{
}

/// An error whose status has an error handler leads to the call of that
/// handler and to nothing else, with the path and the error in its context.
pub proof fn law_handled_error_calls_its_handler<E, S>(
    d: Dispatch<S>,
    errors: ErrorRouter<E>,
    path: Seq<char>,
    status: StatusCode,
    message: Option<Seq<char>>,
)
    requires
        is_error_dispatch(d, errors, path, status, message),
        errors.recognize(status) is Some,
    ensures
        d is CallErrorHandler,
        d->CallErrorHandler_status == status,
        d->CallErrorHandler_context.path@ == path,
        d->CallErrorHandler_context.error is Some,
{
}

/// Whatever the failure of an error handler, the answer has status 500: the
/// chain of error handling ends there.
pub proof fn law_failed_error_handler_ends_in_500<S>(r: Response<S>, description: Seq<char>)
    requires
        is_failure_response(r, description),
    ensures
        r.status == StatusCode(INTERNAL_SERVER_ERROR),
        r.status.spec_is_server_error(),
        r.body.bytes() == vstd::utf8::encode_utf8(description),
{
}

/// A request whose path matches a route that takes its method has the handler
/// of that route called, with the parameters that the route declares and no
/// error: no error handler is asked.
pub proof fn law_matching_route_has_its_handler_called<H, E, K, S>(
    service: AppService<H, E, K>,
    d: Dispatch<S>,
    method: HttpMethod,
    path: Seq<char>,
)
    requires
        service.is_route_dispatch(d, method, path),
        service.routes().lookup(path) matches Some((index, params))
            && service.routes().routes()[index as int].spec_method().spec_matches(method),
    ensures
        d is CallHandler,
        service.routes().lookup(path) == Some(
            (d->CallHandler_route, d->CallHandler_context.params@),
        ),
        d->CallHandler_context.path@ == path,
        d->CallHandler_context.error is None,
        crate::router::param_names(d->CallHandler_context.params@)
            == crate::router::declared_params(
            service.routes().routes()[d->CallHandler_route as int].spec_path(),
        ),
        crate::router::filled(
            service.routes().routes()[d->CallHandler_route as int].spec_path(),
            crate::router::param_values(d->CallHandler_context.params@),
            false,
        ) == path,
{
}

} // verus!
