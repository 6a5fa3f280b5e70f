use hashira::body::Body;
use hashira::error_router::ErrorRouter;
use hashira::method::HttpMethod;
use hashira::response::{Response, ResponseError};
use hashira::router::{
    declared_param_names, has_names, is_instance, occurs_at_most, PatternError, RouteError,
    RouteTable,
};
use hashira::service::{AppService, Dispatch, ErrorSource, HandlerFailure, RoutingError};
use hashira::status::StatusCode;

type Service = AppService<&'static str, &'static str, &'static str>;

fn users_table() -> RouteTable<&'static str> {
    RouteTable::new()
        .insert("/", HttpMethod::get(), "home")
        .unwrap()
        .insert("/users/:id", HttpMethod::get(), "user")
        .unwrap()
        .insert("/posts/:post/comments/:comment", HttpMethod::get() | HttpMethod::post(), "comment")
        .unwrap()
}

fn service(errors: ErrorRouter<&'static str>, hooks: Vec<&'static str>) -> Service {
    AppService::new(users_table(), errors, hooks)
}

fn params_of(d: &Dispatch<()>) -> Vec<(String, String)> {
    match d {
        Dispatch::CallHandler { context, .. } => context.params.entries.clone(),
        other => panic!("no handler call: {:?}", other),
    }
}

#[test]
fn registered_param_route_matches_and_extracts_id() {
    let svc = service(ErrorRouter::new(), vec![]);
    let d: Dispatch<()> = svc.handle(HttpMethod::get(), "/users/42");
    match &d {
        Dispatch::CallHandler { route, context } => {
            assert_eq!(*route, 1);
            assert_eq!(*svc.server_router().route(*route).handler(), "user");
            assert_eq!(context.path(), "/users/42");
            assert_eq!(context.params().get("id").map(|s| s.as_str()), Some("42"));
            assert!(context.error().is_none());
        }
        other => panic!("unexpected: {:?}", other),
    }
    assert_eq!(params_of(&d), vec![("id".to_string(), "42".to_string())]);
}

#[test]
fn params_come_in_declaration_order() {
    let svc = service(ErrorRouter::new(), vec![]);
    let d: Dispatch<()> = svc.handle(HttpMethod::post(), "/posts/7/comments/9");
    assert_eq!(
        params_of(&d),
        vec![
            ("post".to_string(), "7".to_string()),
            ("comment".to_string(), "9".to_string())
        ]
    );
}

#[test]
fn every_registered_static_path_matches() {
    let paths = ["/", "/about", "/about/team", "/contact", "/blog/latest"];
    let mut table: RouteTable<usize> = RouteTable::new();
    for (i, p) in paths.iter().enumerate() {
        table = table.insert(p, HttpMethod::get(), i).unwrap();
    }
    assert_eq!(table.len(), paths.len());
    for (i, p) in paths.iter().enumerate() {
        let found = table.find(p).expect("registered path must match");
        assert_eq!(found.index, i);
        assert_eq!(*table.route(found.index).handler(), i);
        assert_eq!(table.route(found.index).path(), *p);
        assert!(found.params.is_empty());
    }
}

#[test]
fn wrong_method_gives_405_without_handler_or_error_route() {
    let mut errors = ErrorRouter::new();
    errors.fallback("catch-all");
    let svc = service(errors, vec![]);
    let d: Dispatch<()> = svc.handle(HttpMethod::post(), "/users/42");
    match d {
        Dispatch::Respond(r) => {
            assert_eq!(r.status(), StatusCode(405));
            assert!(r.headers.is_empty());
            assert_eq!(r.body.try_as_bytes().unwrap(), &Vec::<u8>::new());
            assert!(r.error.is_none());
        }
        other => panic!("unexpected: {:?}", other),
    }
}

#[test]
fn match_route_tells_wrong_method_from_no_route() {
    let svc = service(ErrorRouter::new(), vec![]);
    assert_eq!(
        svc.match_route(HttpMethod::delete(), "/users/42").unwrap_err(),
        RoutingError::MethodNotAllowed
    );
    assert_eq!(
        svc.match_route(HttpMethod::get(), "/missing").unwrap_err(),
        RoutingError::NotFound
    );
    assert_eq!(RoutingError::NotFound.status(), StatusCode(404));
    assert_eq!(RoutingError::MethodNotAllowed.status(), StatusCode(405));
    let found = svc.match_route(HttpMethod::get(), "/users/7").unwrap();
    assert_eq!(found.index, 1);
}

#[test]
fn missing_path_with_catch_all_goes_to_it_with_404() {
    let mut errors = ErrorRouter::new();
    errors.fallback("catch-all");
    let svc = service(errors, vec![]);
    let d: Dispatch<()> = svc.handle(HttpMethod::get(), "/missing");
    match d {
        Dispatch::CallErrorHandler { status, context } => {
            assert_eq!(status, StatusCode(404));
            assert_eq!(
                svc.error_router().recognize_error(&status).copied(),
                Some("catch-all")
            );
            assert_eq!(context.path(), "/missing");
            assert!(context.params().is_empty());
            let err = context.error().unwrap();
            assert_eq!(err.status(), StatusCode(404));
            assert!(err.message().is_none());
        }
        other => panic!("unexpected: {:?}", other),
    }
    // the catch-all answers 404 with its own body: that is the final response
    let answer: Response<()> =
        Response::with_status(StatusCode(404), Body::from_text("nothing here"));
    let last = svc.on_error_handler_result(Ok(answer));
    assert_eq!(last.status(), StatusCode(404));
    assert_eq!(last.body.try_as_bytes().unwrap().as_slice(), b"nothing here");
}

#[test]
fn missing_path_without_error_route_is_a_bare_404() {
    let svc = service(ErrorRouter::new(), vec![]);
    let d: Dispatch<()> = svc.handle(HttpMethod::get(), "/missing");
    match d {
        Dispatch::Respond(r) => {
            assert_eq!(r.status(), StatusCode(404));
            assert!(r.body.try_as_bytes().unwrap().is_empty());
            assert_eq!(r.error.as_ref().unwrap().status(), StatusCode(404));
        }
        other => panic!("unexpected: {:?}", other),
    }
}

#[test]
fn exact_error_route_goes_before_the_catch_all() {
    let mut errors = ErrorRouter::new();
    errors.fallback("catch-all");
    errors.insert(StatusCode(404), "not-found");
    assert_eq!(errors.recognize_error(&StatusCode(404)).copied(), Some("not-found"));
    assert_eq!(errors.recognize_error(&StatusCode(500)).copied(), Some("catch-all"));
    errors.insert(StatusCode(404), "replaced");
    assert_eq!(errors.recognize_error(&StatusCode(404)).copied(), Some("replaced"));
    let none: ErrorRouter<&'static str> = ErrorRouter::new();
    assert_eq!(none.recognize_error(&StatusCode(404)), None);
}

#[test]
fn handler_error_without_error_route_keeps_status_and_message() {
    let svc = service(ErrorRouter::new(), vec![]);
    for code in [400u16, 403, 404, 418, 499, 500, 503, 599] {
        let failed: Response<()> =
            ResponseError::new(StatusCode(code), Some("it broke".to_string())).into_response();
        match svc.on_handler_response("/users/42", failed) {
            Dispatch::Respond(r) => {
                assert_eq!(r.status(), StatusCode(code));
                assert_eq!(r.body.try_as_bytes().unwrap().as_slice(), b"it broke");
                let e = r.error.unwrap();
                assert_eq!(e.status(), StatusCode(code));
                assert_eq!(e.message().map(|m| m.as_str()), Some("it broke"));
            }
            other => panic!("unexpected: {:?}", other),
        }
    }
}

#[test]
fn handler_error_without_message_gives_an_empty_body() {
    let svc = service(ErrorRouter::new(), vec![]);
    let failed: Response<()> =
        Response::with_status(StatusCode(502), Body::from_text("upstream said no"));
    match svc.on_handler_response("/", failed) {
        Dispatch::Respond(r) => {
            assert_eq!(r.status(), StatusCode(502));
            assert!(r.body.try_as_bytes().unwrap().is_empty());
        }
        other => panic!("unexpected: {:?}", other),
    }
}

#[test]
fn handler_success_is_returned_untouched() {
    let mut errors = ErrorRouter::new();
    errors.fallback("catch-all");
    let svc = service(errors, vec![]);
    for code in [200u16, 201, 204, 301, 304, 399, 600] {
        let ok: Response<()> = Response::with_status(StatusCode(code), Body::from_text("fine"));
        match svc.on_handler_response("/", ok) {
            Dispatch::Respond(r) => {
                assert_eq!(r.status(), StatusCode(code));
                assert_eq!(r.body.try_as_bytes().unwrap().as_slice(), b"fine");
                assert!(r.error.is_none());
            }
            other => panic!("unexpected: {:?}", other),
        }
    }
}

#[test]
fn handler_error_with_error_route_calls_it_with_the_error() {
    let mut errors = ErrorRouter::new();
    errors.insert(StatusCode(500), "on-500");
    let svc = service(errors, vec![]);
    let failed: Response<()> =
        ResponseError::new(StatusCode(500), Some("boom".to_string())).into_response();
    match svc.on_handler_response("/users/42", failed) {
        Dispatch::CallErrorHandler { status, context } => {
            assert_eq!(status, StatusCode(500));
            assert_eq!(context.path(), "/users/42");
            let e = context.error().unwrap();
            assert_eq!(e.message().map(|m| m.as_str()), Some("boom"));
        }
        other => panic!("unexpected: {:?}", other),
    }
}

#[test]
fn failing_error_handler_ends_in_500_with_the_description() {
    let mut errors = ErrorRouter::new();
    errors.insert(StatusCode(500), "on-500");
    let svc = service(errors, vec![]);
    for text in ["disk full", "", "status 404 inside", "né"] {
        let r: Response<()> = svc.on_error_handler_result(Err(HandlerFailure {
            description: text.to_string(),
        }));
        assert_eq!(r.status(), StatusCode(500));
        assert_eq!(r.body.try_as_bytes().unwrap().as_slice(), text.as_bytes());
        assert!(r.error.is_none());
        assert!(r.headers.is_empty());
    }
}

#[test]
fn error_source_takes_status_and_message() {
    let from_response: ErrorSource<()> = ErrorSource::Response(
        ResponseError::new(StatusCode(409), Some("taken".to_string())).into_response(),
    );
    let e = from_response.into_error();
    assert_eq!(e.status(), StatusCode(409));
    assert_eq!(e.message().map(|m| m.as_str()), Some("taken"));
    let plain: ErrorSource<()> =
        ErrorSource::Response(Response::with_status(StatusCode(410), Body::empty()));
    let e = plain.into_error();
    assert_eq!(e.status(), StatusCode(410));
    assert!(e.message().is_none());
    let direct: ErrorSource<()> = ErrorSource::Error(ResponseError::from_status(StatusCode(404)));
    assert_eq!(direct.into_error().status(), StatusCode(404));
}

#[test]
fn trailing_slash_and_space_are_dropped_before_matching() {
    let svc = service(ErrorRouter::new(), vec![]);
    for path in ["/users/42/", "/users/42///", "  /users/42  ", "\t/users/42/\n"] {
        let d: Dispatch<()> = svc.handle(HttpMethod::get(), path);
        match d {
            Dispatch::CallHandler { route, context } => {
                assert_eq!(route, 1);
                assert_eq!(context.path(), "/users/42");
            }
            other => panic!("unexpected for {:?}: {:?}", path, other),
        }
    }
    let root: Dispatch<()> = svc.handle(HttpMethod::get(), "/");
    assert!(matches!(root, Dispatch::CallHandler { route: 0, .. }));
}

#[test]
fn hooks_are_entered_in_registration_order_before_routing() {
    let svc = service(ErrorRouter::new(), vec!["first", "second", "third"]);
    let d: Dispatch<()> = svc.handle(HttpMethod::get(), "/users/42");
    assert!(matches!(d, Dispatch::CallHook { index: 0 }));
    assert_eq!(svc.hooks()[0], "first");
    let d: Dispatch<()> = svc.next(1, HttpMethod::get(), "/users/42");
    assert!(matches!(d, Dispatch::CallHook { index: 1 }));
    let d: Dispatch<()> = svc.next(2, HttpMethod::get(), "/users/42");
    assert!(matches!(d, Dispatch::CallHook { index: 2 }));
    let d: Dispatch<()> = svc.next(3, HttpMethod::get(), "/users/42");
    assert!(matches!(d, Dispatch::CallHandler { route: 1, .. }));
}

#[test]
fn insert_refuses_paths_without_leading_slash() {
    let t: RouteTable<u8> = RouteTable::new();
    assert!(matches!(
        t.insert("users", HttpMethod::get(), 1),
        Err(RouteError::InvalidPath)
    ));
    let t: RouteTable<u8> = RouteTable::new();
    assert!(matches!(t.insert("", HttpMethod::get(), 1), Err(RouteError::InvalidPath)));
}

#[test]
fn insert_refuses_patterns_that_are_not_ascii() {
    // the same pattern twice, beside one that shares its first bytes
    let t: RouteTable<u8> = RouteTable::new();
    assert!(matches!(
        t.insert("/\u{4041}", HttpMethod::get(), 1),
        Err(RouteError::NotAscii)
    ));
    let t: RouteTable<u8> = RouteTable::new().insert("/a", HttpMethod::get(), 1).unwrap();
    assert!(matches!(
        t.insert("/\u{4041}", HttpMethod::get(), 2),
        Err(RouteError::NotAscii)
    ));
    for pattern in ["/\u{4041}", "/\u{4042}", "/\u{4041}", "/é", "/users/:ñ", "/a/*é"] {
        let t: RouteTable<u8> = RouteTable::new();
        assert!(matches!(t.insert(pattern, HttpMethod::get(), 1), Err(RouteError::NotAscii)));
    }
    // a pattern without a leading slash is refused for that, ASCII or not
    let t: RouteTable<u8> = RouteTable::new();
    assert!(matches!(t.insert("é", HttpMethod::get(), 1), Err(RouteError::InvalidPath)));
    // ASCII patterns conflict without harm
    let t: RouteTable<u8> = RouteTable::new()
        .insert("/ab", HttpMethod::get(), 1)
        .unwrap()
        .insert("/ac", HttpMethod::get(), 2)
        .unwrap();
    assert!(matches!(
        t.insert("/ab", HttpMethod::get(), 3),
        Err(RouteError::Pattern(PatternError::Conflict { with })) if with == "/ab"
    ));
    // a path that is not ASCII is still matched by an ASCII pattern
    let t: RouteTable<u8> = RouteTable::new().insert("/users/:id", HttpMethod::get(), 1).unwrap();
    let found = t.find("/users/\u{4041}").unwrap();
    assert_eq!(found.params.get("id").map(|s| s.as_str()), Some("\u{4041}"));
}

#[test]
fn insert_refuses_conflicts_and_bad_patterns() {
    let t: RouteTable<u8> = RouteTable::new().insert("/a/:x", HttpMethod::get(), 1).unwrap();
    match t.insert("/a/:y", HttpMethod::get(), 2) {
        Err(RouteError::Pattern(PatternError::Conflict { with })) => assert_eq!(with, "/a/:x"),
        other => panic!("unexpected: {:?}", other.map(|_| ())),
    }
    let t: RouteTable<u8> = RouteTable::new();
    assert!(matches!(
        t.insert("/a/:x:y", HttpMethod::get(), 1),
        Err(RouteError::Pattern(PatternError::TooManyParams))
    ));
    let t: RouteTable<u8> = RouteTable::new();
    assert!(matches!(
        t.insert("/a/:", HttpMethod::get(), 1),
        Err(RouteError::Pattern(PatternError::UnnamedParam))
    ));
    let t: RouteTable<u8> = RouteTable::new();
    assert!(matches!(
        t.insert("/a/*rest/b", HttpMethod::get(), 1),
        Err(RouteError::Pattern(PatternError::InvalidCatchAll))
    ));
}

#[test]
fn insert_keeps_patterns_with_too_many_params_from_the_router() {
    let mut fits = String::new();
    for i in 0..25 {
        fits.push_str(&format!("/:p{}", i));
    }
    let t: RouteTable<u8> = RouteTable::new();
    let t = t.insert(&fits, HttpMethod::get(), 1).unwrap();
    assert_eq!(t.len(), 1);
    let over = format!("{}/:last", fits);
    let t: RouteTable<u8> = RouteTable::new();
    assert!(matches!(t.insert(&over, HttpMethod::get(), 1), Err(RouteError::ParamLimit)));
}

#[test]
fn catch_all_route_captures_the_rest() {
    let t: RouteTable<u8> = RouteTable::new()
        .insert("/static/*file", HttpMethod::get(), 1)
        .unwrap();
    let found = t.find("/static/css/site.css").unwrap();
    assert_eq!(found.params.get("file").map(|s| s.as_str()), Some("css/site.css"));
    assert!(t.find("/other").is_none());
}

fn pairs(entries: &[(&str, &str)]) -> Vec<(String, String)> {
    entries.iter().map(|(k, v)| (k.to_string(), v.to_string())).collect()
}

#[test]
fn declared_params_are_read_off_the_pattern() {
    assert_eq!(declared_param_names("/users/:id"), vec!["id"]);
    assert_eq!(
        declared_param_names("/posts/:post/comments/:comment"),
        vec!["post", "comment"]
    );
    assert_eq!(declared_param_names("/static/*file"), vec!["file"]);
    assert_eq!(declared_param_names("/user_:name/x"), vec!["name"]);
    assert_eq!(declared_param_names("/"), Vec::<String>::new());
    assert_eq!(declared_param_names("/about/team"), Vec::<String>::new());
    assert_eq!(declared_param_names(""), Vec::<String>::new());
    assert_eq!(declared_param_names("/:"), vec![""]);
    assert_eq!(declared_param_names("/:a/:b/*c"), vec!["a", "b", "c"]);
}

#[test]
fn has_names_compares_names_in_order() {
    let names = |n: &[&str]| n.iter().map(|s| s.to_string()).collect::<Vec<_>>();
    assert!(has_names(&pairs(&[("a", "1"), ("b", "2")]), &names(&["a", "b"])));
    assert!(!has_names(&pairs(&[("b", "2"), ("a", "1")]), &names(&["a", "b"])));
    assert!(!has_names(&pairs(&[("a", "1")]), &names(&["a", "b"])));
    assert!(!has_names(&pairs(&[("a", "1"), ("b", "2")]), &names(&["a"])));
    assert!(has_names(&pairs(&[]), &names(&[])));
}

#[test]
fn a_path_is_an_instance_of_its_pattern_with_the_values_filled_in() {
    assert!(is_instance("/users/:id", &pairs(&[("id", "42")]), "/users/42"));
    assert!(!is_instance("/users/:id", &pairs(&[("id", "42")]), "/users/43"));
    assert!(!is_instance("/users/:id", &pairs(&[("id", "42")]), "/users/42/"));
    assert!(!is_instance("/users/:id", &pairs(&[]), "/users/42"));
    assert!(is_instance(
        "/posts/:post/comments/:comment",
        &pairs(&[("post", "7"), ("comment", "9")]),
        "/posts/7/comments/9"
    ));
    assert!(!is_instance(
        "/posts/:post/comments/:comment",
        &pairs(&[("post", "9"), ("comment", "7")]),
        "/posts/7/comments/9"
    ));
    assert!(is_instance("/static/*file", &pairs(&[("file", "css/site.css")]), "/static/css/site.css"));
    assert!(is_instance("/user_:name/x", &pairs(&[("name", "ann")]), "/user_ann/x"));
    assert!(is_instance("/", &pairs(&[]), "/"));
    assert!(is_instance("/about", &pairs(&[("extra", "x")]), "/about"));
    assert!(!is_instance("/about", &pairs(&[]), "/abouts"));
    assert!(is_instance("/e/:x", &pairs(&[("x", "ñ")]), "/e/ñ"));
}

#[test]
fn every_match_is_an_instance_of_its_route() {
    let table = users_table()
        .insert("/static/*file", HttpMethod::get(), "static")
        .unwrap()
        .insert("/users/me", HttpMethod::get(), "me")
        .unwrap();
    for path in [
        "/",
        "/users/42",
        "/users/me",
        "/users/a%20b",
        "/posts/1/comments/2",
        "/static/a/b/c.js",
        "/users/é",
    ] {
        let found = table.find(path).unwrap();
        let route = table.route(found.index);
        assert!(is_instance(route.path(), &found.params.entries, path), "{}", path);
        assert!(has_names(&found.params.entries, &declared_param_names(route.path())));
    }
    assert_eq!(*table.route(table.find("/users/me").unwrap().index).handler(), "me");
    for path in ["/users", "/users/", "/users/1/2", "/posts/1/comments", "", "users/1", "/static"] {
        assert!(table.find(path).is_none(), "{}", path);
    }
}

#[test]
fn occurs_at_most_counts_a_character() {
    assert!(occurs_at_most("/:a/:b", ':', 2));
    assert!(!occurs_at_most("/:a/:b", ':', 1));
    assert!(occurs_at_most("", ':', 0));
    assert!(occurs_at_most("/a", ':', 0));
    assert!(!occurs_at_most(":", ':', 0));
}
