use hashira::method::{HttpMethod, DELETE, GET, HEAD, OPTIONS, PATCH, POST, PUT, TRACE};
use hashira::params::Params;
use hashira::path::{char_is_whitespace, normalize_path, starts_with_slash};
use hashira::route::Route;
use hashira::status::StatusCode;

#[test]
fn normalize_strips_trailing_slashes_except_root() {
    assert_eq!(normalize_path("/users/42/"), "/users/42");
    assert_eq!(normalize_path("/users/42"), "/users/42");
    assert_eq!(normalize_path("/a/b///"), "/a/b");
    assert_eq!(normalize_path("/"), "/");
    assert_eq!(normalize_path(""), "");
    assert_eq!(normalize_path("//"), "");
    assert_eq!(normalize_path("users/"), "users");
}

#[test]
fn normalize_trims_white_space_first() {
    assert_eq!(normalize_path("  /users/42  "), "/users/42");
    assert_eq!(normalize_path("\t/users/42/\r\n"), "/users/42");
    assert_eq!(normalize_path("   "), "");
    assert_eq!(normalize_path(" / "), "/");
    assert_eq!(normalize_path("\u{3000}/a\u{a0}"), "/a");
    assert_eq!(normalize_path("/a b/"), "/a b");
    assert_eq!(normalize_path("/é/ñ/"), "/é/ñ");
}

#[test]
fn normalize_is_like_trim_then_trim_end_matches() {
    for input in ["/x/", " /x// ", "/", "///", "x", " ", "", "/a /", "\n/a/b/c/\n", "/a/ /"] {
        let mut expected = input.trim();
        if expected.len() > 1 && expected.ends_with('/') {
            expected = expected.trim_end_matches('/');
        }
        assert_eq!(normalize_path(input), expected, "input {:?}", input);
    }
}

#[test]
fn renormalizing_a_normal_path_changes_nothing() {
    for p in ["/", "/users", "/users/42", "/a/b/c", "/a b", "/é"] {
        let once = normalize_path(p);
        assert_eq!(once, p);
        assert_eq!(normalize_path(&once), once);
    }
}

#[test]
fn white_space_is_what_the_standard_library_says() {
    for code in 0u32..=0x10FFFF {
        if let Some(c) = char::from_u32(code) {
            assert_eq!(char_is_whitespace(c), c.is_whitespace(), "U+{:04X}", code);
        }
    }
}

#[test]
fn starts_with_slash_looks_at_the_first_character() {
    assert!(starts_with_slash("/"));
    assert!(starts_with_slash("/a"));
    assert!(!starts_with_slash(""));
    assert!(!starts_with_slash("a/"));
    assert!(!starts_with_slash(" /a"));
}

#[test]
fn method_bits_are_one_per_method() {
    assert_eq!(HttpMethod::get().to_bits(), 0b0000_0001);
    assert_eq!(HttpMethod::post().to_bits(), 0b0000_0010);
    assert_eq!(HttpMethod::put().to_bits(), 0b0000_0100);
    assert_eq!(HttpMethod::patch().to_bits(), 0b0000_1000);
    assert_eq!(HttpMethod::delete().to_bits(), 0b0001_0000);
    assert_eq!(HttpMethod::head().to_bits(), 0b0010_0000);
    assert_eq!(HttpMethod::options().to_bits(), 0b0100_0000);
    assert_eq!(HttpMethod::trace().to_bits(), 0b1000_0000);
    assert_eq!(
        [GET, POST, PUT, PATCH, DELETE, HEAD, OPTIONS, TRACE],
        [1, 2, 4, 8, 16, 32, 64, 128]
    );
}

#[test]
fn methods_match_when_they_share_a_bit() {
    let all = [
        HttpMethod::get(),
        HttpMethod::post(),
        HttpMethod::put(),
        HttpMethod::patch(),
        HttpMethod::delete(),
        HttpMethod::head(),
        HttpMethod::options(),
        HttpMethod::trace(),
    ];
    for (i, a) in all.iter().enumerate() {
        for (j, b) in all.iter().enumerate() {
            assert_eq!(a.matches(b), i == j);
            assert_eq!(a.matches(b), b.matches(a));
        }
    }
    let get_or_post = HttpMethod::get() | HttpMethod::post();
    assert_eq!(get_or_post, HttpMethod(3));
    assert!(get_or_post.matches(&HttpMethod::get()));
    assert!(get_or_post.matches(&HttpMethod::post()));
    assert!(!get_or_post.matches(&HttpMethod::put()));
    assert!(!HttpMethod::from_bits(0).matches(&get_or_post));
}

#[test]
fn method_from_name_knows_the_eight_methods() {
    let known = [
        ("GET", GET),
        ("POST", POST),
        ("PUT", PUT),
        ("PATCH", PATCH),
        ("DELETE", DELETE),
        ("HEAD", HEAD),
        ("OPTIONS", OPTIONS),
        ("TRACE", TRACE),
    ];
    for (name, bits) in known {
        assert_eq!(HttpMethod::from_name(name), Some(HttpMethod(bits)));
    }
    for name in ["CONNECT", "get", "", "GET ", "PROPFIND"] {
        assert_eq!(HttpMethod::from_name(name), None);
    }
}

#[test]
fn method_from_http_method_goes_by_its_name() {
    assert_eq!(HttpMethod::from_method(&http::Method::GET), Some(HttpMethod::get()));
    assert_eq!(HttpMethod::from_method(&http::Method::POST), Some(HttpMethod::post()));
    assert_eq!(HttpMethod::from_method(&http::Method::PUT), Some(HttpMethod::put()));
    assert_eq!(HttpMethod::from_method(&http::Method::PATCH), Some(HttpMethod::patch()));
    assert_eq!(HttpMethod::from_method(&http::Method::DELETE), Some(HttpMethod::delete()));
    assert_eq!(HttpMethod::from_method(&http::Method::HEAD), Some(HttpMethod::head()));
    assert_eq!(HttpMethod::from_method(&http::Method::OPTIONS), Some(HttpMethod::options()));
    assert_eq!(HttpMethod::from_method(&http::Method::TRACE), Some(HttpMethod::trace()));
    assert_eq!(HttpMethod::from_method(&http::Method::CONNECT), None);
    let custom = http::Method::from_bytes(b"PURGE").unwrap();
    assert_eq!(HttpMethod::from_method(&custom), None);
}

#[test]
fn request_with_a_method_outside_the_eight_has_the_empty_set() {
    assert_eq!(HttpMethod::of_request(&http::Method::GET), HttpMethod::get());
    assert_eq!(HttpMethod::of_request(&http::Method::TRACE), HttpMethod::trace());
    let none = HttpMethod::of_request(&http::Method::CONNECT);
    assert_eq!(none, HttpMethod(0));
    for m in [
        HttpMethod::get(),
        HttpMethod::post(),
        HttpMethod::action_default(),
        HttpMethod(0xff),
    ] {
        assert!(!m.matches(&none));
    }
    let custom = http::Method::from_bytes(b"PURGE").unwrap();
    assert_eq!(HttpMethod::of_request(&custom), HttpMethod(0));
}

#[test]
fn action_default_is_the_five_usual_methods() {
    let d = HttpMethod::action_default();
    assert_eq!(d.to_bits(), 0b0001_1111);
    assert!(d.matches(&HttpMethod::delete()));
    assert!(!d.matches(&HttpMethod::head()));
}

#[test]
fn route_constructors_set_path_method_and_handler() {
    let r = Route::new("/users/:id", HttpMethod::get() | HttpMethod::head(), 5u8);
    assert_eq!(r.path(), "/users/:id");
    assert_eq!(r.method(), HttpMethod(GET | HEAD));
    assert_eq!(*r.handler(), 5);
    assert_eq!(Route::post("/p", 1u8).method(), HttpMethod::post());
    assert_eq!(Route::get("/p", 1u8).method(), HttpMethod::get());
    assert_eq!(Route::head("/p", 1u8).method(), HttpMethod::head());
    assert_eq!(Route::put("/p", 1u8).method(), HttpMethod::put());
    assert_eq!(Route::delete("/p", 1u8).method(), HttpMethod::delete());
    assert_eq!(Route::options("/p", 1u8).method(), HttpMethod::options());
    assert_eq!(Route::patch("/p", 1u8).method(), HttpMethod::patch());
    assert_eq!(Route::patch("/p", "h").path(), "/p");
}

#[test]
fn params_get_finds_the_first_value_of_a_name() {
    let p = Params::from_pairs(vec![
        ("a".to_string(), "1".to_string()),
        ("b".to_string(), "2".to_string()),
        ("a".to_string(), "3".to_string()),
    ]);
    assert_eq!(p.len(), 3);
    assert!(!p.is_empty());
    assert_eq!(p.get("a").map(|s| s.as_str()), Some("1"));
    assert_eq!(p.get("b").map(|s| s.as_str()), Some("2"));
    assert_eq!(p.get("c"), None);
    assert!(Params::new().is_empty());
    assert_eq!(Params::new().get("a"), None);
}

#[test]
fn status_ranges() {
    for code in 0u16..=1100 {
        let s = StatusCode::new(code);
        assert_eq!(s.as_u16(), code);
        assert_eq!(s.is_client_error(), (400..500).contains(&code));
        assert_eq!(s.is_server_error(), (500..600).contains(&code));
        assert_eq!(s.is_error(), (400..600).contains(&code));
    }
}

#[test]
fn status_reason_is_the_standard_phrase() {
    assert_eq!(StatusCode(404).canonical_reason().as_deref(), Some("Not Found"));
    assert_eq!(StatusCode(200).canonical_reason().as_deref(), Some("OK"));
    assert_eq!(StatusCode(500).canonical_reason().as_deref(), Some("Internal Server Error"));
    assert_eq!(StatusCode(405).canonical_reason().as_deref(), Some("Method Not Allowed"));
    assert_eq!(StatusCode(99).canonical_reason(), None);
    assert_eq!(StatusCode(1000).canonical_reason(), None);
    assert_eq!(StatusCode(799).canonical_reason(), None);
}
