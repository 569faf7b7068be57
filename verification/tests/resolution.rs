use cors_policy::{
    serde_header_name, serde_method, AllowedHeaders, AllowedMethods, AllowedOrigins, Config,
    ExposeHeaders, HeaderLine, HeaderSet, Preflight, Request, ResponseHeader, SerdeRegexSet, Vary,
};

fn strings(items: &[&str]) -> Vec<String> {
    items.iter().map(|item| item.to_string()).collect()
}

fn names(tokens: &[&str]) -> HeaderSet {
    serde_header_name::deserialize(strings(tokens)).unwrap()
}

fn patterns(sources: &[&str]) -> AllowedOrigins {
    AllowedOrigins::List(SerdeRegexSet::new(strings(sources)).unwrap())
}

fn config(origins: AllowedOrigins) -> Config {
    Config {
        allow_credentials: false,
        allowed_headers: AllowedHeaders::Mirror,
        allowed_methods: AllowedMethods::Mirror,
        allowed_origins: origins,
        allow_private_network: false,
        max_age: None,
        expose_headers: ExposeHeaders::List(HeaderSet::new()),
        vary: Vary(HeaderSet::new()),
    }
}

fn actual(origin: &str) -> Request {
    Request { origin: Some(origin.as_bytes().to_vec()), preflight: None }
}

fn preflight(origin: &str, method: Option<&str>, headers: Option<&str>) -> Request {
    Request {
        origin: Some(origin.as_bytes().to_vec()),
        preflight: Some(Preflight {
            requested_method: method.map(|value| value.as_bytes().to_vec()),
            requested_headers: headers.map(|value| value.as_bytes().to_vec()),
            private_network: false,
        }),
    }
}

fn value(lines: &[HeaderLine], name: ResponseHeader) -> Option<String> {
    let found: Vec<&HeaderLine> = lines.iter().filter(|line| line.name == name).collect();
    assert!(found.len() <= 1);
    found.first().map(|line| String::from_utf8(line.value.clone()).unwrap())
}

fn line(name: ResponseHeader, value: &str) -> HeaderLine {
    HeaderLine { name, value: value.as_bytes().to_vec() }
}

#[test]
fn a_listed_origin_is_allowed_and_repeated() {
    let policy = config(patterns(&["^https://a\\.com$"]));
    let lines = policy.resolve(&actual("https://a.com"));
    assert_eq!(value(&lines, ResponseHeader::AllowOrigin), Some("https://a.com".to_string()));
    let lines = policy.resolve(&actual("https://b.com"));
    assert_eq!(value(&lines, ResponseHeader::AllowOrigin), None);
    assert_eq!(
        policy.allowed_origins.resolve(&Some(b"https://a.com".to_vec())),
        Some(b"https://a.com".to_vec())
    );
    assert_eq!(policy.allowed_origins.resolve(&Some(b"https://b.com".to_vec())), None);
}

#[test]
fn any_pattern_of_the_list_is_enough() {
    let policy = config(patterns(&["https://a\\.com", "https://b\\.com", "https://c\\.com"]));
    for origin in ["https://a.com", "https://b.com", "https://c.com"] {
        assert_eq!(
            policy.allowed_origins.resolve(&Some(origin.as_bytes().to_vec())),
            Some(origin.as_bytes().to_vec())
        );
    }
    assert_eq!(policy.allowed_origins.resolve(&Some(b"https://d.com".to_vec())), None);
}

#[test]
fn a_list_matches_the_whole_origin() {
    let policy = config(patterns(&["https://a\\.com"]));
    assert_eq!(policy.allowed_origins.resolve(&Some(b"https://a.com.evil.test".to_vec())), None);
    assert_eq!(policy.allowed_origins.resolve(&Some(b"xhttps://a.com".to_vec())), None);
    assert_eq!(
        policy.allowed_origins.resolve(&Some(b"https://a.com".to_vec())),
        Some(b"https://a.com".to_vec())
    );
}

#[test]
fn a_list_denies_what_is_no_text_or_absent() {
    let policy = config(patterns(&[".*"]));
    assert_eq!(
        policy.allowed_origins.resolve(&Some(b"anything at all".to_vec())),
        Some(b"anything at all".to_vec())
    );
    assert_eq!(policy.allowed_origins.resolve(&Some(b"with\ttab".to_vec())), Some(b"with\ttab".to_vec()));
    assert_eq!(policy.allowed_origins.resolve(&Some(vec![104, 105, 0xff])), None);
    assert_eq!(policy.allowed_origins.resolve(&Some(vec![104, 105, 0xc3, 0xa9])), None);
    assert_eq!(policy.allowed_origins.resolve(&Some(vec![104, 10, 105])), None);
    assert_eq!(policy.allowed_origins.resolve(&Some(vec![104, 127])), None);
    assert_eq!(policy.allowed_origins.resolve(&None), None);
    let lines = policy.resolve(&Request { origin: Some(vec![0xff]), preflight: None });
    assert_eq!(lines, vec![line(ResponseHeader::Vary, "origin")]);
}

#[test]
fn an_empty_list_denies_every_origin() {
    let policy = config(patterns(&[]));
    assert_eq!(policy.allowed_origins.resolve(&Some(b"https://a.com".to_vec())), None);
    assert_eq!(policy.allowed_origins.resolve(&Some(vec![])), None);
}

#[test]
fn mirror_repeats_the_origin() {
    let policy = config(AllowedOrigins::Mirror);
    let lines = policy.resolve(&actual("https://x.test"));
    assert_eq!(value(&lines, ResponseHeader::AllowOrigin), Some("https://x.test".to_string()));
    assert_eq!(policy.allowed_origins.resolve(&Some(vec![0xff, 0x00])), Some(vec![0xff, 0x00]));
    assert_eq!(policy.allowed_origins.resolve(&None), None);
}

#[test]
fn mirror_repeats_the_requested_headers_and_method() {
    let policy = config(AllowedOrigins::Mirror);
    let lines = policy.resolve(&preflight("https://x.test", Some("PATCH"), Some("x-foo, x-bar")));
    assert_eq!(value(&lines, ResponseHeader::AllowHeaders), Some("x-foo, x-bar".to_string()));
    assert_eq!(value(&lines, ResponseHeader::AllowMethods), Some("PATCH".to_string()));
    assert_eq!(
        AllowedHeaders::Mirror.resolve(&Some(b"X-Anything, not-even/checked".to_vec())),
        Some(b"X-Anything, not-even/checked".to_vec())
    );
    assert_eq!(AllowedMethods::Mirror.resolve(&Some(b"brew".to_vec())), Some(b"brew".to_vec()));
}

#[test]
fn mirror_of_nothing_is_nothing() {
    assert_eq!(AllowedHeaders::Mirror.resolve(&None), None);
    assert_eq!(AllowedHeaders::Mirror.resolve(&Some(vec![])), None);
    assert_eq!(AllowedMethods::Mirror.resolve(&None), None);
    assert_eq!(AllowedMethods::Mirror.resolve(&Some(vec![])), None);
    let policy = config(AllowedOrigins::Mirror);
    let lines = policy.resolve(&preflight("https://x.test", None, Some("")));
    assert_eq!(value(&lines, ResponseHeader::AllowHeaders), None);
    assert_eq!(value(&lines, ResponseHeader::AllowMethods), None);
}

#[test]
fn any_is_the_wildcard_whatever_is_asked() {
    assert_eq!(AllowedOrigins::Any.resolve(&Some(b"https://a.com".to_vec())), Some(b"*".to_vec()));
    assert_eq!(AllowedOrigins::Any.resolve(&Some(vec![0xff])), Some(b"*".to_vec()));
    assert_eq!(AllowedOrigins::Any.resolve(&None), Some(b"*".to_vec()));
    assert_eq!(AllowedHeaders::Any.resolve(&Some(b"x-foo".to_vec())), Some(b"*".to_vec()));
    assert_eq!(AllowedHeaders::Any.resolve(&None), Some(b"*".to_vec()));
    assert_eq!(ExposeHeaders::Any.resolve(), Some(b"*".to_vec()));
}

#[test]
fn any_expose_headers_is_the_wildcard_for_every_request() {
    let mut policy = config(AllowedOrigins::Mirror);
    policy.expose_headers = ExposeHeaders::Any;
    for origin in ["https://a.com", "https://b.com", "null"] {
        let lines = policy.resolve(&actual(origin));
        assert_eq!(value(&lines, ResponseHeader::ExposeHeaders), Some("*".to_string()));
    }
}

#[test]
fn a_list_is_given_whole_whatever_is_asked() {
    let headers = AllowedHeaders::List(names(&["Content-Type", "X-Foo", "content-type"]));
    assert_eq!(headers.resolve(&Some(b"x-other".to_vec())), Some(b"content-type,x-foo".to_vec()));
    assert_eq!(headers.resolve(&None), Some(b"content-type,x-foo".to_vec()));
    let methods =
        AllowedMethods::List(serde_method::deserialize(strings(&["GET", "POST", "GET"])).unwrap());
    assert_eq!(methods.resolve(&Some(b"DELETE".to_vec())), Some(b"GET,POST".to_vec()));
    assert_eq!(methods.resolve(&None), Some(b"GET,POST".to_vec()));
    let exposed = ExposeHeaders::List(names(&["ETag", "x-request-id", "etag"]));
    assert_eq!(exposed.resolve(), Some(b"etag,x-request-id".to_vec()));
    let single = ExposeHeaders::List(names(&["ETag"]));
    assert_eq!(single.resolve(), Some(b"etag".to_vec()));
}

#[test]
fn an_empty_list_gives_no_header() {
    assert_eq!(AllowedHeaders::List(HeaderSet::new()).resolve(&Some(b"x-foo".to_vec())), None);
    assert_eq!(
        AllowedMethods::List(serde_method::deserialize(vec![]).unwrap())
            .resolve(&Some(b"GET".to_vec())),
        None
    );
    assert_eq!(ExposeHeaders::List(HeaderSet::new()).resolve(), None);
}

#[test]
fn vary_holds_origin_under_list_and_mirror() {
    let listed = config(patterns(&["https://a\\.com"]));
    assert_eq!(serde_header_name::serialize(&listed.vary_names()), strings(&["origin"]));
    assert_eq!(listed.vary_value(), Some(b"origin".to_vec()));
    for request in [actual("https://a.com"), actual("https://b.com"), preflight("https://a.com", None, None)] {
        assert_eq!(value(&listed.resolve(&request), ResponseHeader::Vary), Some("origin".to_string()));
    }
    let mirrored = config(AllowedOrigins::Mirror);
    assert_eq!(mirrored.vary_value(), Some(b"origin".to_vec()));
    assert_eq!(
        value(&mirrored.resolve(&Request { origin: None, preflight: None }), ResponseHeader::Vary),
        Some("origin".to_string())
    );
}

#[test]
fn vary_is_absent_under_any_with_no_names() {
    let policy = config(AllowedOrigins::Any);
    assert!(policy.vary_names().is_empty());
    assert_eq!(policy.vary_value(), None);
    assert_eq!(value(&policy.resolve(&actual("https://a.com")), ResponseHeader::Vary), None);
    assert_eq!(
        policy.resolve(&actual("https://a.com")),
        vec![line(ResponseHeader::AllowOrigin, "*")]
    );
}

#[test]
fn vary_keeps_the_names_of_the_policy_in_order_and_once() {
    let mut policy = config(AllowedOrigins::Mirror);
    policy.vary = Vary(names(&["Accept-Encoding", "Accept"]));
    assert_eq!(policy.vary_value(), Some(b"accept-encoding, accept, origin".to_vec()));
    policy.vary = Vary(names(&["Accept", "Origin", "Cookie"]));
    assert_eq!(policy.vary_value(), Some(b"accept, origin, cookie".to_vec()));
    policy.allowed_origins = AllowedOrigins::Any;
    assert_eq!(policy.vary_value(), Some(b"accept, origin, cookie".to_vec()));
    policy.vary = Vary(names(&["Accept"]));
    assert_eq!(policy.vary_value(), Some(b"accept".to_vec()));
}

#[test]
fn credentials_are_true_or_absent() {
    let mut policy = config(AllowedOrigins::Mirror);
    policy.allow_credentials = true;
    for request in [actual("https://a.com"), preflight("https://a.com", None, None)] {
        assert_eq!(
            value(&policy.resolve(&request), ResponseHeader::AllowCredentials),
            Some("true".to_string())
        );
    }
    policy.allow_credentials = false;
    for request in [actual("https://a.com"), preflight("https://a.com", None, None)] {
        assert_eq!(value(&policy.resolve(&request), ResponseHeader::AllowCredentials), None);
    }
}

#[test]
fn max_age_is_a_number_of_seconds() {
    let mut policy = config(AllowedOrigins::Mirror);
    policy.max_age = Some(3661);
    assert_eq!(policy.max_age_value(), Some(b"3661".to_vec()));
    let lines = policy.resolve(&preflight("https://a.com", Some("GET"), None));
    assert_eq!(value(&lines, ResponseHeader::MaxAge), Some("3661".to_string()));
    let lines = policy.resolve(&actual("https://a.com"));
    assert_eq!(value(&lines, ResponseHeader::MaxAge), None);
    policy.max_age = Some(0);
    assert_eq!(policy.max_age_value(), Some(b"0".to_vec()));
    policy.max_age = Some(u64::MAX);
    assert_eq!(policy.max_age_value(), Some(b"18446744073709551615".to_vec()));
    policy.max_age = None;
    assert_eq!(policy.max_age_value(), None);
}

#[test]
fn the_private_network_is_opened_only_on_request() {
    let mut policy = config(AllowedOrigins::Mirror);
    policy.allow_private_network = true;
    let mut request = preflight("https://a.com", Some("GET"), None);
    assert_eq!(value(&policy.resolve(&request), ResponseHeader::AllowPrivateNetwork), None);
    request.preflight.as_mut().unwrap().private_network = true;
    assert_eq!(
        value(&policy.resolve(&request), ResponseHeader::AllowPrivateNetwork),
        Some("true".to_string())
    );
    policy.allow_private_network = false;
    assert_eq!(value(&policy.resolve(&request), ResponseHeader::AllowPrivateNetwork), None);
}

#[test]
fn a_preflight_gets_its_headers_in_order() {
    let policy = Config {
        allow_credentials: true,
        allowed_headers: AllowedHeaders::List(names(&["X-Foo", "X-Bar"])),
        allowed_methods: AllowedMethods::List(
            serde_method::deserialize(strings(&["GET", "PUT"])).unwrap(),
        ),
        allowed_origins: patterns(&["https://[a-z]+\\.example"]),
        allow_private_network: true,
        max_age: Some(600),
        expose_headers: ExposeHeaders::Any,
        vary: Vary(names(&["accept"])),
    };
    let mut request = preflight("https://app.example", Some("PUT"), Some("x-foo"));
    request.preflight.as_mut().unwrap().private_network = true;
    assert_eq!(
        policy.resolve(&request),
        vec![
            line(ResponseHeader::AllowOrigin, "https://app.example"),
            line(ResponseHeader::AllowCredentials, "true"),
            line(ResponseHeader::AllowMethods, "GET,PUT"),
            line(ResponseHeader::AllowHeaders, "x-foo,x-bar"),
            line(ResponseHeader::MaxAge, "600"),
            line(ResponseHeader::AllowPrivateNetwork, "true"),
            line(ResponseHeader::Vary, "accept, origin"),
        ]
    );
    assert_eq!(
        policy.resolve(&actual("https://app.example")),
        vec![
            line(ResponseHeader::AllowOrigin, "https://app.example"),
            line(ResponseHeader::AllowCredentials, "true"),
            line(ResponseHeader::ExposeHeaders, "*"),
            line(ResponseHeader::Vary, "accept, origin"),
        ]
    );
    assert_eq!(
        policy.resolve(&preflight("https://APP.example", Some("PUT"), Some("x-foo"))),
        vec![line(ResponseHeader::Vary, "accept, origin")]
    );
}

#[test]
fn resolving_twice_gives_the_same_bytes() {
    let policy = Config {
        allow_credentials: true,
        allowed_headers: AllowedHeaders::List(names(&["X-Foo", "X-Bar"])),
        allowed_methods: AllowedMethods::Mirror,
        allowed_origins: patterns(&["https://a\\.com", "https://b\\.com"]),
        allow_private_network: true,
        max_age: Some(5),
        expose_headers: ExposeHeaders::List(names(&["etag"])),
        vary: Vary(names(&["accept"])),
    };
    let copy = policy.clone();
    for request in [
        actual("https://a.com"),
        actual("https://c.com"),
        preflight("https://b.com", Some("GET"), Some("x-foo")),
        Request { origin: None, preflight: None },
    ] {
        let first = policy.resolve(&request);
        let second = policy.resolve(&request);
        assert_eq!(first, second);
        assert_eq!(copy.resolve(&request.clone()), first);
    }
}

#[test]
fn response_headers_have_their_names() {
    assert_eq!(ResponseHeader::AllowOrigin.name(), "access-control-allow-origin");
    assert_eq!(ResponseHeader::AllowCredentials.name(), "access-control-allow-credentials");
    assert_eq!(ResponseHeader::AllowMethods.name(), "access-control-allow-methods");
    assert_eq!(ResponseHeader::AllowHeaders.name(), "access-control-allow-headers");
    assert_eq!(ResponseHeader::MaxAge.name(), "access-control-max-age");
    assert_eq!(
        ResponseHeader::AllowPrivateNetwork.name(),
        "access-control-allow-private-network"
    );
    assert_eq!(ResponseHeader::ExposeHeaders.name(), "access-control-expose-headers");
    assert_eq!(ResponseHeader::Vary.name(), "vary");
}

#[test]
fn credentials_beside_a_wildcard_are_told() {
    let mut policy = config(AllowedOrigins::Any);
    assert!(!policy.credentials_meet_wildcard());
    policy.allow_credentials = true;
    assert!(policy.credentials_meet_wildcard());
    policy.allowed_origins = AllowedOrigins::Mirror;
    assert!(!policy.credentials_meet_wildcard());
    policy.allowed_headers = AllowedHeaders::Any;
    assert!(policy.credentials_meet_wildcard());
    policy.allowed_headers = AllowedHeaders::Mirror;
    policy.expose_headers = ExposeHeaders::Any;
    assert!(policy.credentials_meet_wildcard());
    assert_eq!(
        policy.resolve(&actual("https://a.com")),
        vec![
            line(ResponseHeader::AllowOrigin, "https://a.com"),
            line(ResponseHeader::AllowCredentials, "true"),
            line(ResponseHeader::ExposeHeaders, "*"),
            line(ResponseHeader::Vary, "origin"),
        ]
    );
}

#[test]
fn the_default_vary_holds_no_name() {
    assert!(Vary::default().0.is_empty());
}
