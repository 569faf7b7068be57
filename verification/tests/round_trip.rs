use cors_policy::{
    AllowedHeaders, AllowedMethods, AllowedOrigins, Config, Document, ExposeDocument,
    ExposeHeaders, HeadersDocument, MethodsDocument, OriginsDocument, Vary,
};
use serde_yaml::{Mapping, Value};

fn key(name: &str) -> Value {
    Value::String(name.to_string())
}

fn strings(items: &[String]) -> Value {
    Value::Sequence(items.iter().map(|item| Value::String(item.clone())).collect())
}

fn rule(tag: Option<&str>, list: Option<&Vec<String>>) -> Value {
    match (tag, list) {
        (Some(tag), _) => Value::String(tag.to_string()),
        (None, Some(list)) => strings(list),
        (None, None) => unreachable!(),
    }
}

fn list_of(value: &Value) -> Vec<String> {
    value
        .as_sequence()
        .unwrap()
        .iter()
        .map(|item| item.as_str().unwrap().to_string())
        .collect()
}

fn to_yaml(document: &Document) -> Value {
    let mut map = Mapping::new();
    if let Some(flag) = document.allow_credentials {
        map.insert(key("allow-credentials"), Value::Bool(flag));
    }
    let headers = match &document.allowed_headers {
        HeadersDocument::List(list) => Some(list),
        _ => None,
    };
    map.insert(key("allowed-headers"), rule(document.allowed_headers.tag(), headers));
    let methods = match &document.allowed_methods {
        MethodsDocument::List(list) => Some(list),
        _ => None,
    };
    map.insert(key("allowed-methods"), rule(document.allowed_methods.tag(), methods));
    let origins = match &document.allowed_origins {
        OriginsDocument::List(list) => Some(list),
        _ => None,
    };
    map.insert(key("allowed-origins"), rule(document.allowed_origins.tag(), origins));
    if let Some(flag) = document.allow_private_network {
        map.insert(key("allow-private-network"), Value::Bool(flag));
    }
    if let Some(text) = &document.max_age {
        map.insert(key("max-age"), Value::String(text.clone()));
    }
    let exposed = match &document.expose_headers {
        ExposeDocument::List(list) => Some(list),
        _ => None,
    };
    map.insert(key("expose-headers"), rule(document.expose_headers.tag(), exposed));
    if let Some(list) = &document.vary {
        map.insert(key("vary"), strings(list));
    }
    Value::Mapping(map)
}

fn from_yaml(value: &Value) -> Document {
    let map = value.as_mapping().unwrap();
    let field = |name: &str| map.get(&key(name));
    let headers = field("allowed-headers").unwrap();
    let methods = field("allowed-methods").unwrap();
    let origins = field("allowed-origins").unwrap();
    let exposed = field("expose-headers").unwrap();
    Document {
        allow_credentials: field("allow-credentials").map(|flag| flag.as_bool().unwrap()),
        allowed_headers: match headers.as_str() {
            Some(tag) => HeadersDocument::from_tag(tag).unwrap(),
            None => HeadersDocument::List(list_of(headers)),
        },
        allowed_methods: match methods.as_str() {
            Some(tag) => MethodsDocument::from_tag(tag).unwrap(),
            None => MethodsDocument::List(list_of(methods)),
        },
        allowed_origins: match origins.as_str() {
            Some(tag) => OriginsDocument::from_tag(tag).unwrap(),
            None => OriginsDocument::List(list_of(origins)),
        },
        allow_private_network: field("allow-private-network").map(|flag| flag.as_bool().unwrap()),
        max_age: field("max-age").map(|text| text.as_str().unwrap().to_string()),
        expose_headers: match exposed.as_str() {
            Some(tag) => ExposeDocument::from_tag(tag).unwrap(),
            None => ExposeDocument::List(list_of(exposed)),
        },
        vary: field("vary").map(list_of),
    }
}

fn names(tokens: &[&str]) -> cors_policy::HeaderSet {
    cors_policy::serde_header_name::deserialize(
        tokens.iter().map(|token| token.to_string()).collect(),
    )
    .unwrap()
}

#[test]
fn test_roundtrip() {
    let config = Config {
        allow_credentials: true,
        allowed_headers: AllowedHeaders::List(names(&["connection", "authorization"])),
        allowed_methods: AllowedMethods::Mirror,
        allowed_origins: AllowedOrigins::Any,
        allow_private_network: true,
        max_age: Some(3600),
        expose_headers: ExposeHeaders::Any,
        vary: Vary(names(&["origin"])),
    };
    let serialized = serde_yaml::to_string(&to_yaml(&config.to_document())).unwrap();
    let value: Value = serde_yaml::from_str(&serialized).unwrap();
    let deserialized = Config::from_document(from_yaml(&value)).unwrap();
    assert_eq!(config.allow_credentials, deserialized.allow_credentials);
    assert_eq!(config.allowed_headers, deserialized.allowed_headers);
    assert_eq!(config.allowed_methods, deserialized.allowed_methods);
    assert_eq!(
        config.allow_private_network,
        deserialized.allow_private_network
    );
    assert_eq!(config.max_age, deserialized.max_age);
    assert_eq!(config.expose_headers, deserialized.expose_headers);
    assert_eq!(config.vary, deserialized.vary);
}

#[test]
fn round_trip_keeps_every_rule_and_its_order() {
    let document = Document {
        allow_credentials: Some(false),
        allowed_headers: HeadersDocument::List(vec!["X-Foo".to_string(), "x-bar".to_string()]),
        allowed_methods: MethodsDocument::List(vec!["POST".to_string(), "GET".to_string()]),
        allowed_origins: OriginsDocument::List(vec![
            "https://a\\.com".to_string(),
            "https://.*\\.b\\.com".to_string(),
        ]),
        allow_private_network: Some(true),
        max_age: Some("1h 1m 1s".to_string()),
        expose_headers: ExposeDocument::List(vec!["etag".to_string()]),
        vary: Some(vec!["accept".to_string()]),
    };
    let config = Config::from_document(document).unwrap();
    let written = config.to_document();
    assert_eq!(
        written.allowed_headers,
        HeadersDocument::List(vec!["x-foo".to_string(), "x-bar".to_string()])
    );
    assert_eq!(
        written.allowed_methods,
        MethodsDocument::List(vec!["POST".to_string(), "GET".to_string()])
    );
    assert_eq!(
        written.allowed_origins,
        OriginsDocument::List(vec![
            "https://a\\.com".to_string(),
            "https://.*\\.b\\.com".to_string(),
        ])
    );
    assert_eq!(written.max_age, Some("3661s".to_string()));
    assert_eq!(written.allow_credentials, Some(false));
    assert_eq!(written.allow_private_network, Some(true));
    assert_eq!(written.vary, Some(vec!["accept".to_string()]));

    let text = serde_yaml::to_string(&to_yaml(&written)).unwrap();
    let value: Value = serde_yaml::from_str(&text).unwrap();
    let again = Config::from_document(from_yaml(&value)).unwrap();
    assert_eq!(again.to_document(), written);
    assert_eq!(again.allowed_headers, config.allowed_headers);
    assert_eq!(again.allowed_methods, config.allowed_methods);
    assert_eq!(again.expose_headers, config.expose_headers);
    assert_eq!(again.vary, config.vary);
    assert_eq!(again.max_age, Some(3661));
    match (&again.allowed_origins, &config.allowed_origins) {
        (AllowedOrigins::List(a), AllowedOrigins::List(b)) => {
            assert_eq!(a.patterns(), b.patterns())
        }
        _ => panic!("a list was written and a list must come back"),
    }
}

#[test]
fn absent_fields_take_their_defaults() {
    let text = "allowed-headers: any\nallowed-methods: mirror\nallowed-origins: mirror\nexpose-headers: any\n";
    let value: Value = serde_yaml::from_str(text).unwrap();
    let config = Config::from_document(from_yaml(&value)).unwrap();
    assert!(!config.allow_credentials);
    assert!(!config.allow_private_network);
    assert_eq!(config.max_age, None);
    assert!(config.vary.0.is_empty());
    assert_eq!(config.allowed_headers, AllowedHeaders::Any);
    assert_eq!(config.allowed_methods, AllowedMethods::Mirror);
    assert!(matches!(config.allowed_origins, AllowedOrigins::Mirror));
    assert_eq!(config.expose_headers, ExposeHeaders::Any);
}

#[test]
fn tags_are_any_and_mirror() {
    assert_eq!(OriginsDocument::from_tag("any"), Some(OriginsDocument::Any));
    assert_eq!(OriginsDocument::from_tag("mirror"), Some(OriginsDocument::Mirror));
    assert_eq!(OriginsDocument::from_tag("Any"), None);
    assert_eq!(HeadersDocument::from_tag("any"), Some(HeadersDocument::Any));
    assert_eq!(HeadersDocument::from_tag("mirror"), Some(HeadersDocument::Mirror));
    assert_eq!(HeadersDocument::from_tag(""), None);
    assert_eq!(MethodsDocument::from_tag("mirror"), Some(MethodsDocument::Mirror));
    assert_eq!(MethodsDocument::from_tag("any"), None);
    assert_eq!(ExposeDocument::from_tag("any"), Some(ExposeDocument::Any));
    assert_eq!(ExposeDocument::from_tag("mirror"), None);
    assert_eq!(OriginsDocument::Any.tag(), Some("any"));
    assert_eq!(OriginsDocument::Mirror.tag(), Some("mirror"));
    assert_eq!(OriginsDocument::List(vec![]).tag(), None);
    assert_eq!(HeadersDocument::Any.tag(), Some("any"));
    assert_eq!(HeadersDocument::Mirror.tag(), Some("mirror"));
    assert_eq!(MethodsDocument::Mirror.tag(), Some("mirror"));
    assert_eq!(MethodsDocument::List(vec![]).tag(), None);
    assert_eq!(ExposeDocument::Any.tag(), Some("any"));
    assert_eq!(ExposeDocument::List(vec![]).tag(), None);
}
