use zetro::json::JsonValue;
use zetro::routes::{RouteKind, ZetroRoute};

fn jstr(text: &str) -> JsonValue {
    JsonValue::Str(String::from(text))
}

fn jobj(pairs: Vec<(&str, JsonValue)>) -> JsonValue {
    JsonValue::Object(pairs.into_iter().map(|(k, v)| (String::from(k), v)).collect())
}

fn sample_route(name: &str) -> ZetroRoute {
    ZetroRoute::from_value(
        String::from(name),
        &jobj(vec![
            ("kind", jstr("query")),
            ("description", jstr("a sample route")),
            ("request", jstr("string")),
            ("response", jstr("string")),
        ]),
    )
    .unwrap()
}

/// The token of a route name is deterministic: the same name always yields
/// the same 27 characters, across runs and platforms.
#[test]
fn token_determinism() {
    let a = sample_route("getRooms");
    let b = sample_route("getRooms");
    let token_a = a.encrypt_route_name();
    let token_b = b.encrypt_route_name();
    assert_eq!(token_a, token_b);
    assert_eq!(token_a.chars().count(), 27);
    // HMAC-SHA1 under the key `zetro`, base64 URL-safe without padding
    assert_eq!(token_a, "FmQd_fivoubE3NEPSaehrICGq0U");
    assert_eq!(
        sample_route("sendMessage").encrypt_route_name(),
        "voVEASjApcOdtaMg-fvfcMXoLBg"
    );
}

/// The token is drawn from the URL-safe base64 alphabet and differs from
/// the route name it was derived from.
#[test]
fn token_alphabet() {
    let route = sample_route("sendMessage");
    let token = route.encrypt_route_name();
    assert_eq!(token.len(), 27);
    for c in token.chars() {
        assert!(
            c.is_ascii_alphanumeric() || c == '-' || c == '_',
            "unexpected token character"
        );
    }
    assert_ne!(token, "sendMessage");

    let other = sample_route("getRooms").encrypt_route_name();
    assert_ne!(token, other);
}

/// The wire method codes select queries with 1 and mutations with 2.
#[test]
fn method_codes() {
    assert_eq!(RouteKind::Query.to_method_code(), 1);
    assert_eq!(RouteKind::Mutation.to_method_code(), 2);

    let q = RouteKind::from_value(String::from("r"), &jstr("query")).unwrap();
    assert!(matches!(q, RouteKind::Query));
    let m = RouteKind::from_value(String::from("r"), &jstr("mutation")).unwrap();
    assert!(matches!(m, RouteKind::Mutation));
    assert!(RouteKind::from_value(String::from("r"), &jstr("fetch")).is_err());
    assert!(RouteKind::from_value(String::from("r"), &JsonValue::Bool(true)).is_err());
}

/// A route body may not be a nested object.
#[test]
fn reject_nested_route_body() {
    let err = ZetroRoute::from_value(
        String::from("getRooms"),
        &jobj(vec![
            ("kind", jstr("query")),
            ("description", jstr("a route")),
            (
                "request",
                jobj(vec![
                    ("description", jstr("inline")),
                    ("fields", jobj(vec![])),
                ]),
            ),
            ("response", jstr("string")),
        ]),
    )
    .err()
    .expect("expected an error");
    match &err.kind {
        zetro::errors::ErrorKind::BadFieldValue(field, expected) => {
            assert_eq!(field, "request");
            assert_eq!(expected, "not a nested object");
        }
        _ => panic!("expected a bad field value error"),
    }
}
