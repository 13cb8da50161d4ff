//! Schema routes: named remote procedures, either queries (reads) or
//! mutations (writes), each with a typed request and response body. On the
//! wire a route is identified by an opaque token derived from its name.

use vstd::prelude::*;
use vstd::string::*;
use crate::errors::{ErrorKind, ErrorKindView, Offender, OffenderView, SchemaError, SchemaErrorView};
use crate::fields::{parse_field, FieldKind, FieldKindView, FieldView, ZetroField};
use crate::json::{jps_view, lemma_jps_view, JsonValue, JsonView, MemberView};
use crate::text::str_eq;

verus! {

/// Whether a route reads or writes.
#[derive(Debug, Clone, PartialEq, Eq, Structural)]
pub enum RouteKind {
    /// No content is changed by the call, e.g. fetching a list of videos.
    Query,
    /// Content is created, updated or deleted, e.g. liking a video.
    Mutation,
}

/// One API route.
#[derive(Debug)]
pub struct ZetroRoute {
    pub kind: RouteKind,
    pub name: String,
    pub description: String,
    pub request_body: ZetroField,
    pub response_body: ZetroField,
}

/// Mathematical mirror of `ZetroRoute`.
pub struct RouteView {
    pub kind: RouteKind,
    pub name: Seq<char>,
    pub description: Seq<char>,
    pub request_body: FieldView,
    pub response_body: FieldView,
}

impl View for ZetroRoute {
    type V = RouteView;

    open spec fn view(&self) -> RouteView {
        RouteView {
            kind: self.kind,
            name: self.name@,
            description: self.description@,
            request_body: self.request_body@,
            response_body: self.response_body@,
        }
    }
}

/// The mirror of a route parse's outcome.
pub open spec fn route_result_view(r: Result<ZetroRoute, SchemaError>)
    -> Result<RouteView, SchemaErrorView>
{
    match r {
        Result::Ok(rt) => Result::Ok(rt@),
        Result::Err(e) => Result::Err(e@),
    }
}

/// The member of `members` named `key`, the last one when several carry the
/// name, as a keyed JSON object hands its members out.
pub open spec fn lookup_member(members: Seq<MemberView>, key: Seq<char>) -> Option<JsonView>
    decreases members.len(),
{
    if members.len() == 0 {
        Option::None
    } else if members.last().0 == key {
        Option::Some(members.last().1)
    } else {
        lookup_member(members.drop_last(), key)
    }
}

/// Exact mirror of `lookup_member` on a member vector.
pub fn lookup_value<'a>(members: &'a Vec<(String, JsonValue)>, key: &str)
    -> (r: Option<&'a JsonValue>)
    ensures
        match r {
            Option::None => lookup_member(jps_view(members@), key@) is None,
            Option::Some(q) => lookup_member(jps_view(members@), key@)
                == Option::Some(jv_view_of(q)),
        },
{
    proof {
        lemma_jps_view(members@);
    }
    let ghost mv = jps_view(members@);
    let mut i: usize = members.len();
    assert(mv.take(members@.len() as int) =~= mv);
    while i > 0
        invariant
            i <= members.len(),
            mv == jps_view(members@),
            mv.len() == members@.len(),
            forall|k: int| 0 <= k < mv.len() ==> mv[k]
                == (members@[k].0@, crate::json::jv_view(members@[k].1)),
            lookup_member(mv, key@) == lookup_member(mv.take(i as int), key@),
        decreases i,
    {
        proof {
            assert(mv.take(i as int).last() == mv[i - 1]);
            assert(mv.take(i as int).drop_last() =~= mv.take(i - 1));
        }
        let p = &members[i - 1];
        if str_eq(p.0.as_str(), key) {
            return Option::Some(&p.1);
        }
        i -= 1;
    }
    proof {
        assert(mv.take(0) =~= Seq::<MemberView>::empty());
    }
    Option::None
}

/// View of a borrowed value.
pub open spec fn jv_view_of(q: &JsonValue) -> JsonView {
    crate::json::jv_view(*q)
}

/// What parsing the `kind` member yields: the string `query` or `mutation`.
pub open spec fn parse_route_kind(route_name: Seq<char>, v: JsonView)
    -> Result<RouteKind, SchemaErrorView>
{
    match v {
        JsonView::Str(s) => {
            if s == "query"@ {
                Result::Ok(RouteKind::Query)
            } else if s == "mutation"@ {
                Result::Ok(RouteKind::Mutation)
            } else {
                Result::Err(SchemaErrorView {
                    kind: ErrorKindView::BadFieldValue(
                        "kind"@,
                        "one of 'query' or 'mutation'"@,
                    ),
                    offender: OffenderView::Field(route_name, "kind"@),
                })
            }
        },
        _ => Result::Err(SchemaErrorView {
            kind: ErrorKindView::BadFieldValue("kind"@, "a string"@),
            offender: OffenderView::Field(route_name, "kind"@),
        }),
    }
}

/// What parsing one route yields: `kind`, `description`, `request` and
/// `response` members are mandatory; neither body may be a nested object.
pub open spec fn parse_route(route_name: Seq<char>, v: JsonView)
    -> Result<RouteView, SchemaErrorView>
{
    match v {
        JsonView::Object(members) => match lookup_member(members, "kind"@) {
            Option::None => Result::Err(SchemaErrorView {
                kind: ErrorKindView::MissingField("kind"@),
                offender: OffenderView::Route(route_name),
            }),
            Option::Some(kv) => match parse_route_kind(route_name, kv) {
                Result::Err(e) => Result::Err(e),
                Result::Ok(kind) => match lookup_member(members, "description"@) {
                    Option::None => Result::Err(SchemaErrorView {
                        kind: ErrorKindView::MissingField("description"@),
                        offender: OffenderView::Route(route_name),
                    }),
                    Option::Some(dv) => match dv {
                        JsonView::Str(d) => match lookup_member(members, "request"@) {
                            Option::None => Result::Err(SchemaErrorView {
                                kind: ErrorKindView::MissingField("request"@),
                                offender: OffenderView::Route(route_name),
                            }),
                            Option::Some(rv) => match parse_field(route_name, "request"@, rv) {
                                Result::Err(e) => Result::Err(e),
                                Result::Ok(req) => {
                                    if req.kind is NestedObject {
                                        Result::Err(SchemaErrorView {
                                            kind: ErrorKindView::BadFieldValue(
                                                "request"@,
                                                "not a nested object"@,
                                            ),
                                            offender: OffenderView::Route(route_name),
                                        })
                                    } else {
                                        match lookup_member(members, "response"@) {
                                            Option::None => Result::Err(SchemaErrorView {
                                                kind: ErrorKindView::MissingField("response"@),
                                                offender: OffenderView::Route(route_name),
                                            }),
                                            Option::Some(sv) => match parse_field(
                                                route_name,
                                                "response"@,
                                                sv,
                                            ) {
                                                Result::Err(e) => Result::Err(e),
                                                Result::Ok(resp) => {
                                                    if resp.kind is NestedObject {
                                                        Result::Err(SchemaErrorView {
                                                            kind: ErrorKindView::BadFieldValue(
                                                                "response"@,
                                                                "not a nested object"@,
                                                            ),
                                                            offender: OffenderView::Route(
                                                                route_name,
                                                            ),
                                                        })
                                                    } else {
                                                        Result::Ok(RouteView {
                                                            name: route_name,
                                                            description: d,
                                                            kind,
                                                            request_body: req,
                                                            response_body: resp,
                                                        })
                                                    }
                                                },
                                            },
                                        }
                                    }
                                },
                            },
                        },
                        _ => Result::Err(SchemaErrorView {
                            kind: ErrorKindView::BadFieldValue("description"@, "string"@),
                            offender: OffenderView::Field(route_name, "description"@),
                        }),
                    },
                },
            },
        },
        _ => Result::Err(SchemaErrorView {
            kind: ErrorKindView::BadFieldValue(route_name, "an object"@),
            offender: OffenderView::Route(route_name),
        }),
    }
}

impl ZetroRoute {
    /// Lifts one JSON value into a typed route named `route_name`.
    pub fn from_value(route_name: String, value: &JsonValue)
        -> (r: Result<ZetroRoute, SchemaError>)
        ensures
            route_result_view(r) == parse_route(route_name@, value@),
    {
        let members: &Vec<(String, JsonValue)> = match value {
            JsonValue::Object(m) => m,
            _ => {
                return Result::Err(SchemaError {
                    kind: ErrorKind::BadFieldValue(
                        route_name.clone(),
                        String::from_str("an object"),
                    ),
                    offender: Offender::Route(route_name),
                });
            },
        };
        let ghost mv = jps_view(members@);
        assert(value@ == JsonView::Object(mv));

        let kind = match lookup_value(members, "kind") {
            Option::Some(kv) => match Self::kind_from_value(&route_name, kv) {
                Result::Ok(k) => k,
                Result::Err(e) => {
                    return Result::Err(e);
                },
            },
            Option::None => {
                return Result::Err(SchemaError {
                    kind: ErrorKind::MissingField(String::from_str("kind")),
                    offender: Offender::Route(route_name),
                });
            },
        };
        let description: String = match lookup_value(members, "description") {
            Option::Some(dv) => match dv {
                JsonValue::Str(d) => d.clone(),
                _ => {
                    return Result::Err(SchemaError {
                        kind: ErrorKind::BadFieldValue(
                            String::from_str("description"),
                            String::from_str("string"),
                        ),
                        offender: Offender::Field(route_name, String::from_str("description")),
                    });
                },
            },
            Option::None => {
                return Result::Err(SchemaError {
                    kind: ErrorKind::MissingField(String::from_str("description")),
                    offender: Offender::Route(route_name),
                });
            },
        };
        let request_body = match lookup_value(members, "request") {
            Option::Some(rv) => match ZetroField::from_value(
                route_name.clone(),
                String::from_str("request"),
                rv,
            ) {
                Result::Ok(f) => f,
                Result::Err(e) => {
                    return Result::Err(e);
                },
            },
            Option::None => {
                return Result::Err(SchemaError {
                    kind: ErrorKind::MissingField(String::from_str("request")),
                    offender: Offender::Route(route_name),
                });
            },
        };
        if matches!(&request_body.kind, FieldKind::NestedObject(_)) {
            return Result::Err(SchemaError {
                kind: ErrorKind::BadFieldValue(
                    String::from_str("request"),
                    String::from_str("not a nested object"),
                ),
                offender: Offender::Route(route_name),
            });
        }
        let response_body = match lookup_value(members, "response") {
            Option::Some(sv) => match ZetroField::from_value(
                route_name.clone(),
                String::from_str("response"),
                sv,
            ) {
                Result::Ok(f) => f,
                Result::Err(e) => {
                    return Result::Err(e);
                },
            },
            Option::None => {
                return Result::Err(SchemaError {
                    kind: ErrorKind::MissingField(String::from_str("response")),
                    offender: Offender::Route(route_name),
                });
            },
        };
        if matches!(&response_body.kind, FieldKind::NestedObject(_)) {
            return Result::Err(SchemaError {
                kind: ErrorKind::BadFieldValue(
                    String::from_str("response"),
                    String::from_str("not a nested object"),
                ),
                offender: Offender::Route(route_name),
            });
        }
        Result::Ok(ZetroRoute {
            name: route_name,
            description,
            kind,
            request_body,
            response_body,
        })
    }

    /// Reads the `kind` member.
    fn kind_from_value(route_name: &String, value: &JsonValue)
        -> (r: Result<RouteKind, SchemaError>)
        ensures
            (match r {
                Result::Ok(k) => parse_route_kind(route_name@, value@) == Result::<
                    RouteKind,
                    SchemaErrorView,
                >::Ok(k),
                Result::Err(e) => parse_route_kind(route_name@, value@) == Result::<
                    RouteKind,
                    SchemaErrorView,
                >::Err(e@),
            }),
    {
        match value {
            JsonValue::Str(s) => {
                if str_eq(s.as_str(), "query") {
                    Result::Ok(RouteKind::Query)
                } else if str_eq(s.as_str(), "mutation") {
                    Result::Ok(RouteKind::Mutation)
                } else {
                    Result::Err(SchemaError {
                        kind: ErrorKind::BadFieldValue(
                            String::from_str("kind"),
                            String::from_str("one of 'query' or 'mutation'"),
                        ),
                        offender: Offender::Field(
                            route_name.clone(),
                            String::from_str("kind"),
                        ),
                    })
                }
            },
            _ => Result::Err(SchemaError {
                kind: ErrorKind::BadFieldValue(
                    String::from_str("kind"),
                    String::from_str("a string"),
                ),
                offender: Offender::Field(route_name.clone(), String::from_str("kind")),
            }),
        }
    }
}

/// The wire identifier of each route kind: queries are 1, mutations are 2.
pub open spec fn method_code(k: RouteKind) -> u8 {
    match k {
        RouteKind::Query => 1,
        RouteKind::Mutation => 2,
    }
}

impl RouteKind {
    /// The wire method code selecting this kind's dispatch table.
    pub fn to_method_code(&self) -> (r: u8)
        ensures
            r == method_code(*self),
    {
        match self {
            RouteKind::Query => 1,
            RouteKind::Mutation => 2,
        }
    }

    /// Reads a route kind from a JSON value.
    pub fn from_value(route_name: String, value: &JsonValue)
        -> (r: Result<RouteKind, SchemaError>)
        ensures
            (match r {
                Result::Ok(k) => parse_route_kind(route_name@, value@) == Result::<
                    RouteKind,
                    SchemaErrorView,
                >::Ok(k),
                Result::Err(e) => parse_route_kind(route_name@, value@) == Result::<
                    RouteKind,
                    SchemaErrorView,
                >::Err(e@),
            }),
    {
        ZetroRoute::kind_from_value(&route_name, value)
    }
}

/// The HMAC-SHA1 digest of a route name under the fixed key `zetro`, a
/// function of the name alone.
pub uninterp spec fn hmac_sha1_zetro(msg: Seq<char>) -> Seq<u8>;

/// URL-safe unpadded base64 text for a byte string, a function of the bytes
/// alone.
pub uninterp spec fn b64url_nopad(bytes: Seq<u8>) -> Seq<char>;

/// Whether `c` belongs to the URL-safe base64 alphabet
/// (letters, digits, `-` and `_`).
pub open spec fn is_b64url_char(c: char) -> bool {
    (65 <= c as u32 && c as u32 <= 90)  // A-Z
    || (97 <= c as u32 && c as u32 <= 122)  // a-z
    || (48 <= c as u32 && c as u32 <= 57)  // 0-9
    || c == '-'
    || c == '_'
}

/// Relies on crypto's `Hmac::new(Sha1::new(), key)` with `Mac::input` and
/// `Mac::result`: the HMAC-SHA1 digest of the message under the key
/// `"zetro"`; SHA-1 yields a 20-byte code.
#[verifier::external_body]
fn hmac_sha1_zetro_digest(msg: &str) -> (r: Vec<u8>)
    ensures
        r@ == hmac_sha1_zetro(msg@),
        r@.len() == 20,
{
    let mut mac = crypto::hmac::Hmac::new(crypto::sha1::Sha1::new(), "zetro".as_bytes());
    crypto::mac::Mac::input(&mut mac, msg.as_bytes());
    crypto::mac::Mac::result(&mut mac).code().to_vec()
}

/// Relies on base64's `encode_config` with `URL_SAFE_NO_PAD`: base64 text
/// over the URL-safe alphabet without padding, so `ceil(4n/3)` characters
/// for `n` input bytes.
#[verifier::external_body]
fn b64url_nopad_encode(bytes: &Vec<u8>) -> (r: String)
    ensures
        r@ == b64url_nopad(bytes@),
        r@.len() == (4 * bytes@.len() + 2) / 3,
        forall|i: int| 0 <= i < r@.len() ==> is_b64url_char(#[trigger] r@[i]),
{
    base64::encode_config(bytes, base64::URL_SAFE_NO_PAD)
}

/// The opaque wire token of a route name: URL-safe unpadded base64 of the
/// HMAC-SHA1 digest of the name under the key `zetro`.
pub open spec fn route_token(name: Seq<char>) -> Seq<char> {
    b64url_nopad(hmac_sha1_zetro(name))
}

impl ZetroRoute {
    /// The encrypted, base64-encoded wire identifier of the route. The name
    /// is hashed to make reverse engineering more difficult; the token is
    /// pure in the name, 27 characters long, and drawn from the URL-safe
    /// base64 alphabet.
    pub fn encrypt_route_name(&self) -> (r: String)
        ensures
            r@ == route_token(self.name@),
            r@.len() == 27,
            forall|i: int| 0 <= i < r@.len() ==> is_b64url_char(#[trigger] r@[i]),
    {
        let digest = hmac_sha1_zetro_digest(self.name.as_str());
        b64url_nopad_encode(&digest)
    }
}

} // verus!
