//! The frontend client plugin: the `IZetroClient` interface the host
//! implements, and one fluent builder class per route surface that batches
//! operations and decodes the response envelope.

use vstd::prelude::*;
use vstd::string::*;
use crate::fields::{FieldKind, FieldKindView, FieldView};
use crate::gen_ts::ts_dtype;
use crate::routes::{method_code, route_token, RouteKind, RouteView, ZetroRoute};
use crate::schema::routes_view;
use crate::text::{dec_digits, join_strings, join_texts, strings_view, u64_to_dec};

verus! {

/// The camelCase rendering of an identifier, a function of its characters
/// alone.
pub uninterp spec fn camel_of(s: Seq<char>) -> Seq<char>;

/// Relies on convert_case's `Casing::to_case` with `Case::Camel`.
#[verifier::external_body]
pub(crate) fn to_camel_case(s: &str) -> (r: String)
    ensures
        r@ == camel_of(s@),
{
    convert_case::Casing::to_case(&s, convert_case::Case::Camel)
}

/// The trailing underscore that mangling appends to public identifiers.
pub open spec fn mangle_suffix(should_mangle: bool) -> Seq<char> {
    if should_mangle {
        "_"@
    } else {
        Seq::<char>::empty()
    }
}

/// The emitted host-side client interface.
pub open spec fn client_interface_text(should_mangle: bool) -> Seq<char> {
    "/** Users must implement this interface to use `ZetroQuery` and `ZetroMutation` */\nexport interface IZetroClient {\n\t/**\n\t * Body is array-encoded data for the request. The return value MUST be the\n\t * response JSON body of the server. Implementors can add authentication\n\t * information to the request. This interface can be easily mocked for tests.\n\t * Note that a non-200 response status (even in the case of a malformed request)\n\t * MUST be considered an unexpected error and be handled accordingly.\n\t * In other words, only forward the parsed JSON body to this method if the\n\t * status is 200 OK.\n\t */\n\tmakeRequest"@
        + mangle_suffix(should_mangle) + ": (body: any) => Promise<any>;\n}"@
}

/// Emits the interface users must implement to make requests.
pub fn generate_api_client_interface(should_mangle: bool) -> (r: String)
    ensures
        r@ == client_interface_text(should_mangle),
{
    let mut out = String::from_str(
        "/** Users must implement this interface to use `ZetroQuery` and `ZetroMutation` */\nexport interface IZetroClient {\n\t/**\n\t * Body is array-encoded data for the request. The return value MUST be the\n\t * response JSON body of the server. Implementors can add authentication\n\t * information to the request. This interface can be easily mocked for tests.\n\t * Note that a non-200 response status (even in the case of a malformed request)\n\t * MUST be considered an unexpected error and be handled accordingly.\n\t * In other words, only forward the parsed JSON body to this method if the\n\t * status is 200 OK.\n\t */\n\tmakeRequest",
    );
    if should_mangle {
        out.append("_");
    }
    out.append(": (body: any) => Promise<any>;\n}");
    out
}

/// The wire expression for the request body: under the untagged codec a
/// struct or nested body goes through its serializer, element-wise when
/// multiple; anything else is passed as given.
pub open spec fn request_body_expr(rt: RouteView, untagged_repr: bool) -> Seq<char> {
    if untagged_repr {
        match rt.request_body.kind {
            FieldKindView::StructValue(n) => if rt.request_body.is_multiple {
                "requestBody"@ + (if rt.request_body.is_nullable {
                    "?"@
                } else {
                    Seq::<char>::empty()
                }) + ".map(function (elem: any) { return serialize"@ + n + "(elem); })"@
            } else {
                "serialize"@ + n + "(requestBody)"@
            },
            FieldKindView::NestedObject(s) => if rt.request_body.is_multiple {
                "requestBody"@ + (if rt.request_body.is_nullable {
                    "?"@
                } else {
                    Seq::<char>::empty()
                }) + ".map(function (elem: any) { return serialize"@ + s.name + "(elem); })"@
            } else {
                "serialize"@ + s.name + "(requestBody)"@
            },
            _ => "requestBody"@,
        }
    } else {
        "requestBody"@
    }
}

/// The expression decoding one result item: under the untagged codec a
/// struct or nested response goes through its deserializer, element-wise
/// when the response body is multiple.
pub open spec fn response_body_expr(rt: RouteView, untagged_repr: bool) -> Seq<char> {
    if untagged_repr {
        match rt.response_body.kind {
            FieldKindView::StructValue(n) => if rt.response_body.is_multiple {
                "item[1]"@ + (if rt.response_body.is_nullable {
                    "?"@
                } else {
                    Seq::<char>::empty()
                }) + ".map(function (elem: any) { return deserialize"@ + n + "(elem); })"@
            } else {
                "deserialize"@ + n + "(item[1])"@
            },
            FieldKindView::NestedObject(s) => if rt.response_body.is_multiple {
                "item[1]"@ + (if rt.response_body.is_nullable {
                    "?"@
                } else {
                    Seq::<char>::empty()
                }) + ".map(function (elem: any) { return deserialize"@ + s.name + "(elem); })"@
            } else {
                "deserialize"@ + s.name + "(item[1])"@
            },
            _ => "item[1]"@,
        }
    } else {
        "item[1]"@
    }
}

/// One builder method: it records the `[token, body]` operation and the
/// response parser, and returns the builder with its phantom result type
/// extended by this route.
pub open spec fn client_method_text(
    rt: RouteView,
    class_name: Seq<char>,
    untagged_repr: bool,
    should_mangle: bool,
) -> Seq<char> {
    let min_name = camel_of(rt.name) + mangle_suffix(should_mangle);
    "\t"@ + min_name + "(requestBody"@ + (if rt.request_body.is_nullable {
        "?"@
    } else {
        Seq::<char>::empty()
    }) + ": "@ + ts_dtype(rt.request_body) + "): "@ + class_name + "<T & {"@ + min_name
        + ": "@ + ts_dtype(rt.response_body) + "}> {\n\t\tthis.state_.push([\""@
        + route_token(rt.name) + "\", "@ + request_body_expr(rt, untagged_repr)
        + "]);\n\t\tthis.parsers_.push(function (resultObj: any, item: any) {\n\t\t\tresultObj."@
        + min_name + " = "@ + response_body_expr(rt, untagged_repr)
        + ";\n\t\t})\n\t\treturn this as any;\n\t}"@
}

/// The builder methods of a route list.
pub open spec fn client_method_texts(
    rs: Seq<RouteView>,
    class_name: Seq<char>,
    untagged_repr: bool,
    should_mangle: bool,
) -> Seq<Seq<char>>
    decreases rs.len(),
{
    if rs.len() == 0 {
        Seq::empty()
    } else {
        seq![client_method_text(rs[0], class_name, untagged_repr, should_mangle)]
            + client_method_texts(rs.drop_first(), class_name, untagged_repr, should_mangle)
    }
}

/// The methods are pointwise.
pub proof fn lemma_client_method_texts(
    rs: Seq<RouteView>,
    class_name: Seq<char>,
    untagged_repr: bool,
    should_mangle: bool,
)
    ensures
        client_method_texts(rs, class_name, untagged_repr, should_mangle).len() == rs.len(),
        forall|i: int| 0 <= i < rs.len()
            ==> client_method_texts(rs, class_name, untagged_repr, should_mangle)[i]
            == client_method_text(rs[i], class_name, untagged_repr, should_mangle),
    decreases rs.len(),
{
    if rs.len() > 0 {
        lemma_client_method_texts(rs.drop_first(), class_name, untagged_repr, should_mangle);
    }
}

/// The emitted builder class: it accumulates operations and parsers, and
/// `fetch` transmits `[method_code, operations]`, throws on an error tuple,
/// and assembles the typed result object in lockstep with the parsers.
pub open spec fn client_class_text(
    class_name: Seq<char>,
    code: u8,
    rs: Seq<RouteView>,
    untagged_repr: bool,
    should_mangle: bool,
) -> Seq<char> {
    let m = mangle_suffix(should_mangle);
    "export class "@ + class_name
        + "<T = unknown> {\n\tprivate state_: any[] = [];\n\tprivate parsers_: ((returnObject: any, item: any) => void)[] = [];\n\tprivate readonly client_: IZetroClient;\n\n\tconstructor(client: IZetroClient) {\n\t\tthis.client_ = client;\n\t}\n\n"@
        + join_texts(client_method_texts(rs, class_name, untagged_repr, should_mangle), "\n"@)
        + "\n\n/*\n * Excecutes the request and returns the response.\n * If the call was unsuccessful, an error of type ZetroServerError\n * will be thrown.\n */\n\tasync fetch"@
        + m + "(): Promise<T> {\n\t\ttry {\n\t\t\tconst result = await this.client_.makeRequest"@
        + m + "(["@ + dec_digits(code as nat)
        + ", this.state_]);\n\t\t\tif (result[1] != null) {\n\t\t\t\t// Error\n\t\t\t\tthrow {code"@
        + m + ": result[1][0], message"@ + m
        + ": result[1][1]}\n\t\t\t}\n\t\t\tconst data = result[0];\n\t\t\tconst returnObject = {};\n\t\t\tfor (let i = 0; i < data.length; i++) {\n\t\t\t\tthis.parsers_[i](returnObject, data[i]);\n\t\t\t}\n\t\t\treturn returnObject as any;\n\t\t} catch (e) {\n\t\t\tthrow {code"@
        + m + ": e.code"@ + m + " || -1, message"@ + m + ": e.message"@ + m
        + " || \"An unexpected error occurred.\"};\n\t\t}\n}\n}"@
}

/// Emits one ES6 builder class containing all the routes of one surface.
#[verifier::loop_isolation(false)]
pub fn generate_client_class(
    name: &str,
    code: u8,
    routes: &Vec<ZetroRoute>,
    untagged_repr: bool,
    should_mangle: bool,
) -> (r: String)
    ensures
        r@ == client_class_text(name@, code, routes_view(routes@), untagged_repr, should_mangle),
{
    let ghost rs = routes_view(routes@);
    proof {
        lemma_client_method_texts(rs, name@, untagged_repr, should_mangle);
    }
    let mut methods: Vec<String> = Vec::new();
    let mut i: usize = 0;
    while i < routes.len()
        invariant
            i <= routes.len(),
            methods@.len() == i,
            forall|k: int| 0 <= k < i ==> #[trigger] methods@[k]@
                == client_method_text(rs[k], name@, untagged_repr, should_mangle),
        decreases routes.len() - i,
    {
        let route = &routes[i];
        let mut min_name = to_camel_case(route.name.as_str());
        if should_mangle {
            min_name.append("_");
        }
        let token = route.encrypt_route_name();

        let req_expr: String = if untagged_repr {
            match &route.request_body.kind {
                FieldKind::StructValue(n) => {
                    if route.request_body.is_multiple {
                        let mut e = String::from_str("requestBody");
                        if route.request_body.is_nullable {
                            e.append("?");
                        }
                        e.append(".map(function (elem: any) { return serialize");
                        e.append(n.as_str());
                        e.append("(elem); })");
                        e
                    } else {
                        let mut e = String::from_str("serialize");
                        e.append(n.as_str());
                        e.append("(requestBody)");
                        e
                    }
                },
                FieldKind::NestedObject(s) => {
                    if route.request_body.is_multiple {
                        let mut e = String::from_str("requestBody");
                        if route.request_body.is_nullable {
                            e.append("?");
                        }
                        e.append(".map(function (elem: any) { return serialize");
                        e.append(s.name.as_str());
                        e.append("(elem); })");
                        e
                    } else {
                        let mut e = String::from_str("serialize");
                        e.append(s.name.as_str());
                        e.append("(requestBody)");
                        e
                    }
                },
                _ => String::from_str("requestBody"),
            }
        } else {
            String::from_str("requestBody")
        };
        let resp_expr: String = if untagged_repr {
            match &route.response_body.kind {
                FieldKind::StructValue(n) => {
                    if route.response_body.is_multiple {
                        let mut e = String::from_str("item[1]");
                        if route.response_body.is_nullable {
                            e.append("?");
                        }
                        e.append(".map(function (elem: any) { return deserialize");
                        e.append(n.as_str());
                        e.append("(elem); })");
                        e
                    } else {
                        let mut e = String::from_str("deserialize");
                        e.append(n.as_str());
                        e.append("(item[1])");
                        e
                    }
                },
                FieldKind::NestedObject(s) => {
                    if route.response_body.is_multiple {
                        let mut e = String::from_str("item[1]");
                        if route.response_body.is_nullable {
                            e.append("?");
                        }
                        e.append(".map(function (elem: any) { return deserialize");
                        e.append(s.name.as_str());
                        e.append("(elem); })");
                        e
                    } else {
                        let mut e = String::from_str("deserialize");
                        e.append(s.name.as_str());
                        e.append("(item[1])");
                        e
                    }
                },
                _ => String::from_str("item[1]"),
            }
        } else {
            String::from_str("item[1]")
        };

        let mut method = String::from_str("\t");
        method.append(min_name.as_str());
        method.append("(requestBody");
        if route.request_body.is_nullable {
            method.append("?");
        }
        method.append(": ");
        let req_ty = route.request_body.to_ts_dtype();
        method.append(req_ty.as_str());
        method.append("): ");
        method.append(name);
        method.append("<T & {");
        method.append(min_name.as_str());
        method.append(": ");
        let resp_ty = route.response_body.to_ts_dtype();
        method.append(resp_ty.as_str());
        method.append("}> {\n\t\tthis.state_.push([\"");
        method.append(token.as_str());
        method.append("\", ");
        method.append(req_expr.as_str());
        method.append("]);\n\t\tthis.parsers_.push(function (resultObj: any, item: any) {\n\t\t\tresultObj.");
        method.append(min_name.as_str());
        method.append(" = ");
        method.append(resp_expr.as_str());
        method.append(";\n\t\t})\n\t\treturn this as any;\n\t}");
        methods.push(method);
        i += 1;
    }
    proof {
        assert(strings_view(methods@)
            =~= client_method_texts(rs, name@, untagged_repr, should_mangle));
    }
    let joined = join_strings(&methods, "\n");
    let mut out = String::from_str("export class ");
    out.append(name);
    out.append(
        "<T = unknown> {\n\tprivate state_: any[] = [];\n\tprivate parsers_: ((returnObject: any, item: any) => void)[] = [];\n\tprivate readonly client_: IZetroClient;\n\n\tconstructor(client: IZetroClient) {\n\t\tthis.client_ = client;\n\t}\n\n",
    );
    out.append(joined.as_str());
    out.append(
        "\n\n/*\n * Excecutes the request and returns the response.\n * If the call was unsuccessful, an error of type ZetroServerError\n * will be thrown.\n */\n\tasync fetch",
    );
    if should_mangle {
        out.append("_");
    }
    out.append("(): Promise<T> {\n\t\ttry {\n\t\t\tconst result = await this.client_.makeRequest");
    if should_mangle {
        out.append("_");
    }
    out.append("([");
    let code_text = u64_to_dec(code as u64);
    out.append(code_text.as_str());
    out.append(", this.state_]);\n\t\t\tif (result[1] != null) {\n\t\t\t\t// Error\n\t\t\t\tthrow {code");
    if should_mangle {
        out.append("_");
    }
    out.append(": result[1][0], message");
    if should_mangle {
        out.append("_");
    }
    out.append(
        ": result[1][1]}\n\t\t\t}\n\t\t\tconst data = result[0];\n\t\t\tconst returnObject = {};\n\t\t\tfor (let i = 0; i < data.length; i++) {\n\t\t\t\tthis.parsers_[i](returnObject, data[i]);\n\t\t\t}\n\t\t\treturn returnObject as any;\n\t\t} catch (e) {\n\t\t\tthrow {code",
    );
    if should_mangle {
        out.append("_");
    }
    out.append(": e.code");
    if should_mangle {
        out.append("_");
    }
    out.append(" || -1, message");
    if should_mangle {
        out.append("_");
    }
    out.append(": e.message");
    if should_mangle {
        out.append("_");
    }
    out.append(" || \"An unexpected error occurred.\"};\n\t\t}\n}\n}");
    out
}

/// The seven blocks the plugin emits: the client interface, then each
/// surface's builder class between its banners.
pub open spec fn class_client_texts(
    qs: Seq<RouteView>,
    ms: Seq<RouteView>,
    untagged_repr: bool,
    should_mangle: bool,
) -> Seq<Seq<char>> {
    seq![
        client_interface_text(should_mangle),
        "/* ============ Queries ============ */"@,
        client_class_text(
            "ZetroQuery"@,
            method_code(RouteKind::Query),
            qs,
            untagged_repr,
            should_mangle,
        ),
        "/* ============ End Queries ============ */"@,
        "/* ============ Mutations ============ */"@,
        client_class_text(
            "ZetroMutation"@,
            method_code(RouteKind::Mutation),
            ms,
            untagged_repr,
            should_mangle,
        ),
        "/* ============ End Mutations ============ */"@,
    ]
}

/// Emits frontend TypeScript code to query a server speaking the wire
/// protocol.
pub fn class_client(
    scope: &mut Vec<String>,
    queries: &Vec<ZetroRoute>,
    mutations: &Vec<ZetroRoute>,
    untagged_repr: bool,
    should_mangle: bool,
)
    ensures
        strings_view(final(scope)@) == strings_view(old(scope)@) + class_client_texts(
            routes_view(queries@),
            routes_view(mutations@),
            untagged_repr,
            should_mangle,
        ),
{
    let ghost base = strings_view(old(scope)@);
    scope.push(generate_api_client_interface(should_mangle));

    scope.push(String::from_str("/* ============ Queries ============ */"));
    scope.push(generate_client_class(
        "ZetroQuery",
        RouteKind::Query.to_method_code(),
        queries,
        untagged_repr,
        should_mangle,
    ));
    scope.push(String::from_str("/* ============ End Queries ============ */"));

    scope.push(String::from_str("/* ============ Mutations ============ */"));
    scope.push(generate_client_class(
        "ZetroMutation",
        RouteKind::Mutation.to_method_code(),
        mutations,
        untagged_repr,
        should_mangle,
    ));
    scope.push(String::from_str("/* ============ End Mutations ============ */"));
    proof {
        assert(strings_view(scope@) =~= base + class_client_texts(
            routes_view(queries@),
            routes_view(mutations@),
            untagged_repr,
            should_mangle,
        ));
    }
}

} // verus!
