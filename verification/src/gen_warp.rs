//! The backend routing plugin: emits the context container, the response
//! builders, the query and mutation trait surfaces, and the dispatch
//! function for a warp-based HTTP server.

use vstd::prelude::*;
use vstd::string::*;
use crate::cli::{bool_from_text, lower_of, parse_bool, PluginCall, PluginCallView};
use crate::gen_rust::rust_dtype;
use crate::routes::{method_code, route_token, RouteKind, RouteView, ZetroRoute};
use crate::schema::routes_view;
use crate::text::{dec_digits, join_strings, join_texts, str_eq, strings_view, u64_to_dec};

verus! {

/// The snake_case rendering of an identifier, a function of its characters
/// alone.
pub uninterp spec fn snake_of(s: Seq<char>) -> Seq<char>;

/// Relies on convert_case's `Casing::to_case` with `Case::Snake`.
#[verifier::external_body]
pub(crate) fn to_snake_case(s: &str) -> (r: String)
    ensures
        r@ == snake_of(s@),
{
    convert_case::Casing::to_case(&s, convert_case::Case::Snake)
}

/// The value of one plugin argument, if given.
pub open spec fn plugin_arg(ps: Seq<(Seq<char>, Seq<char>)>, key: Seq<char>) -> Option<Seq<char>>
    decreases ps.len(),
{
    if ps.len() == 0 {
        Option::None
    } else if ps[0].0 == key {
        Option::Some(ps[0].1)
    } else {
        plugin_arg(ps.drop_first(), key)
    }
}

/// Looks one plugin argument up.
fn plugin_arg_value<'a>(plug: &'a PluginCall, key: &str) -> (r: Option<&'a String>)
    ensures
        (match r {
            Option::None => plugin_arg(plug@.args, key@) is None,
            Option::Some(v) => plugin_arg(plug@.args, key@) == Option::Some(v@),
        }),
{
    let ghost ps = plug@.args;
    let mut i: usize = 0;
    assert(ps.skip(0) =~= ps);
    while i < plug.args.len()
        invariant
            i <= plug.args.len(),
            ps == plug@.args,
            ps.len() == plug.args@.len(),
            plugin_arg(ps, key@) == plugin_arg(ps.skip(i as int), key@),
        decreases plug.args.len() - i,
    {
        proof {
            assert(ps.skip(i as int)[0] == ps[i as int]);
            assert(ps[i as int] == (plug.args@[i as int].0@, plug.args@[i as int].1@));
            assert(ps.skip(i as int).drop_first() =~= ps.skip(i as int + 1));
        }
        if str_eq(plug.args[i].0.as_str(), key) {
            return Option::Some(&plug.args[i].1);
        }
        i += 1;
    }
    proof {
        assert(ps.skip(plug.args@.len() as int) =~= Seq::<(Seq<char>, Seq<char>)>::empty());
    }
    Option::None
}

/// Whether the plugin selects the faster hash map for the context.
pub open spec fn use_fnv_of(p: PluginCallView) -> bool {
    match plugin_arg(p.args, "fnv"@) {
        Option::None => false,
        Option::Some(v) => bool_from_text(lower_of(v)) == Option::Some(true),
    }
}

/// The emitted context container declaration.
pub open spec fn ctx_struct_text(use_fnv: bool) -> Seq<char> {
    "pub struct ZetroContext {\n\tdata: "@ + (if use_fnv {
        "fnv::FnvHashMap"@
    } else {
        "std::collections::HashMap"@
    }) + "<std::any::TypeId, Box<dyn std::any::Any + Sync + Send>>,\n}"@
}

/// The emitted context container methods.
pub open spec fn ctx_impl_text(use_fnv: bool) -> Seq<char> {
    "impl ZetroContext {\n\tpub fn new() -> Self {\n\t\tZetroContext {\n\t\t\tdata: "@
        + (if use_fnv {
        "fnv::FnvHashMap::default()"@
    } else {
        "std::collections::HashMap::new()"@
    })
        + ",\n\t\t}\n\t}\n\n\tpub fn insert<T>(&mut self, item: T)\n\twhere T: std::any::Any + Sync + Send,\n\t{\n\t\tself.data.insert(std::any::TypeId::of::<T>(), Box::new(item));\n\t}\n    \n\tpub fn get<T>(&self) -> &T\n\twhere T: std::any::Any + Sync + Send,\n\t{\n\t\tself.data\n\t\t\t.get(&std::any::TypeId::of::<T>())\n\t\t\t.unwrap()\n\t\t\t.downcast_ref::<T>()\n\t\t\t.unwrap()\n\t\t}\n}"@
}

/// Emits the `ZetroContext` struct and its impl block, in that order.
pub fn generate_context_struct(use_fnv: bool) -> (r: (String, String))
    ensures
        r.0@ == ctx_struct_text(use_fnv),
        r.1@ == ctx_impl_text(use_fnv),
{
    let mut ctx_struct = String::from_str("pub struct ZetroContext {\n\tdata: ");
    if use_fnv {
        ctx_struct.append("fnv::FnvHashMap");
    } else {
        ctx_struct.append("std::collections::HashMap");
    }
    ctx_struct.append("<std::any::TypeId, Box<dyn std::any::Any + Sync + Send>>,\n}");

    let mut ctx_impl = String::from_str(
        "impl ZetroContext {\n\tpub fn new() -> Self {\n\t\tZetroContext {\n\t\t\tdata: ",
    );
    if use_fnv {
        ctx_impl.append("fnv::FnvHashMap::default()");
    } else {
        ctx_impl.append("std::collections::HashMap::new()");
    }
    ctx_impl.append(
        ",\n\t\t}\n\t}\n\n\tpub fn insert<T>(&mut self, item: T)\n\twhere T: std::any::Any + Sync + Send,\n\t{\n\t\tself.data.insert(std::any::TypeId::of::<T>(), Box::new(item));\n\t}\n    \n\tpub fn get<T>(&self) -> &T\n\twhere T: std::any::Any + Sync + Send,\n\t{\n\t\tself.data\n\t\t\t.get(&std::any::TypeId::of::<T>())\n\t\t\t.unwrap()\n\t\t\t.downcast_ref::<T>()\n\t\t\t.unwrap()\n\t\t}\n}",
    );
    (ctx_struct, ctx_impl)
}

/// The emitted success-envelope builder.
pub open spec fn data_reply_text() -> Seq<char> {
    "fn _generate_data_reply(data: Vec<serde_json::Value>) -> warp::reply::Response {\n\tlet serialized = serde_json::to_string(&(\n\t\t&data,\n\t\t&serde_json::Value::Null,\n\t))\n\t.unwrap();\n\n\twarp::http::Response::builder()\n\t\t.status(200)\n\t\t.body(warp::hyper::body::Body::from(serialized))\n\t\t.unwrap()\n}"@
}

/// The emitted error-envelope builder.
pub open spec fn error_reply_text() -> Seq<char> {
    "fn _generate_error_reply(code: i16, message: &str) -> warp::reply::Response {\n\tlet serialized = serde_json::to_string(&(\n\t\t&serde_json::Value::Null,\n\t\t&(&code, message),\n\t\t))\n\t\t.unwrap();\n\n\twarp::http::Response::builder()\n\t\t.status(200)\n\t\t.body(warp::hyper::body::Body::from(serialized))\n\t\t.unwrap()\n}"@
}

/// Emits the two response builders: the success envelope `[data, null]`
/// and the failure envelope `[null, [code, message]]`, both with HTTP
/// status 200.
pub fn generate_reply_fns() -> (r: (String, String))
    ensures
        r.0@ == data_reply_text(),
        r.1@ == error_reply_text(),
{
    let data_reply_fn = String::from_str(
        "fn _generate_data_reply(data: Vec<serde_json::Value>) -> warp::reply::Response {\n\tlet serialized = serde_json::to_string(&(\n\t\t&data,\n\t\t&serde_json::Value::Null,\n\t))\n\t.unwrap();\n\n\twarp::http::Response::builder()\n\t\t.status(200)\n\t\t.body(warp::hyper::body::Body::from(serialized))\n\t\t.unwrap()\n}",
    );
    let error_reply_fn = String::from_str(
        "fn _generate_error_reply(code: i16, message: &str) -> warp::reply::Response {\n\tlet serialized = serde_json::to_string(&(\n\t\t&serde_json::Value::Null,\n\t\t&(&code, message),\n\t\t))\n\t\t.unwrap();\n\n\twarp::http::Response::builder()\n\t\t.status(200)\n\t\t.body(warp::hyper::body::Body::from(serialized))\n\t\t.unwrap()\n}",
    );
    (data_reply_fn, error_reply_fn)
}

/// One trait method: asynchronous, one per route, taking the context and
/// the typed request, returning the typed response or a server error.
pub open spec fn trait_fn_line(rt: RouteView) -> Seq<char> {
    "\tasync fn "@ + snake_of(rt.name) + "<'a>(ctx: &'a ZetroContext, request: "@
        + rust_dtype(rt.request_body) + ") -> Result<"@ + rust_dtype(rt.response_body)
        + ", ZetroServerError>;"@
}

/// The trait method lines of a route list.
pub open spec fn trait_fn_lines(rs: Seq<RouteView>) -> Seq<Seq<char>>
    decreases rs.len(),
{
    if rs.len() == 0 {
        Seq::empty()
    } else {
        seq![trait_fn_line(rs[0])] + trait_fn_lines(rs.drop_first())
    }
}

/// The lines are pointwise.
pub proof fn lemma_trait_fn_lines(rs: Seq<RouteView>)
    ensures
        trait_fn_lines(rs).len() == rs.len(),
        forall|i: int| 0 <= i < rs.len() ==> trait_fn_lines(rs)[i] == trait_fn_line(rs[i]),
    decreases rs.len(),
{
    if rs.len() > 0 {
        lemma_trait_fn_lines(rs.drop_first());
    }
}

/// The emitted trait of one route surface.
pub open spec fn routes_trait_text(trait_name: Seq<char>, rs: Seq<RouteView>) -> Seq<char> {
    "#[async_trait::async_trait]\n"@ + "pub trait "@ + trait_name + " {\n"@
        + join_texts(trait_fn_lines(rs), "\n\n"@) + "\n}"@
}

/// Emits a trait of routes which can be implemented to serve API requests.
#[verifier::loop_isolation(false)]
pub fn generate_routes_trait(trait_name: &str, routes: &Vec<ZetroRoute>) -> (r: String)
    ensures
        r@ == routes_trait_text(trait_name@, routes_view(routes@)),
{
    let ghost rs = routes_view(routes@);
    proof {
        lemma_trait_fn_lines(rs);
    }
    let mut lines: Vec<String> = Vec::new();
    let mut i: usize = 0;
    while i < routes.len()
        invariant
            i <= routes.len(),
            lines@.len() == i,
            forall|k: int| 0 <= k < i ==> #[trigger] lines@[k]@ == trait_fn_line(rs[k]),
        decreases routes.len() - i,
    {
        let route = &routes[i];
        let mut line = String::from_str("\tasync fn ");
        let sn = to_snake_case(route.name.as_str());
        line.append(sn.as_str());
        line.append("<'a>(ctx: &'a ZetroContext, request: ");
        let req = route.request_body.to_rust_dtype();
        line.append(req.as_str());
        line.append(") -> Result<");
        let resp = route.response_body.to_rust_dtype();
        line.append(resp.as_str());
        line.append(", ZetroServerError>;");
        lines.push(line);
        i += 1;
    }
    proof {
        assert(strings_view(lines@) =~= trait_fn_lines(rs));
    }
    let joined = join_strings(&lines, "\n\n");
    let mut out = String::from_str("#[async_trait::async_trait]\n");
    out.append("pub trait ");
    out.append(trait_name);
    out.append(" {\n");
    out.append(joined.as_str());
    out.append("\n}");
    out
}

/// One dispatch arm: matches the route's token, decodes the typed request,
/// invokes the user implementation, and yields either the pair of the
/// route's plain name with the result, or the first error. `surface` is
/// `Q` for queries, `M` for mutations.
pub open spec fn route_match_arm(rt: RouteView, surface: Seq<char>) -> Seq<char> {
    "\n                        // '"@ + rt.name + "' route:\n                        \""@
        + route_token(rt.name)
        + "\" => {\n                            let route_body = serde_json::from_value::<"@
        + rust_dtype(rt.request_body)
        + ">(route_body);\n                            if route_body.is_err() {\n                                return _generate_error_reply(400, \"Bad request\");\n                            }\n                            let route_body = route_body.unwrap();\n                            let result = "@
        + surface + "::"@ + snake_of(rt.name)
        + "(&ctx, route_body).await;\n                            match result {\n                                Err(e) => return _generate_error_reply(e.code, &e.message),\n                                Ok(d) => serde_json::to_value((\""@ + rt.name
        + "\", &d)).unwrap()\n                            }\n                        }"@
}

/// The dispatch arms of a route list.
pub open spec fn route_match_arms(rs: Seq<RouteView>, surface: Seq<char>) -> Seq<Seq<char>>
    decreases rs.len(),
{
    if rs.len() == 0 {
        Seq::empty()
    } else {
        seq![route_match_arm(rs[0], surface)] + route_match_arms(rs.drop_first(), surface)
    }
}

/// The arms are pointwise.
pub proof fn lemma_route_match_arms(rs: Seq<RouteView>, surface: Seq<char>)
    ensures
        route_match_arms(rs, surface).len() == rs.len(),
        forall|i: int| 0 <= i < rs.len() ==> route_match_arms(rs, surface)[i]
            == route_match_arm(rs[i], surface),
    decreases rs.len(),
{
    if rs.len() > 0 {
        lemma_route_match_arms(rs.drop_first(), surface);
    }
}

/// Builds the dispatch arms of one route surface.
#[verifier::loop_isolation(false)]
fn generate_match_arms(routes: &Vec<ZetroRoute>, surface: &str) -> (r: Vec<String>)
    ensures
        strings_view(r@) == route_match_arms(routes_view(routes@), surface@),
{
    let ghost rs = routes_view(routes@);
    proof {
        lemma_route_match_arms(rs, surface@);
    }
    let mut arms: Vec<String> = Vec::new();
    let mut i: usize = 0;
    while i < routes.len()
        invariant
            i <= routes.len(),
            arms@.len() == i,
            forall|k: int| 0 <= k < i ==> #[trigger] arms@[k]@
                == route_match_arm(rs[k], surface@),
        decreases routes.len() - i,
    {
        let route = &routes[i];
        let mut arm = String::from_str("\n                        // '");
        arm.append(route.name.as_str());
        arm.append("' route:\n                        \"");
        let token = route.encrypt_route_name();
        arm.append(token.as_str());
        arm.append(
            "\" => {\n                            let route_body = serde_json::from_value::<",
        );
        let req = route.request_body.to_rust_dtype();
        arm.append(req.as_str());
        arm.append(
            ">(route_body);\n                            if route_body.is_err() {\n                                return _generate_error_reply(400, \"Bad request\");\n                            }\n                            let route_body = route_body.unwrap();\n                            let result = ",
        );
        arm.append(surface);
        arm.append("::");
        let sn = to_snake_case(route.name.as_str());
        arm.append(sn.as_str());
        arm.append(
            "(&ctx, route_body).await;\n                            match result {\n                                Err(e) => return _generate_error_reply(e.code, &e.message),\n                                Ok(d) => serde_json::to_value((\"",
        );
        arm.append(route.name.as_str());
        arm.append("\", &d)).unwrap()\n                            }\n                        }");
        arms.push(arm);
        i += 1;
    }
    proof {
        assert(strings_view(arms@) =~= route_match_arms(rs, surface@));
    }
    arms
}

/// The emitted dispatch function: it parses the envelope
/// `(method_code, [[token, body], ...])`, rejects malformed envelopes with
/// code 400, selects the table by method code, and collects the results in
/// envelope order.
pub open spec fn routing_fn_text(qs: Seq<RouteView>, ms: Seq<RouteView>) -> Seq<char> {
    "pub fn generate_routes<Q, M>(ctx: ZetroContext, _queries: Q, _mutations: M) -> impl Filter<Extract = (impl warp::Reply,), Error = warp::Rejection> + Clone\nwhere Q: ZetroQueries, M: ZetroMutations,\n{\n        use std::sync::Arc;\n\n        let ctx = Arc::new(ctx);\n\n        warp::any()\n            .and(warp::any().map(move || Arc::clone(&ctx)))\n            .and(warp::body::bytes())\n            .then(|ctx: Arc<ZetroContext>, body: bytes::Bytes| async move {\n                let mut retval: Vec<serde_json::Value> = Vec::new();\n                let request_payload = serde_json::from_slice::<(u8, Vec<serde_json::Value>)>(&body);\n                if request_payload.is_err() {\n                    return _generate_error_reply(400, \"Bad request\");\n                }\n                // Determines whether the request is a query or mutation\n                let (method_code, operations) = request_payload.unwrap();\n                for op in operations {\n                    if !op.is_array() {\n                        return _generate_error_reply(400, \"Operations must be an array\");\n                    }\n                    let arr = op.as_array().unwrap();\n                    let route_name = arr.get(0);\n                    let route_body = arr.get(1);\n\n                    if route_name.is_none() || route_body.is_none() {\n                        return _generate_error_reply(400, \"Route name and route body are mandatory\");\n                    }\n\n                    let route_name = route_name.unwrap();\n                    let route_body = route_body.unwrap().to_owned();\n\n                    if !route_name.is_string() {\n                        return _generate_error_reply(400, \"Route name must be string\");\n                    }\n                    let route_name = route_name.as_str().unwrap();\n                    if method_code == "@
        + dec_digits(method_code(RouteKind::Query) as nat)
        + " {\n                        // Handle query\n                        retval.push(match route_name {\n                            "@
        + join_texts(route_match_arms(qs, "Q"@), "\n"@)
        + "\n    \n                            _ => {\n                                return _generate_error_reply(400, \"Unrecognized route name\");\n                            }\n                        });\n                    } else if method_code == "@
        + dec_digits(method_code(RouteKind::Mutation) as nat)
        + " {\n                        // Handle mutation\n                        retval.push(match route_name {\n                            "@
        + join_texts(route_match_arms(ms, "M"@), "\n"@)
        + "\n    \n                            _ => {\n                                return _generate_error_reply(400, \"Unrecognized route name\");\n                            }\n                        });\n                    } else {\n                        return _generate_error_reply(400, \"Bad request\");\n                    }\n                }\n                _generate_data_reply(retval)\n            })\n        }"@
}

/// Emits the dispatch function over the given queries and mutations.
pub fn generate_routing_fn(queries: &Vec<ZetroRoute>, mutations: &Vec<ZetroRoute>)
    -> (r: String)
    ensures
        r@ == routing_fn_text(routes_view(queries@), routes_view(mutations@)),
{
    let query_arms = generate_match_arms(queries, "Q");
    let mutation_arms = generate_match_arms(mutations, "M");
    let qjoined = join_strings(&query_arms, "\n");
    let mjoined = join_strings(&mutation_arms, "\n");
    let mut out = String::from_str(
        "pub fn generate_routes<Q, M>(ctx: ZetroContext, _queries: Q, _mutations: M) -> impl Filter<Extract = (impl warp::Reply,), Error = warp::Rejection> + Clone\nwhere Q: ZetroQueries, M: ZetroMutations,\n{\n        use std::sync::Arc;\n\n        let ctx = Arc::new(ctx);\n\n        warp::any()\n            .and(warp::any().map(move || Arc::clone(&ctx)))\n            .and(warp::body::bytes())\n            .then(|ctx: Arc<ZetroContext>, body: bytes::Bytes| async move {\n                let mut retval: Vec<serde_json::Value> = Vec::new();\n                let request_payload = serde_json::from_slice::<(u8, Vec<serde_json::Value>)>(&body);\n                if request_payload.is_err() {\n                    return _generate_error_reply(400, \"Bad request\");\n                }\n                // Determines whether the request is a query or mutation\n                let (method_code, operations) = request_payload.unwrap();\n                for op in operations {\n                    if !op.is_array() {\n                        return _generate_error_reply(400, \"Operations must be an array\");\n                    }\n                    let arr = op.as_array().unwrap();\n                    let route_name = arr.get(0);\n                    let route_body = arr.get(1);\n\n                    if route_name.is_none() || route_body.is_none() {\n                        return _generate_error_reply(400, \"Route name and route body are mandatory\");\n                    }\n\n                    let route_name = route_name.unwrap();\n                    let route_body = route_body.unwrap().to_owned();\n\n                    if !route_name.is_string() {\n                        return _generate_error_reply(400, \"Route name must be string\");\n                    }\n                    let route_name = route_name.as_str().unwrap();\n                    if method_code == ",
    );
    let qcode = u64_to_dec(RouteKind::Query.to_method_code() as u64);
    out.append(qcode.as_str());
    out.append(
        " {\n                        // Handle query\n                        retval.push(match route_name {\n                            ",
    );
    out.append(qjoined.as_str());
    out.append(
        "\n    \n                            _ => {\n                                return _generate_error_reply(400, \"Unrecognized route name\");\n                            }\n                        });\n                    } else if method_code == ",
    );
    let mcode = u64_to_dec(RouteKind::Mutation.to_method_code() as u64);
    out.append(mcode.as_str());
    out.append(
        " {\n                        // Handle mutation\n                        retval.push(match route_name {\n                            ",
    );
    out.append(mjoined.as_str());
    out.append(
        "\n    \n                            _ => {\n                                return _generate_error_reply(400, \"Unrecognized route name\");\n                            }\n                        });\n                    } else {\n                        return _generate_error_reply(400, \"Bad request\");\n                    }\n                }\n                _generate_data_reply(retval)\n            })\n        }",
    );
    out
}

/// The seven blocks the plugin emits, in order: the context struct and its
/// impl, the two reply builders, the two trait surfaces, and the dispatch
/// function.
pub open spec fn warp_texts(p: PluginCallView, qs: Seq<RouteView>, ms: Seq<RouteView>)
    -> Seq<Seq<char>>
{
    let u = use_fnv_of(p);
    seq![
        ctx_struct_text(u),
        ctx_impl_text(u),
        data_reply_text(),
        error_reply_text(),
        routes_trait_text("ZetroQueries"@, qs),
        routes_trait_text("ZetroMutations"@, ms),
        routing_fn_text(qs, ms),
    ]
}

/// Emits backend Rust code to run an HTTP API. The optional `fnv` plugin
/// argument, when it parses as a boolean, selects the faster hash map.
pub fn warp(
    plug: &PluginCall,
    scope: &mut Vec<String>,
    queries: &Vec<ZetroRoute>,
    mutations: &Vec<ZetroRoute>,
)
    requires
        (match plugin_arg(plug@.args, "fnv"@) {
            Option::None => true,
            Option::Some(v) => bool_from_text(lower_of(v)) is Some,
        }),
    ensures
        strings_view(final(scope)@) == strings_view(old(scope)@)
            + warp_texts(plug@, routes_view(queries@), routes_view(mutations@)),
{
    proof {
        reveal_strlit("fnv");
    }
    let use_fnv = match plugin_arg_value(plug, "fnv") {
        Option::Some(v) => {
            let lv = crate::cli::to_lower(v.as_str());
            match parse_bool(lv.as_str()) {
                Option::Some(b) => b,
                Option::None => vstd::pervasive::unreached(),
            }
        },
        Option::None => false,
    };
    assert(use_fnv == use_fnv_of(plug@));

    let (ctx_struct, ctx_impl) = generate_context_struct(use_fnv);
    let ghost base = strings_view(old(scope)@);
    scope.push(ctx_struct);
    scope.push(ctx_impl);

    let (data_reply_fn, error_reply_fn) = generate_reply_fns();
    scope.push(data_reply_fn);
    scope.push(error_reply_fn);

    scope.push(generate_routes_trait("ZetroQueries", queries));
    scope.push(generate_routes_trait("ZetroMutations", mutations));

    scope.push(generate_routing_fn(queries, mutations));
    proof {
        assert(strings_view(scope@) =~= base + warp_texts(
            plug@,
            routes_view(queries@),
            routes_view(mutations@),
        ));
    }
}

/// Emits the backend routing code after checking the plugin's `fnv`
/// argument: when the argument is present but no boolean word, nothing is
/// emitted and `false` comes back.
pub fn warp_checked(
    plug: &PluginCall,
    scope: &mut Vec<String>,
    queries: &Vec<ZetroRoute>,
    mutations: &Vec<ZetroRoute>,
) -> (ok: bool)
    ensures
        ok == (match plugin_arg(plug@.args, "fnv"@) {
            Option::None => true,
            Option::Some(v) => bool_from_text(lower_of(v)) is Some,
        }),
        ok ==> strings_view(final(scope)@) == strings_view(old(scope)@)
            + warp_texts(plug@, routes_view(queries@), routes_view(mutations@)),
        !ok ==> final(scope)@ == old(scope)@,
{
    proof {
        reveal_strlit("fnv");
    }
    let well_formed = match plugin_arg_value(plug, "fnv") {
        Option::Some(v) => {
            let lv = crate::cli::to_lower(v.as_str());
            parse_bool(lv.as_str()).is_some()
        },
        Option::None => true,
    };
    if well_formed {
        warp(plug, scope, queries, mutations);
        true
    } else {
        false
    }
}

} // verus!
