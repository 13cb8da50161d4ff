use zetro::chat::{Db, GetRoomsRequest, Mutations, Queries, RoomStatus, SendMessageRequest};
use zetro::cli::PluginCall;
use zetro::enums::ZetroEnum;
use zetro::gen_warp::{generate_context_struct, generate_reply_fns, generate_routes_trait, warp};
use zetro::json::JsonValue;
use zetro::routes::ZetroRoute;
use zetro::structs::ZetroStruct;

fn jstr(text: &str) -> JsonValue {
    JsonValue::Str(String::from(text))
}

fn jobj(pairs: Vec<(&str, JsonValue)>) -> JsonValue {
    JsonValue::Object(pairs.into_iter().map(|(k, v)| (String::from(k), v)).collect())
}

fn sample_enum() -> ZetroEnum {
    ZetroEnum::from_value(
        String::from("Color"),
        &JsonValue::Array(vec![jstr("Red"), jstr("Green")]),
    )
    .unwrap()
}

fn sample_struct() -> ZetroStruct {
    ZetroStruct::from_value(
        String::from("Point"),
        &jobj(vec![
            ("description", jstr("a point")),
            (
                "fields",
                jobj(vec![("x", jstr("i32")), ("y", jstr("?u8; vertical"))]),
            ),
        ]),
    )
    .unwrap()
}

fn sample_route(name: &str, kind: &str) -> ZetroRoute {
    ZetroRoute::from_value(
        String::from(name),
        &jobj(vec![
            ("kind", jstr(kind)),
            ("description", jstr("a sample route")),
            ("request", jstr("string")),
            ("response", jstr("?[]u32")),
        ]),
    )
    .unwrap()
}

/// The backend enum is a tagged integer enumeration with ordinals from 0.
#[test]
fn rust_enum_golden() {
    let text = zetro::gen_rust::generate_enum(&sample_enum());
    assert_eq!(
        text,
        "#[derive(Debug, Copy, Clone, PartialEq, serde_repr::Serialize_repr, serde_repr::Deserialize_repr)]\n#[repr(u8)]\npub enum Color {\n\tRed = 0,\n\tGreen = 1,\n}"
    );
}

/// The frontend enum is a frozen object literal with ordinals from 1.
#[test]
fn ts_enum_golden() {
    let text = zetro::gen_ts::generate_enum(&sample_enum());
    assert_eq!(
        text,
        "export const Color = {\n\tRed: 1,\n\tGreen: 2\n} as const;"
    );
}

/// The backend struct declaration carries docs, derives and typed fields.
#[test]
fn rust_struct_golden() {
    let blocks = zetro::gen_rust::generate_struct(&sample_struct(), false);
    assert_eq!(blocks.len(), 1);
    assert_eq!(
        blocks[0],
        "/// a point\n#[derive(Debug, Clone, serde_derive::Serialize, serde_derive::Deserialize)]\n#[serde(rename_all = \"camelCase\")]\npub struct Point {\n\tpub x: i32,\n\t/// vertical\n\tpub y: Option<u8>,\n}"
    );
}

/// The frontend interface marks nullable fields with a question token.
#[test]
fn ts_interface_golden() {
    let blocks = zetro::gen_ts::generate_interface(&sample_struct(), true);
    assert_eq!(blocks.len(), 1);
    assert_eq!(
        blocks[0],
        "/** a point */\nexport interface Point {\n\tx: number,\n\t/** vertical */\n\ty?: number,\n}"
    );
}

/// The untagged codec pair encodes a struct as a positional array.
#[test]
fn ts_untagged_codec_golden() {
    let ser = zetro::gen_ts::generate_untagged_serializer(&sample_struct(), true);
    assert_eq!(ser.len(), 1);
    assert_eq!(
        ser[0],
        "export function serializePoint(obj: Point): any[] | null {\n\treturn [\n\t\tobj.x,\n\t\tobj.y\n\t];\n}"
    );

    let de = zetro::gen_ts::generate_untagged_deserializer(&sample_struct(), true);
    assert_eq!(de.len(), 1);
    assert_eq!(
        de[0],
        "export function deserializePoint(obj: any): Point | null {\n\tif (obj == null) { return null; }\n\treturn {\n\t\tx: obj[0],\n\t\ty: obj[1]\n\t};\n}"
    );
}

/// The backend untagged codec writes one positional element per field and
/// sizes the tuple by the field count, on both sides.
#[test]
fn rust_untagged_codec_golden() {
    let one_field = ZetroStruct::from_value(
        String::from("Tag"),
        &jobj(vec![
            ("description", jstr("a tag")),
            ("fields", jobj(vec![("label", jstr("string"))])),
        ]),
    )
    .unwrap();
    let ser = zetro::gen_rust::generate_untagged_serializer(&one_field);
    assert_eq!(ser.len(), 1);
    assert_eq!(
        ser[0],
        "impl serde::ser::Serialize for Tag {\nfn serialize<S>(&self, serializer: S) -> Result<S::Ok, S::Error>\n\twhere S: serde::ser::Serializer,\n\t{\n\t\tlet mut state = serializer.serialize_tuple(1)?;\n\t\tstate.serialize_element(&self.label)?;\n\t\tstate.end()    \n\t}\n}"
    );
    let de = zetro::gen_rust::generate_untagged_deserializer(&one_field);
    assert_eq!(de.len(), 1);
    assert!(de[0].contains("deserializer.deserialize_tuple(1, Visitor)"));

    // the tuple length follows the field count
    let ser2 = zetro::gen_rust::generate_untagged_serializer(&sample_struct());
    assert!(ser2[0].contains("serializer.serialize_tuple(2)?"));
}

/// Type literals map widths directly on the backend and collapse to
/// `number` on the frontend; a recursive reference is boxed.
#[test]
fn dtype_mapping() {
    let rec = zetro::fields::ZetroField::from_value(
        String::from("Node"),
        String::from("children"),
        &jstr("?[]struct~Node"),
    )
    .unwrap();
    assert_eq!(rec.to_rust_dtype(), "Option<Vec<Box<Node>>>");
    assert_eq!(rec.to_ts_dtype(), "Node[]");

    let num = zetro::fields::ZetroField::from_value(
        String::from("S"),
        String::from("f"),
        &jstr("u64"),
    )
    .unwrap();
    assert_eq!(num.to_rust_dtype(), "u64");
    assert_eq!(num.to_ts_dtype(), "number");

    let en = zetro::fields::ZetroField::from_value(
        String::from("S"),
        String::from("f"),
        &jstr("[]enum~Color"),
    )
    .unwrap();
    assert_eq!(en.to_rust_dtype(), "Vec<Color>");
    assert_eq!(en.to_ts_dtype(), "number[]");
}

/// The reply builders emit the uniform envelopes with HTTP status 200.
#[test]
fn reply_fns_golden() {
    let (data_reply, error_reply) = generate_reply_fns();
    assert_eq!(
        data_reply,
        "fn _generate_data_reply(data: Vec<serde_json::Value>) -> warp::reply::Response {\n\tlet serialized = serde_json::to_string(&(\n\t\t&data,\n\t\t&serde_json::Value::Null,\n\t))\n\t.unwrap();\n\n\twarp::http::Response::builder()\n\t\t.status(200)\n\t\t.body(warp::hyper::body::Body::from(serialized))\n\t\t.unwrap()\n}"
    );
    assert_eq!(
        error_reply,
        "fn _generate_error_reply(code: i16, message: &str) -> warp::reply::Response {\n\tlet serialized = serde_json::to_string(&(\n\t\t&serde_json::Value::Null,\n\t\t&(&code, message),\n\t\t))\n\t\t.unwrap();\n\n\twarp::http::Response::builder()\n\t\t.status(200)\n\t\t.body(warp::hyper::body::Body::from(serialized))\n\t\t.unwrap()\n}"
    );
}

/// The route trait names its methods in snake_case with typed bodies.
#[test]
fn routes_trait_text() {
    let routes = vec![sample_route("getRooms", "query")];
    let text = generate_routes_trait("ZetroQueries", &routes);
    assert_eq!(
        text,
        "#[async_trait::async_trait]\npub trait ZetroQueries {\n\tasync fn get_rooms<'a>(ctx: &'a ZetroContext, request: String) -> Result<Option<Vec<u32>>, ZetroServerError>;\n}"
    );
}

/// The context container switches its map type on the `fnv` argument.
#[test]
fn context_struct_fnv() {
    let (plain, _) = generate_context_struct(false);
    assert!(plain.contains("std::collections::HashMap"));
    let (fast, fast_impl) = generate_context_struct(true);
    assert!(fast.contains("fnv::FnvHashMap"));
    assert!(fast_impl.contains("fnv::FnvHashMap::default()"));
}

/// The dispatch function routes by token and method code, in order.
#[test]
fn routing_fn_shape() {
    let queries = vec![sample_route("getRooms", "query")];
    let mutations = vec![sample_route("sendMessage", "mutation")];
    let plug = PluginCall { name: String::from("warp"), args: Vec::new() };
    let mut scope: Vec<String> = Vec::new();
    warp(&plug, &mut scope, &queries, &mutations);
    assert_eq!(scope.len(), 7);
    let routing = &scope[6];
    assert!(routing.starts_with("pub fn generate_routes<Q, M>"));
    assert!(routing.contains("if method_code == 1 {"));
    assert!(routing.contains("} else if method_code == 2 {"));
    let token = queries[0].encrypt_route_name();
    assert!(routing.contains(&token));
    assert!(routing.contains("let result = Q::get_rooms(&ctx, route_body).await;"));
    assert!(routing.contains("let result = M::send_message(&ctx, route_body).await;"));
    assert!(routing.contains("_generate_error_reply(400, \"Bad request\")"));
    // the reply pairs the route's plain name with the result
    assert!(routing.contains("serde_json::to_value((\"getRooms\", &d)).unwrap()"));
    assert!(routing.contains("serde_json::to_value((\"sendMessage\", &d)).unwrap()"));
    assert!(!routing.contains("to_value((route_name"));
}

/// The client parser decodes element-wise exactly when the response body is
/// multiple, whatever shape the request body has.
#[test]
fn client_response_parser_multiple() {
    // scalar request, multiple struct response
    let route = ZetroRoute::from_value(
        String::from("getRooms"),
        &jobj(vec![
            ("kind", jstr("query")),
            ("description", jstr("lists rooms")),
            ("request", jstr("string")),
            ("response", jstr("[]struct~Room")),
        ]),
    )
    .unwrap();
    let text = zetro::gen_ts_client::generate_client_class(
        "ZetroQuery",
        1,
        &vec![route],
        true,
        false,
    );
    assert!(text.contains(
        "resultObj.getRooms = item[1].map(function (elem: any) { return deserializeRoom(elem); });"
    ));

    // multiple request, scalar struct response: decoded directly
    let route = ZetroRoute::from_value(
        String::from("getRoom"),
        &jobj(vec![
            ("kind", jstr("query")),
            ("description", jstr("one room")),
            ("request", jstr("[]string")),
            ("response", jstr("struct~Room")),
        ]),
    )
    .unwrap();
    let text = zetro::gen_ts_client::generate_client_class(
        "ZetroQuery",
        1,
        &vec![route],
        true,
        false,
    );
    assert!(text.contains("resultObj.getRoom = deserializeRoom(item[1]);"));
}

/// The client interface and builder classes mangle their public names on
/// request.
#[test]
fn client_class_shape() {
    let iface = zetro::gen_ts_client::generate_api_client_interface(true);
    assert!(iface.contains("makeRequest_: (body: any) => Promise<any>;"));
    let iface_plain = zetro::gen_ts_client::generate_api_client_interface(false);
    assert!(iface_plain.contains("makeRequest: (body: any) => Promise<any>;"));

    let queries = vec![sample_route("getRooms", "query")];
    let mutations: Vec<ZetroRoute> = Vec::new();
    let mut scope: Vec<String> = Vec::new();
    zetro::gen_ts_client::class_client(&mut scope, &queries, &mutations, false, false);
    assert_eq!(scope.len(), 7);
    let class_text = &scope[2];
    assert!(class_text.starts_with("export class ZetroQuery<T = unknown>"));
    assert!(class_text.contains("\tgetRooms(requestBody: string): ZetroQuery<T & {getRooms: number[]}> {"));
    let token = queries[0].encrypt_route_name();
    assert!(class_text.contains(&token));
    assert!(class_text.contains("makeRequest([1, this.state_])"));
    let mutation_class = &scope[5];
    assert!(mutation_class.contains("makeRequest([2, this.state_])"));
}

/// The sample store seeds two active rooms and hands ids out in sequence.
#[test]
fn chat_db_basics() {
    let mut db = Db::new();
    assert_eq!(db.get_rooms().len(), 2);
    assert_eq!(db.get_rooms()[0].name, "Furry cats");
    assert_eq!(db.get_rooms()[1].name, "Differential calculus");
    assert_eq!(db.get_rooms()[0].messages.len(), 2);

    let msg = zetro::chat::Message {
        author: zetro::chat::AuthorRef { username: String::from("hal42") },
        date: 7,
        id: 0,
        text: String::from("hello"),
    };
    let id = db.send_message(0, msg);
    assert_eq!(id, 248949);
    assert_eq!(db.get_rooms()[0].messages.len(), 3);
    assert_eq!(db.get_rooms()[0].messages[2].id, 248949);
    assert_eq!(db.get_rooms()[0].messages[2].text, "hello");

    // a missing room still consumes the id
    let msg2 = zetro::chat::Message {
        author: zetro::chat::AuthorRef { username: String::from("hal42") },
        date: 8,
        id: 0,
        text: String::from("lost"),
    };
    let id2 = db.send_message(99, msg2);
    assert_eq!(id2, 248950);
    assert_eq!(db.get_rooms()[0].messages.len(), 3);
    assert_eq!(db.get_rooms()[1].messages.len(), 3);
}

/// The query surface filters rooms by status; the mutation surface appends
/// and answers with the fresh id.
#[test]
fn chat_handlers() {
    let mut db = Db::new();
    let all = Queries::get_rooms(&db, GetRoomsRequest { with_status: None }).unwrap();
    assert_eq!(all.rooms.len(), 2);

    let active = Queries::get_rooms(
        &db,
        GetRoomsRequest { with_status: Some(RoomStatus::Active) },
    )
    .unwrap();
    assert_eq!(active.rooms.len(), 2);

    let archived = Queries::get_rooms(
        &db,
        GetRoomsRequest { with_status: Some(RoomStatus::Archived) },
    )
    .unwrap();
    assert_eq!(archived.rooms.len(), 0);

    let msg = zetro::chat::Message {
        author: zetro::chat::AuthorRef { username: String::from("mitoch0ndria") },
        date: 9,
        id: 0,
        text: String::from("back again"),
    };
    let id = Mutations::send_message(&mut db, SendMessageRequest { room_id: 1, msg })
        .unwrap();
    assert_eq!(id, 248949);
    assert_eq!(db.get_rooms()[1].messages.len(), 4);
}
