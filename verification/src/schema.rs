//! The schema: collections of structs, enums, queries and mutations, read
//! from one JSON document and checked for unresolved references.

use vstd::prelude::*;
use vstd::string::*;
use crate::enums::{parse_enum, EnumView, ZetroEnum};
use crate::errors::{ErrorKind, ErrorKindView, Offender, OffenderView, SchemaError, SchemaErrorView};
use crate::fields::{field_view, FieldKind, FieldKindView, FieldView, ZetroField};
use crate::json::{
    jps_view, jv_view, lemma_jps_view, member_view, members_view, sort_members,
    sort_object_members, JsonValue, JsonView, MemberView,
};
use crate::routes::{parse_route, RouteKind, RouteView, ZetroRoute};
use crate::structs::{lemma_fields_view, parse_struct, struct_view, StructView, ZetroStruct};
use crate::text::str_eq;

verus! {

/// The typed, validated form of a schema document.
#[derive(Debug)]
pub struct ZetroSchema {
    pub structs: Vec<ZetroStruct>,
    pub enums: Vec<ZetroEnum>,
    pub queries: Vec<ZetroRoute>,
    pub mutations: Vec<ZetroRoute>,
}

/// Mathematical mirror of `ZetroSchema`.
pub struct SchemaView {
    pub structs: Seq<StructView>,
    pub enums: Seq<EnumView>,
    pub queries: Seq<RouteView>,
    pub mutations: Seq<RouteView>,
}

/// View of a struct list.
pub open spec fn structs_view(ss: Seq<ZetroStruct>) -> Seq<StructView> {
    Seq::new(ss.len(), |i: int| struct_view(ss[i]))
}

/// View of an enum list.
pub open spec fn enums_view(es: Seq<ZetroEnum>) -> Seq<EnumView> {
    Seq::new(es.len(), |i: int| es[i]@)
}

/// View of a route list.
pub open spec fn routes_view(rs: Seq<ZetroRoute>) -> Seq<RouteView> {
    Seq::new(rs.len(), |i: int| rs[i]@)
}

impl View for ZetroSchema {
    type V = SchemaView;

    open spec fn view(&self) -> SchemaView {
        SchemaView {
            structs: structs_view(self.structs@),
            enums: enums_view(self.enums@),
            queries: routes_view(self.queries@),
            mutations: routes_view(self.mutations@),
        }
    }
}

/// The mirror of a schema parse's outcome.
pub open spec fn schema_result_view(r: Result<ZetroSchema, SchemaError>)
    -> Result<SchemaView, SchemaErrorView>
{
    match r {
        Result::Ok(s) => Result::Ok(s@),
        Result::Err(e) => Result::Err(e@),
    }
}

/// The mirror of a check's outcome.
pub open spec fn unit_result_view(r: Result<(), SchemaError>) -> Result<(), SchemaErrorView> {
    match r {
        Result::Ok(u) => Result::Ok(u),
        Result::Err(e) => Result::Err(e@),
    }
}

/// The three top-level sections a schema document may carry.
pub struct SchemaSections {
    pub structs: Option<Seq<MemberView>>,
    pub enums: Option<Seq<MemberView>>,
    pub routes: Option<Seq<MemberView>>,
}

/// Reads the document's top-level members in key order: `structs`, `enums`
/// and `routes` must be objects; any other member name is rejected.
pub open spec fn read_schema_sections(members: Seq<MemberView>, acc: SchemaSections)
    -> Result<SchemaSections, SchemaErrorView>
    decreases members.len(),
{
    if members.len() == 0 {
        Result::Ok(acc)
    } else {
        let key = members[0].0;
        let val = members[0].1;
        if key == "structs"@ {
            match val {
                JsonView::Object(sp) => read_schema_sections(
                    members.drop_first(),
                    SchemaSections { structs: Option::Some(sp), ..acc },
                ),
                _ => Result::Err(SchemaErrorView {
                    kind: ErrorKindView::BadFieldValue("structs"@, "an object"@),
                    offender: OffenderView::File("schema.json"@),
                }),
            }
        } else if key == "enums"@ {
            match val {
                JsonView::Object(ep) => read_schema_sections(
                    members.drop_first(),
                    SchemaSections { enums: Option::Some(ep), ..acc },
                ),
                _ => Result::Err(SchemaErrorView {
                    kind: ErrorKindView::BadFieldValue("enums"@, "an object"@),
                    offender: OffenderView::File("schema.json"@),
                }),
            }
        } else if key == "routes"@ {
            match val {
                JsonView::Object(rp) => read_schema_sections(
                    members.drop_first(),
                    SchemaSections { routes: Option::Some(rp), ..acc },
                ),
                _ => Result::Err(SchemaErrorView {
                    kind: ErrorKindView::BadFieldValue("routes"@, "an object"@),
                    offender: OffenderView::File("schema.json"@),
                }),
            }
        } else {
            Result::Err(SchemaErrorView {
                kind: ErrorKindView::UnrecognizedField(key),
                offender: OffenderView::File("schema.json"@),
            })
        }
    }
}

/// What parsing the `structs` section yields, in key order: each member is
/// one struct, and a top-level struct may be neither nullable nor multiple.
pub open spec fn parse_structs_list(work: Seq<MemberView>)
    -> Result<Seq<StructView>, SchemaErrorView>
    decreases work.len(),
{
    if work.len() == 0 {
        Result::Ok(Seq::empty())
    } else {
        match parse_struct(work[0].0, work[0].1) {
            Result::Err(e) => Result::Err(e),
            Result::Ok(st) => {
                if st.is_nullable {
                    Result::Err(SchemaErrorView {
                        kind: ErrorKindView::BadFieldValue("nullable"@, "[empty]"@),
                        offender: OffenderView::Struct(work[0].0),
                    })
                } else if st.is_multiple {
                    Result::Err(SchemaErrorView {
                        kind: ErrorKindView::BadFieldValue("multiple"@, "[empty]"@),
                        offender: OffenderView::Struct(work[0].0),
                    })
                } else {
                    match parse_structs_list(work.drop_first()) {
                        Result::Err(e) => Result::Err(e),
                        Result::Ok(rest) => Result::Ok(seq![st] + rest),
                    }
                }
            },
        }
    }
}

/// What parsing the `enums` section yields, in key order.
pub open spec fn parse_enums_list(work: Seq<MemberView>)
    -> Result<Seq<EnumView>, SchemaErrorView>
    decreases work.len(),
{
    if work.len() == 0 {
        Result::Ok(Seq::empty())
    } else {
        match parse_enum(work[0].0, work[0].1) {
            Result::Err(e) => Result::Err(e),
            Result::Ok(en) => match parse_enums_list(work.drop_first()) {
                Result::Err(e) => Result::Err(e),
                Result::Ok(rest) => Result::Ok(seq![en] + rest),
            },
        }
    }
}

/// What parsing the `routes` section yields, in key order: queries and
/// mutations, each list in document order.
pub open spec fn parse_routes_list(work: Seq<MemberView>)
    -> Result<(Seq<RouteView>, Seq<RouteView>), SchemaErrorView>
    decreases work.len(),
{
    if work.len() == 0 {
        Result::Ok((Seq::empty(), Seq::empty()))
    } else {
        match parse_route(work[0].0, work[0].1) {
            Result::Err(e) => Result::Err(e),
            Result::Ok(rt) => match parse_routes_list(work.drop_first()) {
                Result::Err(e) => Result::Err(e),
                Result::Ok((qs, ms)) => {
                    if rt.kind == RouteKind::Query {
                        Result::Ok((seq![rt] + qs, ms))
                    } else {
                        Result::Ok((qs, seq![rt] + ms))
                    }
                },
            },
        }
    }
}

/// Whether `n` is one of the declared names.
pub open spec fn name_listed(names: Seq<Seq<char>>, n: Seq<char>) -> bool {
    exists|i: int| 0 <= i < names.len() && names[i] == n
}

/// The declared struct names.
pub open spec fn struct_names(ss: Seq<StructView>) -> Seq<Seq<char>> {
    Seq::new(ss.len(), |i: int| ss[i].name)
}

/// The declared enum names.
pub open spec fn enum_names(es: Seq<EnumView>) -> Seq<Seq<char>> {
    Seq::new(es.len(), |i: int| es[i].name)
}

/// Whether one field's reference resolves: a struct or enum reference must
/// name a declared struct or enum, and a nested object is checked through.
pub open spec fn check_field_v(
    sn: Seq<Seq<char>>,
    en: Seq<Seq<char>>,
    f: FieldView,
) -> Result<(), SchemaErrorView>
    decreases f,
{
    match f.kind {
        FieldKindView::StructValue(n) => if !name_listed(sn, n) {
            Result::Err(SchemaErrorView {
                kind: ErrorKindView::InvalidReference(n),
                offender: OffenderView::Field(n, f.name),
            })
        } else {
            Result::Ok(())
        },
        FieldKindView::EnumValue(n) => if !name_listed(en, n) {
            Result::Err(SchemaErrorView {
                kind: ErrorKindView::InvalidReference(n),
                offender: OffenderView::Field(n, f.name),
            })
        } else {
            Result::Ok(())
        },
        FieldKindView::NestedObject(obj) => check_struct_v(sn, en, obj),
        _ => Result::Ok(()),
    }
}

/// Whether every reference in a struct's fields resolves.
pub open spec fn check_struct_v(
    sn: Seq<Seq<char>>,
    en: Seq<Seq<char>>,
    s: StructView,
) -> Result<(), SchemaErrorView>
    decreases s,
{
    check_fields_v(sn, en, s.fields)
}

/// Whether every reference in a field list resolves; the first failure wins.
pub open spec fn check_fields_v(
    sn: Seq<Seq<char>>,
    en: Seq<Seq<char>>,
    fs: Seq<FieldView>,
) -> Result<(), SchemaErrorView>
    decreases fs,
{
    if fs.len() == 0 {
        Result::Ok(())
    } else {
        match check_field_v(sn, en, fs[0]) {
            Result::Err(e) => Result::Err(e),
            Result::Ok(_) => check_fields_v(sn, en, fs.drop_first()),
        }
    }
}

/// Whether every reference in a struct list resolves.
pub open spec fn check_structs_v(
    sn: Seq<Seq<char>>,
    en: Seq<Seq<char>>,
    ss: Seq<StructView>,
) -> Result<(), SchemaErrorView>
    decreases ss.len(),
{
    if ss.len() == 0 {
        Result::Ok(())
    } else {
        match check_struct_v(sn, en, ss[0]) {
            Result::Err(e) => Result::Err(e),
            Result::Ok(_) => check_structs_v(sn, en, ss.drop_first()),
        }
    }
}

/// Whether every reference in a route list's bodies resolves: the request
/// body first, then the response body.
pub open spec fn check_routes_v(
    sn: Seq<Seq<char>>,
    en: Seq<Seq<char>>,
    rs: Seq<RouteView>,
) -> Result<(), SchemaErrorView>
    decreases rs.len(),
{
    if rs.len() == 0 {
        Result::Ok(())
    } else {
        match check_field_v(sn, en, rs[0].request_body) {
            Result::Err(e) => Result::Err(e),
            Result::Ok(_) => match check_field_v(sn, en, rs[0].response_body) {
                Result::Err(e) => Result::Err(e),
                Result::Ok(_) => check_routes_v(sn, en, rs.drop_first()),
            },
        }
    }
}

/// Whether every struct and enum reference in the schema resolves: every
/// struct's fields, every nested object, and both bodies of every route.
pub open spec fn check_schema_v(s: SchemaView) -> Result<(), SchemaErrorView> {
    let sn = struct_names(s.structs);
    let en = enum_names(s.enums);
    match check_structs_v(sn, en, s.structs) {
        Result::Err(e) => Result::Err(e),
        Result::Ok(_) => match check_routes_v(sn, en, s.queries) {
            Result::Err(e) => Result::Err(e),
            Result::Ok(_) => check_routes_v(sn, en, s.mutations),
        },
    }
}

/// No sections read yet.
pub open spec fn no_sections() -> SchemaSections {
    SchemaSections { structs: Option::None, enums: Option::None, routes: Option::None }
}

/// What parsing a schema document yields: its sections read in key order,
/// each section's entries parsed in key order, then the reference check.
pub open spec fn parse_schema(v: JsonView) -> Result<SchemaView, SchemaErrorView> {
    match v {
        JsonView::Object(members) => {
            match read_schema_sections(sort_members(members), no_sections()) {
                Result::Err(e) => Result::Err(e),
                Result::Ok(secs) => {
                    let swork = match secs.structs {
                        Option::None => Seq::<MemberView>::empty(),
                        Option::Some(sp) => sort_members(sp),
                    };
                    let ework = match secs.enums {
                        Option::None => Seq::<MemberView>::empty(),
                        Option::Some(ep) => sort_members(ep),
                    };
                    let rwork = match secs.routes {
                        Option::None => Seq::<MemberView>::empty(),
                        Option::Some(rp) => sort_members(rp),
                    };
                    match parse_structs_list(swork) {
                        Result::Err(e) => Result::Err(e),
                        Result::Ok(ss) => match parse_enums_list(ework) {
                            Result::Err(e) => Result::Err(e),
                            Result::Ok(es) => match parse_routes_list(rwork) {
                                Result::Err(e) => Result::Err(e),
                                Result::Ok((qs, ms)) => {
                                    let schema = SchemaView {
                                        structs: ss,
                                        enums: es,
                                        queries: qs,
                                        mutations: ms,
                                    };
                                    match check_schema_v(schema) {
                                        Result::Err(e) => Result::Err(e),
                                        Result::Ok(_) => Result::Ok(schema),
                                    }
                                },
                            },
                        },
                    }
                },
            }
        },
        _ => Result::Err(SchemaErrorView {
            kind: ErrorKindView::BadFieldValue("schema.json"@, "an object"@),
            offender: OffenderView::File("schema.json"@),
        }),
    }
}

/// The sections an exec scan stands for.
pub open spec fn secs_of(
    structs_val: Option<&JsonValue>,
    enums_val: Option<&JsonValue>,
    routes_val: Option<&JsonValue>,
) -> SchemaSections {
    SchemaSections {
        structs: match structs_val {
            Option::None => Option::None,
            Option::Some(q) => Option::Some(jv_view(*q)->Object_0),
        },
        enums: match enums_val {
            Option::None => Option::None,
            Option::Some(q) => Option::Some(jv_view(*q)->Object_0),
        },
        routes: match routes_val {
            Option::None => Option::None,
            Option::Some(q) => Option::Some(jv_view(*q)->Object_0),
        },
    }
}

impl ZetroSchema {
    /// Lifts a whole schema document into its typed, validated form.
    #[verifier::loop_isolation(false)]
    #[verifier::rlimit(100)]
    pub fn from_value(value: &JsonValue) -> (r: Result<ZetroSchema, SchemaError>)
        ensures
            schema_result_view(r) == parse_schema(value@),
    {
        proof {
            reveal_strlit("structs");
            reveal_strlit("enums");
            reveal_strlit("routes");
        }
        let members: &Vec<(String, JsonValue)> = match value {
            JsonValue::Object(m) => m,
            _ => {
                return Result::Err(SchemaError {
                    kind: ErrorKind::BadFieldValue(
                        String::from_str("schema.json"),
                        String::from_str("an object"),
                    ),
                    offender: Offender::File(String::from_str("schema.json")),
                });
            },
        };
        let ghost mv = jps_view(members@);
        assert(value@ == JsonView::Object(mv));
        let sorted = crate::json::sorted_members(members);
        let ghost sview = sort_members(mv);

        let ghost init = SchemaSections {
            structs: Option::None,
            enums: Option::None,
            routes: Option::None,
        };
        let mut structs_val: Option<&JsonValue> = Option::None;
        let mut enums_val: Option<&JsonValue> = Option::None;
        let mut routes_val: Option<&JsonValue> = Option::None;
        let mut i: usize = 0;
        assert(sview.skip(0) =~= sview);
        while i < sorted.len()
            invariant
                i <= sorted.len(),
                read_schema_sections(sview, init) == read_schema_sections(
                    sview.skip(i as int),
                    secs_of(structs_val, enums_val, routes_val),
                ),
                structs_val matches Option::Some(q) ==> jv_view(*q) is Object,
                enums_val matches Option::Some(q) ==> jv_view(*q) is Object,
                routes_val matches Option::Some(q) ==> jv_view(*q) is Object,
            decreases sorted.len() - i,
        {
            let p: &(String, JsonValue) = sorted[i];
            proof {
                assert(members_view(sorted@)[i as int] == member_view(p));
                assert(sview.skip(i as int)[0] == sview[i as int]);
                assert(sview.skip(i as int).drop_first() =~= sview.skip(i as int + 1));
            }
            if str_eq(p.0.as_str(), "structs") {
                match &p.1 {
                    JsonValue::Object(_) => {
                        structs_val = Option::Some(&p.1);
                    },
                    _ => {
                        return Result::Err(SchemaError {
                            kind: ErrorKind::BadFieldValue(
                                String::from_str("structs"),
                                String::from_str("an object"),
                            ),
                            offender: Offender::File(String::from_str("schema.json")),
                        });
                    },
                }
            } else if str_eq(p.0.as_str(), "enums") {
                match &p.1 {
                    JsonValue::Object(_) => {
                        enums_val = Option::Some(&p.1);
                    },
                    _ => {
                        return Result::Err(SchemaError {
                            kind: ErrorKind::BadFieldValue(
                                String::from_str("enums"),
                                String::from_str("an object"),
                            ),
                            offender: Offender::File(String::from_str("schema.json")),
                        });
                    },
                }
            } else if str_eq(p.0.as_str(), "routes") {
                match &p.1 {
                    JsonValue::Object(_) => {
                        routes_val = Option::Some(&p.1);
                    },
                    _ => {
                        return Result::Err(SchemaError {
                            kind: ErrorKind::BadFieldValue(
                                String::from_str("routes"),
                                String::from_str("an object"),
                            ),
                            offender: Offender::File(String::from_str("schema.json")),
                        });
                    },
                }
            } else {
                return Result::Err(SchemaError {
                    kind: ErrorKind::UnrecognizedField(p.0.clone()),
                    offender: Offender::File(String::from_str("schema.json")),
                });
            }
            i += 1;
        }
        proof {
            assert(sview.skip(sorted@.len() as int) =~= Seq::<MemberView>::empty());
        }
        let ghost secs = secs_of(structs_val, enums_val, routes_val);
        let ghost swork = match secs.structs {
            Option::None => Seq::<MemberView>::empty(),
            Option::Some(sp) => sort_members(sp),
        };
        let ghost ework = match secs.enums {
            Option::None => Seq::<MemberView>::empty(),
            Option::Some(ep) => sort_members(ep),
        };
        let ghost rwork = match secs.routes {
            Option::None => Seq::<MemberView>::empty(),
            Option::Some(rp) => sort_members(rp),
        };

        // structs
        let mut structs: Vec<ZetroStruct> = Vec::new();
        assert(structs_view(structs@) =~= Seq::<StructView>::empty());
        match structs_val {
            Option::None => {
                assert(swork =~= Seq::<MemberView>::empty());
            },
            Option::Some(sval) => {
                let inner: &Vec<(String, JsonValue)> = match sval {
                    JsonValue::Object(m) => m,
                    _ => vstd::pervasive::unreached(),
                };
                let ssorted = crate::json::sorted_members(inner);
                assert(swork == members_view(ssorted@));
                let mut x: usize = 0;
                assert(swork.skip(0) =~= swork);
                while x < ssorted.len()
                    invariant
                        x <= ssorted.len(),
                        swork == members_view(ssorted@),
                        ssorted@.len() == swork.len(),
                        ({
                            let whole = parse_structs_list(swork);
                            let tail = parse_structs_list(swork.skip(x as int));
                            whole == match tail {
                                Result::Err(e) => Result::<Seq<StructView>, SchemaErrorView>::Err(e),
                                Result::Ok(rest) => Result::Ok(structs_view(structs@) + rest),
                            }
                        }),
                    decreases ssorted.len() - x,
                {
                    let p: &(String, JsonValue) = ssorted[x];
                    proof {
                        assert(members_view(ssorted@)[x as int] == member_view(p));
                        assert(swork.skip(x as int)[0] == swork[x as int]);
                        assert(swork.skip(x as int).drop_first() =~= swork.skip(x as int + 1));
                    }
                    let st = match ZetroStruct::from_value(p.0.clone(), &p.1) {
                        Result::Ok(st) => st,
                        Result::Err(e) => {
                            return Result::Err(e);
                        },
                    };
                    if st.is_nullable {
                        return Result::Err(SchemaError {
                            kind: ErrorKind::BadFieldValue(
                                String::from_str("nullable"),
                                String::from_str("[empty]"),
                            ),
                            offender: Offender::Struct(p.0.clone()),
                        });
                    }
                    if st.is_multiple {
                        return Result::Err(SchemaError {
                            kind: ErrorKind::BadFieldValue(
                                String::from_str("multiple"),
                                String::from_str("[empty]"),
                            ),
                            offender: Offender::Struct(p.0.clone()),
                        });
                    }
                    let ghost s0 = structs@;
                    structs.push(st);
                    proof {
                        assert(structs@ =~= s0.push(st));
                        assert forall|rest: Seq<StructView>|
                            structs_view(s0) + (seq![struct_view(st)] + rest)
                                =~= structs_view(structs@) + rest by {
                            assert(structs_view(structs@) =~= structs_view(s0)
                                + seq![struct_view(st)]);
                        }
                    }
                    x += 1;
                }
                proof {
                    assert(swork.skip(ssorted@.len() as int) =~= Seq::<MemberView>::empty());
                }
            },
        }
        proof {
            assert(structs_view(structs@) + Seq::<StructView>::empty()
                =~= structs_view(structs@));
        }

        // enums
        let mut enums: Vec<ZetroEnum> = Vec::new();
        assert(enums_view(enums@) =~= Seq::<EnumView>::empty());
        match enums_val {
            Option::None => {
                assert(ework =~= Seq::<MemberView>::empty());
            },
            Option::Some(eval) => {
                let inner: &Vec<(String, JsonValue)> = match eval {
                    JsonValue::Object(m) => m,
                    _ => vstd::pervasive::unreached(),
                };
                let esorted = crate::json::sorted_members(inner);
                assert(ework == members_view(esorted@));
                let mut x: usize = 0;
                assert(ework.skip(0) =~= ework);
                while x < esorted.len()
                    invariant
                        x <= esorted.len(),
                        ework == members_view(esorted@),
                        esorted@.len() == ework.len(),
                        ({
                            let whole = parse_enums_list(ework);
                            let tail = parse_enums_list(ework.skip(x as int));
                            whole == match tail {
                                Result::Err(e) => Result::<Seq<EnumView>, SchemaErrorView>::Err(e),
                                Result::Ok(rest) => Result::Ok(enums_view(enums@) + rest),
                            }
                        }),
                    decreases esorted.len() - x,
                {
                    let p: &(String, JsonValue) = esorted[x];
                    proof {
                        assert(members_view(esorted@)[x as int] == member_view(p));
                        assert(ework.skip(x as int)[0] == ework[x as int]);
                        assert(ework.skip(x as int).drop_first() =~= ework.skip(x as int + 1));
                    }
                    let en = match ZetroEnum::from_value(p.0.clone(), &p.1) {
                        Result::Ok(en) => en,
                        Result::Err(e) => {
                            return Result::Err(e);
                        },
                    };
                    let ghost e0 = enums@;
                    enums.push(en);
                    proof {
                        assert(enums@ =~= e0.push(en));
                        assert forall|rest: Seq<EnumView>|
                            enums_view(e0) + (seq![en@] + rest)
                                =~= enums_view(enums@) + rest by {
                            assert(enums_view(enums@) =~= enums_view(e0) + seq![en@]);
                        }
                    }
                    x += 1;
                }
                proof {
                    assert(ework.skip(esorted@.len() as int) =~= Seq::<MemberView>::empty());
                }
            },
        }
        proof {
            assert(enums_view(enums@) + Seq::<EnumView>::empty() =~= enums_view(enums@));
        }

        // routes
        let mut queries: Vec<ZetroRoute> = Vec::new();
        let mut mutations: Vec<ZetroRoute> = Vec::new();
        assert(routes_view(queries@) =~= Seq::<RouteView>::empty());
        assert(routes_view(mutations@) =~= Seq::<RouteView>::empty());
        match routes_val {
            Option::None => {
                assert(rwork =~= Seq::<MemberView>::empty());
            },
            Option::Some(rval) => {
                let inner: &Vec<(String, JsonValue)> = match rval {
                    JsonValue::Object(m) => m,
                    _ => vstd::pervasive::unreached(),
                };
                let rsorted = crate::json::sorted_members(inner);
                assert(rwork == members_view(rsorted@));
                let mut x: usize = 0;
                assert(rwork.skip(0) =~= rwork);
                while x < rsorted.len()
                    invariant
                        x <= rsorted.len(),
                        rwork == members_view(rsorted@),
                        rsorted@.len() == rwork.len(),
                        ({
                            let whole = parse_routes_list(rwork);
                            let tail = parse_routes_list(rwork.skip(x as int));
                            whole == match tail {
                                Result::Err(e) => Result::<
                                    (Seq<RouteView>, Seq<RouteView>),
                                    SchemaErrorView,
                                >::Err(e),
                                Result::Ok(rest) => Result::Ok((
                                    routes_view(queries@) + rest.0,
                                    routes_view(mutations@) + rest.1,
                                )),
                            }
                        }),
                    decreases rsorted.len() - x,
                {
                    let p: &(String, JsonValue) = rsorted[x];
                    proof {
                        assert(members_view(rsorted@)[x as int] == member_view(p));
                        assert(rwork.skip(x as int)[0] == rwork[x as int]);
                        assert(rwork.skip(x as int).drop_first() =~= rwork.skip(x as int + 1));
                    }
                    let rt = match ZetroRoute::from_value(p.0.clone(), &p.1) {
                        Result::Ok(rt) => rt,
                        Result::Err(e) => {
                            return Result::Err(e);
                        },
                    };
                    let is_query = match &rt.kind {
                        RouteKind::Query => true,
                        RouteKind::Mutation => false,
                    };
                    if is_query {
                        let ghost q0 = queries@;
                        queries.push(rt);
                        proof {
                            assert(queries@ =~= q0.push(queries@[q0.len() as int]));
                            let rtv = routes_view(queries@)[q0.len() as int];
                            assert forall|rest: Seq<RouteView>|
                                routes_view(q0) + (seq![rtv] + rest)
                                    =~= routes_view(queries@) + rest by {
                                assert(routes_view(queries@) =~= routes_view(q0) + seq![rtv]);
                            }
                        }
                    } else {
                        let ghost m0 = mutations@;
                        mutations.push(rt);
                        proof {
                            let rtv = routes_view(mutations@)[m0.len() as int];
                            assert forall|rest: Seq<RouteView>|
                                routes_view(m0) + (seq![rtv] + rest)
                                    =~= routes_view(mutations@) + rest by {
                                assert(routes_view(mutations@) =~= routes_view(m0) + seq![rtv]);
                            }
                        }
                    }
                    x += 1;
                }
                proof {
                    assert(rwork.skip(rsorted@.len() as int) =~= Seq::<MemberView>::empty());
                }
            },
        }
        proof {
            assert(routes_view(queries@) + Seq::<RouteView>::empty() =~= routes_view(queries@));
            assert(routes_view(mutations@) + Seq::<RouteView>::empty()
                =~= routes_view(mutations@));
        }

        let schema = ZetroSchema { structs, enums, queries, mutations };
        match schema.check_schema() {
            Result::Ok(_) => {},
            Result::Err(e) => {
                return Result::Err(e);
            },
        }
        Result::Ok(schema)
    }
}

/// View of a name manifest.
pub open spec fn names_view(ns: Seq<String>) -> Seq<Seq<char>> {
    Seq::new(ns.len(), |i: int| ns[i]@)
}

/// Whether `n` stands in the manifest.
fn name_in(names: &Vec<String>, n: &str) -> (r: bool)
    ensures
        r == name_listed(names_view(names@), n@),
{
    let mut i: usize = 0;
    while i < names.len()
        invariant
            i <= names.len(),
            forall|k: int| 0 <= k < i ==> names_view(names@)[k] != n@,
        decreases names.len() - i,
    {
        if str_eq(names[i].as_str(), n) {
            assert(names_view(names@)[i as int] == n@);
            return true;
        }
        i += 1;
    }
    assert(forall|k: int| 0 <= k < names@.len() ==> names_view(names@)[k] != n@);
    false
}

impl ZetroSchema {
    /// Checks one field's references against the declared names.
    pub fn check_field(
        struct_manifest: &Vec<String>,
        enum_manifest: &Vec<String>,
        field: &ZetroField,
    ) -> (r: Result<(), SchemaError>)
        ensures
            unit_result_view(r) == check_field_v(
                names_view(struct_manifest@),
                names_view(enum_manifest@),
                field@,
            ),
        decreases field@,
    {
        match &field.kind {
            FieldKind::StructValue(struct_name) => {
                if !name_in(struct_manifest, struct_name.as_str()) {
                    Result::Err(SchemaError {
                        kind: ErrorKind::InvalidReference(struct_name.clone()),
                        offender: Offender::Field(struct_name.clone(), field.name.clone()),
                    })
                } else {
                    Result::Ok(())
                }
            },
            FieldKind::EnumValue(enum_name) => {
                if !name_in(enum_manifest, enum_name.as_str()) {
                    Result::Err(SchemaError {
                        kind: ErrorKind::InvalidReference(enum_name.clone()),
                        offender: Offender::Field(enum_name.clone(), field.name.clone()),
                    })
                } else {
                    Result::Ok(())
                }
            },
            FieldKind::NestedObject(obj) => {
                proof {
                    let fv = field_view(*field);
                    assert(decreases_to!(fv => fv.kind));
                    let k = fv.kind;
                    assert(decreases_to!(k => k->NestedObject_0));
                    assert(k->NestedObject_0 == struct_view(*obj));
                }
                Self::check_struct(struct_manifest, enum_manifest, obj)
            },
            _ => Result::Ok(()),
        }
    }

    /// Checks every field of one struct against the declared names.
    #[verifier::loop_isolation(false)]
    pub fn check_struct(
        struct_manifest: &Vec<String>,
        enum_manifest: &Vec<String>,
        _struct: &ZetroStruct,
    ) -> (r: Result<(), SchemaError>)
        ensures
            unit_result_view(r) == check_struct_v(
                names_view(struct_manifest@),
                names_view(enum_manifest@),
                _struct@,
            ),
        decreases _struct@,
    {
        let ghost sn = names_view(struct_manifest@);
        let ghost en = names_view(enum_manifest@);
        let ghost fvs = crate::structs::fields_view(_struct.fields@);
        proof {
            lemma_fields_view(_struct.fields@);
        }
        let mut i: usize = 0;
        assert(fvs.skip(0) =~= fvs);
        while i < _struct.fields.len()
            invariant
                i <= _struct.fields.len(),
                check_fields_v(sn, en, fvs) == check_fields_v(sn, en, fvs.skip(i as int)),
            decreases _struct.fields.len() - i,
        {
            proof {
                assert(fvs.skip(i as int)[0] == fvs[i as int]);
                assert(fvs[i as int] == field_view(_struct.fields@[i as int]));
                assert(fvs.skip(i as int).drop_first() =~= fvs.skip(i as int + 1));
                let sv = struct_view(*_struct);
                assert(decreases_to!(sv => sv.fields));
                assert(decreases_to!(sv.fields => sv.fields[i as int]));
                assert(sv.fields[i as int] == field_view(_struct.fields@[i as int]));
            }
            match Self::check_field(struct_manifest, enum_manifest, &_struct.fields[i]) {
                Result::Ok(_) => {},
                Result::Err(e) => {
                    return Result::Err(e);
                },
            }
            i += 1;
        }
        proof {
            assert(fvs.skip(_struct.fields@.len() as int) =~= Seq::<FieldView>::empty());
        }
        Result::Ok(())
    }

    /// Checks the whole schema for unresolved references.
    #[verifier::loop_isolation(false)]
    pub fn check_schema(&self) -> (r: Result<(), SchemaError>)
        ensures
            unit_result_view(r) == check_schema_v(self@),
    {
        let ghost sv = self@;
        let mut struct_manifest: Vec<String> = Vec::new();
        let mut enum_manifest: Vec<String> = Vec::new();
        let mut j: usize = 0;
        while j < self.enums.len()
            invariant
                j <= self.enums.len(),
                enum_manifest@.len() == j,
                forall|k: int| 0 <= k < j ==> enum_manifest@[k]@ == enum_names(sv.enums)[k],
            decreases self.enums.len() - j,
        {
            enum_manifest.push(self.enums[j].name.clone());
            j += 1;
        }
        proof {
            assert(names_view(enum_manifest@) =~= enum_names(sv.enums));
        }
        // struct names
        let mut k: usize = 0;
        while k < self.structs.len()
            invariant
                k <= self.structs.len(),
                struct_manifest@.len() == k,
                forall|x: int| 0 <= x < k ==> struct_manifest@[x]@ == struct_names(sv.structs)[x],
            decreases self.structs.len() - k,
        {
            struct_manifest.push(self.structs[k].name.clone());
            k += 1;
        }
        proof {
            assert(names_view(struct_manifest@) =~= struct_names(sv.structs));
        }
        let ghost sn = struct_names(sv.structs);
        let ghost en = enum_names(sv.enums);

        let mut x: usize = 0;
        assert(sv.structs.skip(0) =~= sv.structs);
        while x < self.structs.len()
            invariant
                x <= self.structs.len(),
                names_view(struct_manifest@) == sn,
                names_view(enum_manifest@) == en,
                check_structs_v(sn, en, sv.structs)
                    == check_structs_v(sn, en, sv.structs.skip(x as int)),
            decreases self.structs.len() - x,
        {
            proof {
                assert(sv.structs.skip(x as int)[0] == sv.structs[x as int]);
                assert(sv.structs.skip(x as int).drop_first() =~= sv.structs.skip(x as int + 1));
            }
            match Self::check_struct(&struct_manifest, &enum_manifest, &self.structs[x]) {
                Result::Ok(_) => {},
                Result::Err(e) => {
                    return Result::Err(e);
                },
            }
            x += 1;
        }
        proof {
            assert(sv.structs.skip(self.structs@.len() as int) =~= Seq::<StructView>::empty());
        }

        let mut q: usize = 0;
        assert(sv.queries.skip(0) =~= sv.queries);
        while q < self.queries.len()
            invariant
                q <= self.queries.len(),
                names_view(struct_manifest@) == sn,
                names_view(enum_manifest@) == en,
                check_structs_v(sn, en, sv.structs) is Ok,
                check_routes_v(sn, en, sv.queries)
                    == check_routes_v(sn, en, sv.queries.skip(q as int)),
            decreases self.queries.len() - q,
        {
            proof {
                assert(sv.queries.skip(q as int)[0] == sv.queries[q as int]);
                assert(sv.queries.skip(q as int).drop_first() =~= sv.queries.skip(q as int + 1));
            }
            match Self::check_field(&struct_manifest, &enum_manifest, &self.queries[q].request_body) {
                Result::Ok(_) => {},
                Result::Err(e) => {
                    return Result::Err(e);
                },
            }
            match Self::check_field(&struct_manifest, &enum_manifest, &self.queries[q].response_body) {
                Result::Ok(_) => {},
                Result::Err(e) => {
                    return Result::Err(e);
                },
            }
            q += 1;
        }
        proof {
            assert(sv.queries.skip(self.queries@.len() as int) =~= Seq::<RouteView>::empty());
        }

        let mut m: usize = 0;
        assert(sv.mutations.skip(0) =~= sv.mutations);
        while m < self.mutations.len()
            invariant
                m <= self.mutations.len(),
                names_view(struct_manifest@) == sn,
                names_view(enum_manifest@) == en,
                check_structs_v(sn, en, sv.structs) is Ok,
                check_routes_v(sn, en, sv.queries) is Ok,
                check_routes_v(sn, en, sv.mutations)
                    == check_routes_v(sn, en, sv.mutations.skip(m as int)),
            decreases self.mutations.len() - m,
        {
            proof {
                assert(sv.mutations.skip(m as int)[0] == sv.mutations[m as int]);
                assert(sv.mutations.skip(m as int).drop_first()
                    =~= sv.mutations.skip(m as int + 1));
            }
            match Self::check_field(&struct_manifest, &enum_manifest, &self.mutations[m].request_body) {
                Result::Ok(_) => {},
                Result::Err(e) => {
                    return Result::Err(e);
                },
            }
            match Self::check_field(&struct_manifest, &enum_manifest, &self.mutations[m].response_body) {
                Result::Ok(_) => {},
                Result::Err(e) => {
                    return Result::Err(e);
                },
            }
            m += 1;
        }
        proof {
            assert(sv.mutations.skip(self.mutations@.len() as int) =~= Seq::<RouteView>::empty());
        }
        Result::Ok(())
    }
}

} // verus!
