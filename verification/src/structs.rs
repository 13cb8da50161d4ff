//! Schema structs: a named, described, ordered collection of fields.
//! Fields are ordered on insertion by the byte order of their names, so
//! uppercase ASCII sorts before lowercase ASCII.

use vstd::prelude::*;
use vstd::string::*;
use vstd::pervasive::unreached;
use crate::errors::{ErrorKind, ErrorKindView, Offender, OffenderView, SchemaError, SchemaErrorView};
use crate::fields::{field_view, parse_field, FieldView, ZetroField};
use crate::json::{
    jps_view, jv_view, lemma_jps_view, lemma_sort_members_elems, member_of, member_view,
    members_view, members_within, sort_members, sort_object_members, JsonValue, JsonView,
    MemberView,
};
use crate::text::str_eq;

verus! {

/// A named collection of fields, akin to an object in JavaScript or a
/// class in Python.
#[derive(Debug)]
pub struct ZetroStruct {
    /// Name of the struct.
    pub name: String,
    /// Mandatory description for this struct.
    pub description: String,
    /// Is this struct nullable? Always false for top-level structs.
    pub is_nullable: bool,
    /// Is this struct represented in a list? Always false for top-level structs.
    pub is_multiple: bool,
    /// The fields, ordered by name from uppercase A to lowercase z.
    pub fields: Vec<ZetroField>,
}

/// Mathematical mirror of `ZetroStruct`.
pub struct StructView {
    pub name: Seq<char>,
    pub description: Seq<char>,
    pub is_nullable: bool,
    pub is_multiple: bool,
    pub fields: Seq<FieldView>,
}

/// View of a field list.
pub open spec fn fields_view(fs: Seq<ZetroField>) -> Seq<FieldView>
    decreases fs,
{
    if fs.len() == 0 {
        Seq::empty()
    } else {
        seq![field_view(fs[0])] + fields_view(fs.drop_first())
    }
}

/// The field-list view is pointwise.
pub proof fn lemma_fields_view(fs: Seq<ZetroField>)
    ensures
        fields_view(fs).len() == fs.len(),
        forall|i: int| 0 <= i < fs.len() ==> fields_view(fs)[i] == field_view(fs[i]),
    decreases fs,
{
    if fs.len() > 0 {
        lemma_fields_view(fs.drop_first());
    }
}

/// View of a struct.
pub open spec fn struct_view(s: ZetroStruct) -> StructView
    decreases s,
{
    StructView {
        name: s.name@,
        description: s.description@,
        is_nullable: s.is_nullable,
        is_multiple: s.is_multiple,
        fields: fields_view(s.fields@),
    }
}

impl View for ZetroStruct {
    type V = StructView;

    open spec fn view(&self) -> StructView {
        struct_view(*self)
    }
}

/// The mirror of a struct parse's outcome.
pub open spec fn struct_result_view(r: Result<ZetroStruct, SchemaError>)
    -> Result<StructView, SchemaErrorView>
{
    match r {
        Result::Ok(s) => Result::Ok(struct_view(s)),
        Result::Err(e) => Result::Err(e@),
    }
}

/// The mirror of a field-list parse's outcome.
pub open spec fn fields_result_view(r: Result<Vec<ZetroField>, SchemaError>)
    -> Result<Seq<FieldView>, SchemaErrorView>
{
    match r {
        Result::Ok(fs) => Result::Ok(fields_view(fs@)),
        Result::Err(e) => Result::Err(e@),
    }
}

/// The name a nested anonymous struct is lifted under.
pub open spec fn nested_struct_name(parent: Seq<char>, field: Seq<char>) -> Seq<char> {
    parent + "_"@ + field
}

/// Derives the name for a struct declared inline inside a field.
pub fn generate_nested_struct_name(struct_name: &str, field_name: &str) -> (r: String)
    ensures
        r@ == nested_struct_name(struct_name@, field_name@),
{
    let mut out = struct_name.to_owned();
    out.append("_");
    out.append(field_name);
    out
}

/// The accumulated struct properties while reading an object's members.
pub struct StructProps {
    pub description: Option<Seq<char>>,
    pub multiple: bool,
    pub nullable: bool,
    pub fields: Option<Seq<MemberView>>,
}

/// Reads the members of a struct object in key order: `description` must be
/// a string, `multiple` and `nullable` booleans, `fields` an object; any
/// other member name is rejected. A later member wins over an earlier equal
/// name.
pub open spec fn read_struct_props(
    struct_name: Seq<char>,
    members: Seq<MemberView>,
    acc: StructProps,
) -> Result<StructProps, SchemaErrorView>
    decreases members.len(),
{
    if members.len() == 0 {
        Result::Ok(acc)
    } else {
        let key = members[0].0;
        let val = members[0].1;
        if key == "description"@ {
            match val {
                JsonView::Str(d) => read_struct_props(
                    struct_name,
                    members.drop_first(),
                    StructProps { description: Option::Some(d), ..acc },
                ),
                _ => Result::Err(SchemaErrorView {
                    kind: ErrorKindView::BadFieldValue("description"@, "a string"@),
                    offender: OffenderView::Field(struct_name, "description"@),
                }),
            }
        } else if key == "multiple"@ {
            match val {
                JsonView::Bool(b) => read_struct_props(
                    struct_name,
                    members.drop_first(),
                    StructProps { multiple: b, ..acc },
                ),
                _ => Result::Err(SchemaErrorView {
                    kind: ErrorKindView::BadFieldValue("multiple"@, "a boolean"@),
                    offender: OffenderView::Field(struct_name, "multiple"@),
                }),
            }
        } else if key == "nullable"@ {
            match val {
                JsonView::Bool(b) => read_struct_props(
                    struct_name,
                    members.drop_first(),
                    StructProps { nullable: b, ..acc },
                ),
                _ => Result::Err(SchemaErrorView {
                    kind: ErrorKindView::BadFieldValue("nullable"@, "a boolean"@),
                    offender: OffenderView::Field(struct_name, "nullable"@),
                }),
            }
        } else if key == "fields"@ {
            match val {
                JsonView::Object(fp) => read_struct_props(
                    struct_name,
                    members.drop_first(),
                    StructProps { fields: Option::Some(fp), ..acc },
                ),
                _ => Result::Err(SchemaErrorView {
                    kind: ErrorKindView::BadFieldValue("fields"@, "an object"@),
                    offender: OffenderView::Field(struct_name, "fields"@),
                }),
            }
        } else {
            Result::Err(SchemaErrorView {
                kind: ErrorKindView::UnrecognizedField(key),
                offender: OffenderView::Struct(struct_name),
            })
        }
    }
}

/// Where a `fields` table in the outcome of `read_struct_props` comes from:
/// either the accumulator already held it, or some member's value is that
/// object.
pub proof fn lemma_read_props_fields_source(
    struct_name: Seq<char>,
    members: Seq<MemberView>,
    acc: StructProps,
)
    requires
        read_struct_props(struct_name, members, acc) is Ok,
    ensures
        match read_struct_props(struct_name, members, acc)->Ok_0.fields {
            Option::None => true,
            Option::Some(fp) => acc.fields == Option::Some(fp) || exists|i: int|
                0 <= i < members.len() && #[trigger] members[i].1 == JsonView::Object(fp),
        },
    decreases members.len(),
{
    if members.len() == 0 {
    } else {
        let key = members[0].0;
        let val = members[0].1;
        let acc2 = if key == "description"@ {
            match val {
                JsonView::Str(d) => Option::Some(
                    StructProps { description: Option::Some(d), ..acc },
                ),
                _ => Option::None,
            }
        } else if key == "multiple"@ {
            match val {
                JsonView::Bool(b) => Option::Some(StructProps { multiple: b, ..acc }),
                _ => Option::None,
            }
        } else if key == "nullable"@ {
            match val {
                JsonView::Bool(b) => Option::Some(StructProps { nullable: b, ..acc }),
                _ => Option::None,
            }
        } else if key == "fields"@ {
            match val {
                JsonView::Object(fp0) => Option::Some(
                    StructProps { fields: Option::Some(fp0), ..acc },
                ),
                _ => Option::None,
            }
        } else {
            Option::None
        };
        match acc2 {
            Option::None => {},
            Option::Some(a2) => {
                lemma_read_props_fields_source(struct_name, members.drop_first(), a2);
                match read_struct_props(struct_name, members, acc) {
                    Result::Err(_) => {},
                    Result::Ok(props) => {
                        match props.fields {
                            Option::None => {},
                            Option::Some(fp) => {
                                if a2.fields == Option::Some(fp) && acc.fields
                                    != Option::Some(fp) {
                                    // only the `fields` branch changes the table
                                    assert(members[0].1 == JsonView::Object(fp));
                                } else if a2.fields != Option::Some(fp) {
                                    let i = choose|i: int|
                                        0 <= i < members.drop_first().len()
                                        && #[trigger] members.drop_first()[i].1
                                            == JsonView::Object(fp);
                                    assert(members[i + 1].1 == JsonView::Object(fp));
                                }
                            },
                        }
                    },
                }
            },
        }
    }
}

/// What parsing a sorted run of field members yields: each member becomes
/// one field, in order; the first failure is the struct's failure. `anchor`
/// names the member list the run was sorted from.
pub open spec fn parse_fields(
    struct_name: Seq<char>,
    anchor: Seq<MemberView>,
    work: Seq<MemberView>,
) -> Result<Seq<FieldView>, SchemaErrorView>
    decreases anchor, 0int, work.len() as int
        when members_within(work, anchor)
        via parse_fields_decreases
{
    if work.len() == 0 {
        Result::Ok(Seq::empty())
    } else {
        match parse_field(struct_name, work[0].0, work[0].1) {
            Result::Err(e) => Result::Err(e),
            Result::Ok(f) => match parse_fields(struct_name, anchor, work.drop_first()) {
                Result::Err(e) => Result::Err(e),
                Result::Ok(rest) => Result::Ok(seq![f] + rest),
            },
        }
    }
}

#[via_fn]
proof fn parse_fields_decreases(
    struct_name: Seq<char>,
    anchor: Seq<MemberView>,
    work: Seq<MemberView>,
) {
    if work.len() > 0 {
        assert(member_of(work[0], anchor));
        let j = choose|j: int| 0 <= j < anchor.len() && anchor[j] == work[0];
        assert(decreases_to!(anchor => anchor[j]));
        assert(decreases_to!(anchor[j] => anchor[j].1));
        assert(decreases_to!(anchor => work[0].1));
        assert(members_within(work.drop_first(), anchor)) by {
            assert forall|i: int| 0 <= i < work.drop_first().len()
                implies member_of(#[trigger] work.drop_first()[i], anchor) by {
                assert(work.drop_first()[i] == work[i + 1]);
            }
        }
    }
}

/// What parsing a struct object yields: its properties are read in key
/// order, a description and a fields table are mandatory, and the fields
/// are parsed in key order.
pub open spec fn parse_struct(struct_name: Seq<char>, v: JsonView)
    -> Result<StructView, SchemaErrorView>
    decreases v, 0int, 0int
        via parse_struct_decreases
{
    match v {
        JsonView::Object(members) => {
            let init = StructProps {
                description: Option::None,
                multiple: false,
                nullable: false,
                fields: Option::None,
            };
            match read_struct_props(struct_name, sort_members(members), init) {
                Result::Err(e) => Result::Err(e),
                Result::Ok(props) => {
                    if props.description is None {
                        Result::Err(SchemaErrorView {
                            kind: ErrorKindView::MissingField("description"@),
                            offender: OffenderView::Struct(struct_name),
                        })
                    } else if props.fields is None {
                        Result::Err(SchemaErrorView {
                            kind: ErrorKindView::MissingField("fields"@),
                            offender: OffenderView::Field(struct_name, "fields"@),
                        })
                    } else {
                        let fp = props.fields->Some_0;
                        match parse_fields(struct_name, fp, sort_members(fp)) {
                            Result::Err(e) => Result::Err(e),
                            Result::Ok(fs) => Result::Ok(StructView {
                                name: struct_name,
                                description: props.description->Some_0,
                                is_nullable: props.nullable,
                                is_multiple: props.multiple,
                                fields: fs,
                            }),
                        }
                    }
                },
            }
        },
        _ => Result::Err(SchemaErrorView {
            kind: ErrorKindView::BadFieldValue(struct_name, "an object"@),
            offender: OffenderView::Struct(struct_name),
        }),
    }
}

#[via_fn]
proof fn parse_struct_decreases(struct_name: Seq<char>, v: JsonView) {
    match v {
        JsonView::Object(members) => {
            let init = StructProps {
                description: Option::None,
                multiple: false,
                nullable: false,
                fields: Option::None,
            };
            let sorted = sort_members(members);
            match read_struct_props(struct_name, sorted, init) {
                Result::Err(_) => {},
                Result::Ok(props) => {
                    match props.fields {
                        Option::None => {},
                        Option::Some(fp) => {
                            lemma_read_props_fields_source(struct_name, sorted, init);
                            let i = choose|i: int| 0 <= i < sorted.len()
                                && #[trigger] sorted[i].1 == JsonView::Object(fp);
                            lemma_sort_members_elems(members);
                            assert(member_of(sorted[i], members));
                            let j = choose|j: int| 0 <= j < members.len()
                                && members[j] == sorted[i];
                            assert(decreases_to!(v => members));
                            assert(decreases_to!(members => members[j]));
                            assert(decreases_to!(members[j] => members[j].1));
                            assert(members[j].1 == JsonView::Object(fp));
                            let m1 = members[j].1;
                            assert(decreases_to!(m1 => m1->Object_0));
                            assert(m1->Object_0 == fp);
                            assert(decreases_to!(v => fp));
                        },
                    }
                },
            }
        },
        _ => {},
    }
}

/// The accumulator an exec property scan stands for.
pub open spec fn props_of(
    description: Option<String>,
    multiple: bool,
    nullable: bool,
    fields_val: Option<&JsonValue>,
) -> StructProps {
    StructProps {
        description: match description {
            Option::None => Option::None,
            Option::Some(d) => Option::Some(d@),
        },
        multiple,
        nullable,
        fields: match fields_val {
            Option::None => Option::None,
            Option::Some(q) => Option::Some(jv_view(*q)->Object_0),
        },
    }
}

impl ZetroStruct {
    /// Lifts one JSON value into a typed struct named `struct_name`.
    #[verifier::loop_isolation(false)]
    #[verifier::rlimit(50)]
    pub fn from_value(struct_name: String, value: &JsonValue)
        -> (r: Result<ZetroStruct, SchemaError>)
        ensures
            struct_result_view(r) == parse_struct(struct_name@, value@),
        decreases value@, 0int, 1int,
    {
        proof {
            reveal_strlit("description");
            reveal_strlit("multiple");
            reveal_strlit("nullable");
            reveal_strlit("fields");
        }
        let members: &Vec<(String, JsonValue)> = match value {
            JsonValue::Object(m) => m,
            _ => {
                return Result::Err(SchemaError {
                    kind: ErrorKind::BadFieldValue(
                        struct_name.clone(),
                        String::from_str("an object"),
                    ),
                    offender: Offender::Struct(struct_name),
                });
            },
        };
        let ghost mv = jps_view(members@);
        assert(value@ == JsonView::Object(mv));

        // Collect and key-sort the members.
        let mut refs: Vec<&(String, JsonValue)> = Vec::new();
        let mut k: usize = 0;
        while k < members.len()
            invariant
                k <= members.len(),
                mv == jps_view(members@),
                refs@.len() == k,
                forall|i: int| 0 <= i < k ==> member_view(#[trigger] refs@[i]) == mv[i],
            decreases members.len() - k,
        {
            proof {
                lemma_jps_view(members@);
            }
            let p = &members[k];
            refs.push(p);
            k += 1;
        }
        proof {
            lemma_jps_view(members@);
            assert(members_view(refs@) =~= mv);
        }
        let sorted = sort_object_members(refs);
        let ghost sview = sort_members(mv);
        assert(members_view(sorted@) == sview);

        // Read the struct properties in key order.
        let ghost init = StructProps {
            description: Option::None,
            multiple: false,
            nullable: false,
            fields: Option::None,
        };
        let mut description: Option<String> = Option::None;
        let mut multiple = false;
        let mut nullable = false;
        let mut fields_val: Option<&JsonValue> = Option::None;
        let mut i: usize = 0;
        assert(sview.skip(0) =~= sview);
        while i < sorted.len()
            invariant
                i <= sorted.len(),
                value@ == JsonView::Object(mv),
                mv == jps_view(members@),
                sview == sort_members(mv),
                members_view(sorted@) == sview,
                sorted@.len() == sview.len(),
                read_struct_props(struct_name@, sview, init)
                    == read_struct_props(
                        struct_name@,
                        sview.skip(i as int),
                        props_of(description, multiple, nullable, fields_val),
                    ),
                match fields_val {
                    Option::None => true,
                    Option::Some(q) => jv_view(*q) is Object && exists|j: int|
                        0 <= j < mv.len() && #[trigger] mv[j].1 == jv_view(*q),
                },
            decreases sorted.len() - i,
        {
            let ghost acc = props_of(description, multiple, nullable, fields_val);
            let p: &(String, JsonValue) = sorted[i];
            proof {
                assert(members_view(sorted@)[i as int] == member_view(p));
                assert(sview.skip(i as int)[0] == sview[i as int]);
                assert(sview.skip(i as int).drop_first() =~= sview.skip(i as int + 1));
            }
            if str_eq(p.0.as_str(), "description") {
                match &p.1 {
                    JsonValue::Str(d) => {
                        description = Option::Some(d.clone());
                    },
                    _ => {
                        return Result::Err(SchemaError {
                            kind: ErrorKind::BadFieldValue(
                                String::from_str("description"),
                                String::from_str("a string"),
                            ),
                            offender: Offender::Field(
                                struct_name,
                                String::from_str("description"),
                            ),
                        });
                    },
                }
            } else if str_eq(p.0.as_str(), "multiple") {
                match &p.1 {
                    JsonValue::Bool(b) => {
                        multiple = *b;
                    },
                    _ => {
                        return Result::Err(SchemaError {
                            kind: ErrorKind::BadFieldValue(
                                String::from_str("multiple"),
                                String::from_str("a boolean"),
                            ),
                            offender: Offender::Field(
                                struct_name,
                                String::from_str("multiple"),
                            ),
                        });
                    },
                }
            } else if str_eq(p.0.as_str(), "nullable") {
                match &p.1 {
                    JsonValue::Bool(b) => {
                        nullable = *b;
                    },
                    _ => {
                        return Result::Err(SchemaError {
                            kind: ErrorKind::BadFieldValue(
                                String::from_str("nullable"),
                                String::from_str("a boolean"),
                            ),
                            offender: Offender::Field(
                                struct_name,
                                String::from_str("nullable"),
                            ),
                        });
                    },
                }
            } else if str_eq(p.0.as_str(), "fields") {
                match &p.1 {
                    JsonValue::Object(_) => {
                        fields_val = Option::Some(&p.1);
                        proof {
                            assert(member_of(member_view(p), mv)) by {
                                lemma_sort_members_elems(mv);
                                assert(sview[i as int] == member_view(p));
                            }
                            let j = choose|j: int| 0 <= j < mv.len()
                                && mv[j] == member_view(p);
                            assert(mv[j].1 == jv_view(p.1));
                        }
                    },
                    _ => {
                        return Result::Err(SchemaError {
                            kind: ErrorKind::BadFieldValue(
                                String::from_str("fields"),
                                String::from_str("an object"),
                            ),
                            offender: Offender::Field(
                                struct_name,
                                String::from_str("fields"),
                            ),
                        });
                    },
                }
            } else {
                return Result::Err(SchemaError {
                    kind: ErrorKind::UnrecognizedField(p.0.clone()),
                    offender: Offender::Struct(struct_name),
                });
            }
            i += 1;
        }
        proof {
            assert(sview.skip(sorted@.len() as int) =~= Seq::<MemberView>::empty());
        }

        let description = match description {
            Option::Some(d) => d,
            Option::None => {
                return Result::Err(SchemaError {
                    kind: ErrorKind::MissingField(String::from_str("description")),
                    offender: Offender::Struct(struct_name),
                });
            },
        };
        let fields_value = match fields_val {
            Option::Some(q) => q,
            Option::None => {
                return Result::Err(SchemaError {
                    kind: ErrorKind::MissingField(String::from_str("fields")),
                    offender: Offender::Field(struct_name, String::from_str("fields")),
                });
            },
        };
        proof {
            let j = choose|j: int| 0 <= j < mv.len() && #[trigger] mv[j].1 == jv_view(*fields_value);
            assert(decreases_to!(value@ => mv));
            assert(decreases_to!(mv => mv[j]));
            assert(decreases_to!(mv[j] => mv[j].1));
            let fobj = jv_view(*fields_value);
            assert(decreases_to!(fobj => fobj->Object_0));
            assert(decreases_to!(value@ => jv_view(*fields_value)));
        }
        let fres = parse_struct_fields(&struct_name, fields_value);
        proof {
            assert(read_struct_props(struct_name@, sview, init) is Ok);
            let props = read_struct_props(struct_name@, sview, init)->Ok_0;
            assert(props.description is Some);
            assert(props.fields is Some);
            assert(props.fields->Some_0 == jv_view(*fields_value)->Object_0);
            assert(value@->Object_0 == mv);
            assert(read_struct_props(struct_name@, sort_members(value@->Object_0), init)
                == read_struct_props(struct_name@, sview, init));
            lemma_sort_members_elems(props.fields->Some_0);
            assert(members_within(
                sort_members(props.fields->Some_0),
                props.fields->Some_0,
            ));
            let pf = parse_fields(
                struct_name@,
                props.fields->Some_0,
                sort_members(props.fields->Some_0),
            );
            assert(pf is Err ==> parse_struct(struct_name@, value@) == Result::<
                StructView,
                SchemaErrorView,
            >::Err(pf->Err_0));
            assert(pf is Ok ==> parse_struct(struct_name@, value@) == Result::<
                StructView,
                SchemaErrorView,
            >::Ok(StructView {
                name: struct_name@,
                description: props.description->Some_0,
                is_nullable: props.nullable,
                is_multiple: props.multiple,
                fields: pf->Ok_0,
            }));
        }
        let fields = match fres {
            Result::Ok(fs) => fs,
            Result::Err(e) => {
                return Result::Err(e);
            },
        };
        Result::Ok(ZetroStruct {
            name: struct_name,
            is_multiple: multiple,
            is_nullable: nullable,
            description,
            fields,
        })
    }
}

/// Parses the members of a `fields` object into fields, in key order.
fn parse_struct_fields(struct_name: &String, fields_value: &JsonValue)
    -> (r: Result<Vec<ZetroField>, SchemaError>)
    requires
        jv_view(*fields_value) is Object,
    ensures
        fields_result_view(r) == parse_fields(
            struct_name@,
            jv_view(*fields_value)->Object_0,
            sort_members(jv_view(*fields_value)->Object_0),
        ),
    decreases jv_view(*fields_value), 0int, 0int,
{
    let fvec: &Vec<(String, JsonValue)> = match fields_value {
        JsonValue::Object(m) => m,
        _ => unreached(),
    };
    let ghost fp = jps_view(fvec@);
    assert(jv_view(*fields_value)->Object_0 == fp);

    let mut refs: Vec<&(String, JsonValue)> = Vec::new();
    let mut k: usize = 0;
    while k < fvec.len()
        invariant
            k <= fvec.len(),
            fp == jps_view(fvec@),
            refs@.len() == k,
            forall|i: int| 0 <= i < k ==> member_view(#[trigger] refs@[i]) == fp[i],
        decreases fvec.len() - k,
    {
        proof {
            lemma_jps_view(fvec@);
        }
        let p = &fvec[k];
        refs.push(p);
        k += 1;
    }
    proof {
        lemma_jps_view(fvec@);
        assert(members_view(refs@) =~= fp);
    }
    let sorted = sort_object_members(refs);
    let ghost sview = sort_members(fp);
    assert(members_view(sorted@) == sview);
    proof {
        lemma_sort_members_elems(fp);
    }

    let mut out: Vec<ZetroField> = Vec::new();
    let mut i: usize = 0;
    assert(sview.skip(0) =~= sview);
    assert(fields_view(out@) =~= Seq::<FieldView>::empty());
    while i < sorted.len()
        invariant
            i <= sorted.len(),
            fp == jps_view(fvec@),
            sview == sort_members(fp),
            members_view(sorted@) == sview,
            sorted@.len() == sview.len(),
            members_within(sview, fp),
            jv_view(*fields_value) is Object,
            jv_view(*fields_value)->Object_0 == fp,
            ({
                let whole = parse_fields(struct_name@, fp, sview);
                let tail = parse_fields(struct_name@, fp, sview.skip(i as int));
                whole == match tail {
                    Result::Err(e) => Result::<Seq<FieldView>, SchemaErrorView>::Err(e),
                    Result::Ok(rest) => Result::Ok(fields_view(out@) + rest),
                }
            }),
        decreases sorted.len() - i,
    {
        let p: &(String, JsonValue) = sorted[i];
        proof {
            assert(members_view(sorted@)[i as int] == member_view(p));
            assert(sview.skip(i as int)[0] == sview[i as int]);
            assert(sview.skip(i as int).drop_first() =~= sview.skip(i as int + 1));
            assert(members_within(sview.skip(i as int), fp)) by {
                assert forall|x: int| 0 <= x < sview.skip(i as int).len()
                    implies member_of(#[trigger] sview.skip(i as int)[x], fp) by {
                    assert(sview.skip(i as int)[x] == sview[i + x]);
                }
            }
            assert(members_within(sview.skip(i as int + 1), fp)) by {
                assert forall|x: int| 0 <= x < sview.skip(i as int + 1).len()
                    implies member_of(#[trigger] sview.skip(i as int + 1)[x], fp) by {
                    assert(sview.skip(i as int + 1)[x] == sview[i + 1 + x]);
                }
            }
            // termination of the call below
            let j = choose|j: int| 0 <= j < fp.len() && fp[j] == member_view(p);
            assert(decreases_to!(jv_view(*fields_value) => fp));
            assert(decreases_to!(fp => fp[j]));
            assert(decreases_to!(fp[j] => fp[j].1));
            assert(decreases_to!(jv_view(*fields_value) => jv_view(p.1)));
        }
        match ZetroField::from_value(struct_name.clone(), p.0.clone(), &p.1) {
            Result::Err(e) => {
                return Result::Err(e);
            },
            Result::Ok(f) => {
                let ghost out0 = out@;
                out.push(f);
                proof {
                    assert(out@ =~= out0.push(f));
                    lemma_fields_view(out@);
                    lemma_fields_view(out0);
                    assert(fields_view(out@) =~= fields_view(out0) + seq![field_view(f)]);
                    assert forall|rest: Seq<FieldView>|
                        fields_view(out0) + (seq![field_view(f)] + rest)
                            =~= fields_view(out@) + rest by {}
                }
            },
        }
        i += 1;
    }
    proof {
        assert(sview.skip(sorted@.len() as int) =~= Seq::<MemberView>::empty());
        assert(fields_view(out@) + Seq::<FieldView>::empty() =~= fields_view(out@));
    }
    Result::Ok(out)
}

} // verus!
