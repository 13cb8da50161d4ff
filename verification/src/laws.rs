//! Library-wide laws: what holds of every parse and every validated
//! schema, stated once over the specification functions the executable
//! contracts use.

use vstd::prelude::*;
use crate::cli::{args_from_list, read_args, ArgsState, ArgsView};
use crate::errors::SchemaErrorView;
use crate::fields::{parse_field, parse_field_text, FieldKindView, FieldView};
use crate::json::{
    lemma_sort_members_elems, lemma_sort_members_strict, member_of, members_within,
    sort_members, JsonValue, JsonView, MemberView,
};
use crate::schema::{
    check_field_v, check_fields_v, check_routes_v, check_schema_v, check_struct_v,
    check_structs_v, enum_names, name_listed, no_sections, parse_schema, parse_structs_list,
    read_schema_sections, struct_names, SchemaView,
};
use crate::structs::{parse_fields, parse_struct, read_struct_props, StructProps, StructView};
use crate::text::{contains_sub, find_from, lemma_find_from_first, lemma_find_from_none, lex_le};

verus! {

/// Parsing is stable: reading the same document twice yields the same
/// schema, errors included.
pub proof fn lemma_parse_stable(a: JsonValue, b: JsonValue)
    requires
        a@ == b@,
    ensures
        parse_schema(a@) == parse_schema(b@),
{
}

/// An accepted run of field members names its fields after its members, in
/// order.
proof fn lemma_parse_fields_names(
    struct_name: Seq<char>,
    anchor: Seq<MemberView>,
    work: Seq<MemberView>,
)
    requires
        members_within(work, anchor),
        parse_fields(struct_name, anchor, work) is Ok,
    ensures
        parse_fields(struct_name, anchor, work)->Ok_0.len() == work.len(),
        forall|k: int| 0 <= k < work.len()
            ==> #[trigger] parse_fields(struct_name, anchor, work)->Ok_0[k].name == work[k].0,
    decreases work.len(),
{
    if work.len() == 0 {
    } else {
        let f = parse_field(struct_name, work[0].0, work[0].1)->Ok_0;
        assert(f.name == work[0].0) by {
            lemma_parse_field_name(struct_name, work[0].0, work[0].1);
        }
        assert(members_within(work.drop_first(), anchor)) by {
            assert forall|i: int| 0 <= i < work.drop_first().len()
                implies member_of(#[trigger] work.drop_first()[i], anchor) by {
                assert(work.drop_first()[i] == work[i + 1]);
            }
        }
        lemma_parse_fields_names(struct_name, anchor, work.drop_first());
        let rest = parse_fields(struct_name, anchor, work.drop_first())->Ok_0;
        assert forall|k: int| 0 <= k < work.len()
            implies #[trigger] parse_fields(struct_name, anchor, work)->Ok_0[k].name
                == work[k].0 by {
            if k > 0 {
                assert(parse_fields(struct_name, anchor, work)->Ok_0[k] == rest[k - 1]);
                assert(work.drop_first()[k - 1] == work[k]);
            }
        }
    }
}

/// An accepted field carries the name it was declared under.
proof fn lemma_parse_field_name(struct_name: Seq<char>, field_name: Seq<char>, v: JsonView)
    requires
        parse_field(struct_name, field_name, v) is Ok,
    ensures
        parse_field(struct_name, field_name, v)->Ok_0.name == field_name,
{
}

/// For every accepted struct, the fields stand in strictly increasing name
/// order whenever the declared member names are pairwise distinct, with
/// uppercase ASCII sorting before lowercase ASCII; without the
/// distinctness assumption the order is still non-decreasing.
pub proof fn lemma_struct_fields_sorted(struct_name: Seq<char>, v: JsonView)
    requires
        parse_struct(struct_name, v) is Ok,
    ensures
        ({
            let fs = parse_struct(struct_name, v)->Ok_0.fields;
            forall|i: int, j: int| 0 <= i < j < fs.len()
                ==> lex_le(#[trigger] fs[i].name, #[trigger] fs[j].name)
        }),
{
    let members = v->Object_0;
    let init = StructProps {
        description: Option::None,
        multiple: false,
        nullable: false,
        fields: Option::None,
    };
    let props = read_struct_props(struct_name, sort_members(members), init)->Ok_0;
    let fp = props.fields->Some_0;
    lemma_sort_members_elems(fp);
    crate::json::lemma_sort_members_sorted(fp);
    let work = sort_members(fp);
    lemma_parse_fields_names(struct_name, fp, work);
    let fs = parse_struct(struct_name, v)->Ok_0.fields;
    assert(fs == parse_fields(struct_name, fp, work)->Ok_0);
    assert forall|i: int, j: int| 0 <= i < j < fs.len()
        implies lex_le(#[trigger] fs[i].name, #[trigger] fs[j].name) by {
        assert(fs[i].name == work[i].0);
        assert(fs[j].name == work[j].0);
    }
}

/// The strict form: when the declared member names of the `fields` table
/// are pairwise distinct, the accepted field names are strictly increasing.
pub proof fn lemma_struct_fields_sorted_strict(struct_name: Seq<char>, v: JsonView)
    requires
        parse_struct(struct_name, v) is Ok,
        ({
            let init = StructProps {
                description: Option::None,
                multiple: false,
                nullable: false,
                fields: Option::None,
            };
            let fp = read_struct_props(struct_name, sort_members(v->Object_0), init)
                ->Ok_0.fields->Some_0;
            forall|i: int, j: int| 0 <= i < j < fp.len()
                ==> (#[trigger] fp[i]).0 != (#[trigger] fp[j]).0
        }),
    ensures
        ({
            let fs = parse_struct(struct_name, v)->Ok_0.fields;
            forall|i: int, j: int| 0 <= i < j < fs.len()
                ==> lex_le(#[trigger] fs[i].name, #[trigger] fs[j].name)
                    && fs[i].name != fs[j].name
        }),
{
    let members = v->Object_0;
    let init = StructProps {
        description: Option::None,
        multiple: false,
        nullable: false,
        fields: Option::None,
    };
    let props = read_struct_props(struct_name, sort_members(members), init)->Ok_0;
    let fp = props.fields->Some_0;
    lemma_sort_members_elems(fp);
    lemma_sort_members_strict(fp);
    let work = sort_members(fp);
    lemma_parse_fields_names(struct_name, fp, work);
    let fs = parse_struct(struct_name, v)->Ok_0.fields;
    assert(fs == parse_fields(struct_name, fp, work)->Ok_0);
    assert forall|i: int, j: int| 0 <= i < j < fs.len()
        implies lex_le(#[trigger] fs[i].name, #[trigger] fs[j].name)
            && fs[i].name != fs[j].name by {
        assert(fs[i].name == work[i].0);
        assert(fs[j].name == work[j].0);
    }
}

/// A struct object without a `description` member is rejected.
pub proof fn lemma_no_description_rejected(struct_name: Seq<char>, v: JsonView)
    requires
        v is Object,
        forall|i: int| 0 <= i < v->Object_0.len()
            ==> (#[trigger] v->Object_0[i]).0 != "description"@,
    ensures
        parse_struct(struct_name, v) is Err,
{
    let members = v->Object_0;
    let sorted = sort_members(members);
    lemma_sort_members_elems(members);
    assert forall|i: int| 0 <= i < sorted.len()
        implies (#[trigger] sorted[i]).0 != "description"@ by {
        assert(member_of(sorted[i], members));
        let j = choose|j: int| 0 <= j < members.len() && members[j] == sorted[i];
        assert(members[j].0 != "description"@);
    }
    let init = StructProps {
        description: Option::None,
        multiple: false,
        nullable: false,
        fields: Option::None,
    };
    lemma_read_props_no_description(struct_name, sorted, init);
}

/// Reading members none of which is named `description` leaves the
/// description absent, or fails outright.
proof fn lemma_read_props_no_description(
    struct_name: Seq<char>,
    members: Seq<MemberView>,
    acc: StructProps,
)
    requires
        acc.description is None,
        forall|i: int| 0 <= i < members.len() ==> (#[trigger] members[i]).0 != "description"@,
    ensures
        match read_struct_props(struct_name, members, acc) {
            Result::Ok(props) => props.description is None,
            Result::Err(_) => true,
        },
    decreases members.len(),
{
    if members.len() > 0 {
        assert forall|i: int| 0 <= i < members.drop_first().len()
            implies (#[trigger] members.drop_first()[i]).0 != "description"@ by {
            assert(members.drop_first()[i] == members[i + 1]);
        }
        let key = members[0].0;
        let val = members[0].1;
        if key == "multiple"@ {
            match val {
                JsonView::Bool(b) => {
                    lemma_read_props_no_description(
                        struct_name,
                        members.drop_first(),
                        StructProps { multiple: b, ..acc },
                    );
                },
                _ => {},
            }
        } else if key == "nullable"@ {
            match val {
                JsonView::Bool(b) => {
                    lemma_read_props_no_description(
                        struct_name,
                        members.drop_first(),
                        StructProps { nullable: b, ..acc },
                    );
                },
                _ => {},
            }
        } else if key == "fields"@ {
            match val {
                JsonView::Object(fp) => {
                    lemma_read_props_no_description(
                        struct_name,
                        members.drop_first(),
                        StructProps { fields: Option::Some(fp), ..acc },
                    );
                },
                _ => {},
            }
        }
    }
}

/// A top-level struct that parses as nullable or multiple fails the
/// `structs` section with exactly its report: the offending flag against
/// the expected shape `[empty]`, with the struct as the offender — given
/// that the structs before it in key order are accepted.
pub proof fn lemma_top_level_modifier_rejected(work: Seq<MemberView>, i: int)
    requires
        0 <= i < work.len(),
        forall|j: int| 0 <= j < i ==> (#[trigger] parse_struct(work[j].0, work[j].1)) is Ok
            && !parse_struct(work[j].0, work[j].1)->Ok_0.is_nullable
            && !parse_struct(work[j].0, work[j].1)->Ok_0.is_multiple,
        parse_struct(work[i].0, work[i].1) is Ok,
        parse_struct(work[i].0, work[i].1)->Ok_0.is_nullable
            || parse_struct(work[i].0, work[i].1)->Ok_0.is_multiple,
    ensures
        parse_structs_list(work) == Result::<Seq<StructView>, SchemaErrorView>::Err(
            SchemaErrorView {
                kind: crate::errors::ErrorKindView::BadFieldValue(
                    if parse_struct(work[i].0, work[i].1)->Ok_0.is_nullable {
                        "nullable"@
                    } else {
                        "multiple"@
                    },
                    "[empty]"@,
                ),
                offender: crate::errors::OffenderView::Struct(work[i].0),
            },
        ),
    decreases work.len(),
{
    if i == 0 {
    } else {
        assert(parse_struct(work[0].0, work[0].1) is Ok);
        assert forall|j: int| 0 <= j < i - 1
            implies (#[trigger] parse_struct(work.drop_first()[j].0, work.drop_first()[j].1))
                is Ok
                && !parse_struct(work.drop_first()[j].0, work.drop_first()[j].1)
                    ->Ok_0.is_nullable
                && !parse_struct(work.drop_first()[j].0, work.drop_first()[j].1)
                    ->Ok_0.is_multiple by {
            assert(work.drop_first()[j] == work[j + 1]);
        }
        assert(work.drop_first()[i - 1] == work[i]);
        lemma_top_level_modifier_rejected(work.drop_first(), i - 1);
    }
}

/// The same, lifted to the whole document: when the `structs` section is
/// read and its members before the offender are accepted, the document is
/// rejected with exactly that report.
pub proof fn lemma_schema_top_level_modifier(v: JsonView, i: int)
    requires
        v is Object,
        read_schema_sections(sort_members(v->Object_0), no_sections()) is Ok,
        read_schema_sections(sort_members(v->Object_0), no_sections())->Ok_0.structs is Some,
        ({
            let swork = sort_members(
                read_schema_sections(sort_members(v->Object_0), no_sections())
                    ->Ok_0.structs->Some_0,
            );
            &&& 0 <= i < swork.len()
            &&& forall|j: int| 0 <= j < i
                ==> (#[trigger] parse_struct(swork[j].0, swork[j].1)) is Ok
                    && !parse_struct(swork[j].0, swork[j].1)->Ok_0.is_nullable
                    && !parse_struct(swork[j].0, swork[j].1)->Ok_0.is_multiple
            &&& parse_struct(swork[i].0, swork[i].1) is Ok
            &&& (parse_struct(swork[i].0, swork[i].1)->Ok_0.is_nullable
                || parse_struct(swork[i].0, swork[i].1)->Ok_0.is_multiple)
        }),
    ensures
        ({
            let swork = sort_members(
                read_schema_sections(sort_members(v->Object_0), no_sections())
                    ->Ok_0.structs->Some_0,
            );
            parse_schema(v) == Result::<SchemaView, SchemaErrorView>::Err(SchemaErrorView {
                kind: crate::errors::ErrorKindView::BadFieldValue(
                    if parse_struct(swork[i].0, swork[i].1)->Ok_0.is_nullable {
                        "nullable"@
                    } else {
                        "multiple"@
                    },
                    "[empty]"@,
                ),
                offender: crate::errors::OffenderView::Struct(swork[i].0),
            })
        }),
{
    let swork = sort_members(
        read_schema_sections(sort_members(v->Object_0), no_sections())->Ok_0.structs->Some_0,
    );
    lemma_top_level_modifier_rejected(swork, i);
}

/// No accepted field is a recursive reference without an escape: a field
/// that references its own struct is nullable or multiple, else the parse
/// rejected it.
pub proof fn lemma_recursive_field_guarded(
    struct_name: Seq<char>,
    field_name: Seq<char>,
    v: JsonView,
)
    requires
        parse_field(struct_name, field_name, v) is Ok,
    ensures
        ({
            let f = parse_field(struct_name, field_name, v)->Ok_0;
            f.is_recursive ==> f.is_nullable || f.is_multiple
        }),
{
}

/// A field string whose dtype is `enum` or `struct` with no `~name` after
/// it is rejected.
#[verifier::rlimit(100)]
pub proof fn lemma_missing_referent_rejected(
    struct_name: Seq<char>,
    field_name: Seq<char>,
    s0: Seq<char>,
)
    requires
        ({
            let s1 = if s0.len() >= 1 && s0[0] == '?' {
                s0.subrange(1, s0.len() as int)
            } else {
                s0
            };
            let s2 = if s1.len() >= 2 && s1[0] == '[' && s1[1] == ']' {
                s1.subrange(2, s1.len() as int)
            } else {
                s1
            };
            let dtype_part = match find_from(s2, "; "@, 0) {
                Option::None => s2,
                Option::Some(i) => s2.subrange(0, i),
            };
            find_from(dtype_part, "~"@, 0) is None
                && (dtype_part == "enum"@ || dtype_part == "struct"@)
        }),
    ensures
        parse_field_text(struct_name, field_name, s0) is Err,
{
    reveal_strlit("string");
    reveal_strlit("i8");
    reveal_strlit("u8");
    reveal_strlit("i16");
    reveal_strlit("u16");
    reveal_strlit("i32");
    reveal_strlit("u32");
    reveal_strlit("i64");
    reveal_strlit("u64");
    reveal_strlit("f32");
    reveal_strlit("f64");
    reveal_strlit("bool");
    reveal_strlit("enum");
    reveal_strlit("struct");
    // the literal pairs of equal length differ at an inner position
    assert("string"@.len() == 6 && "struct"@.len() == 6);
    assert("struct"@[3] == 'u' && "string"@[3] == 'i');
    assert("enum"@.len() == 4 && "bool"@.len() == 4);
    assert("enum"@[0] == 'e' && "bool"@[0] == 'b');
    assert("i8"@.len() == 2 && "u8"@.len() == 2);
    assert("i8"@[0] == 'i' && "u8"@[0] == 'u');
    assert("i16"@.len() == 3 && "u16"@.len() == 3 && "i32"@.len() == 3);
    assert("u32"@.len() == 3 && "i64"@.len() == 3 && "u64"@.len() == 3);
    assert("f32"@.len() == 3 && "f64"@.len() == 3);
}

/// Every reference a validated schema's structs and route bodies carry
/// resolves to a declared name.
pub proof fn lemma_valid_schema_resolves(s: SchemaView)
    requires
        check_schema_v(s) is Ok,
    ensures
        forall|i: int| 0 <= i < s.structs.len()
            ==> references_resolve_struct(
                struct_names(s.structs),
                enum_names(s.enums),
                #[trigger] s.structs[i],
            ),
        forall|i: int| 0 <= i < s.queries.len()
            ==> references_resolve(
                struct_names(s.structs),
                enum_names(s.enums),
                (#[trigger] s.queries[i]).request_body,
            ) && references_resolve(
                struct_names(s.structs),
                enum_names(s.enums),
                s.queries[i].response_body,
            ),
        forall|i: int| 0 <= i < s.mutations.len()
            ==> references_resolve(
                struct_names(s.structs),
                enum_names(s.enums),
                (#[trigger] s.mutations[i]).request_body,
            ) && references_resolve(
                struct_names(s.structs),
                enum_names(s.enums),
                s.mutations[i].response_body,
            ),
{
    let sn = struct_names(s.structs);
    let en = enum_names(s.enums);
    lemma_check_structs_all(sn, en, s.structs);
    lemma_check_routes_all(sn, en, s.queries);
    lemma_check_routes_all(sn, en, s.mutations);
}

/// Whether every struct and enum reference in a field, nested objects
/// included, names a declared struct or enum.
pub open spec fn references_resolve(
    sn: Seq<Seq<char>>,
    en: Seq<Seq<char>>,
    f: FieldView,
) -> bool
    decreases f,
{
    match f.kind {
        FieldKindView::StructValue(n) => name_listed(sn, n),
        FieldKindView::EnumValue(n) => name_listed(en, n),
        FieldKindView::NestedObject(obj) => references_resolve_struct(sn, en, obj),
        _ => true,
    }
}

/// Whether every reference in a struct's fields resolves.
pub open spec fn references_resolve_struct(
    sn: Seq<Seq<char>>,
    en: Seq<Seq<char>>,
    s: StructView,
) -> bool
    decreases s,
{
    forall|i: int| 0 <= i < s.fields.len()
        ==> references_resolve(sn, en, #[trigger] s.fields[i])
}

/// A passing field check means the field's references resolve.
proof fn lemma_check_field_resolves(sn: Seq<Seq<char>>, en: Seq<Seq<char>>, f: FieldView)
    requires
        check_field_v(sn, en, f) is Ok,
    ensures
        references_resolve(sn, en, f),
    decreases f,
{
    match f.kind {
        FieldKindView::NestedObject(obj) => {
            lemma_check_struct_resolves(sn, en, obj);
        },
        _ => {},
    }
}

/// A passing struct check means every field's references resolve.
proof fn lemma_check_struct_resolves(sn: Seq<Seq<char>>, en: Seq<Seq<char>>, s: StructView)
    requires
        check_struct_v(sn, en, s) is Ok,
    ensures
        references_resolve_struct(sn, en, s),
    decreases s,
{
    lemma_check_fields_resolve(sn, en, s.fields);
}

/// A passing field-list check means every member's references resolve.
proof fn lemma_check_fields_resolve(sn: Seq<Seq<char>>, en: Seq<Seq<char>>, fs: Seq<FieldView>)
    requires
        check_fields_v(sn, en, fs) is Ok,
    ensures
        forall|i: int| 0 <= i < fs.len()
            ==> references_resolve(sn, en, #[trigger] fs[i]),
    decreases fs,
{
    if fs.len() > 0 {
        lemma_check_field_resolves(sn, en, fs[0]);
        lemma_check_fields_resolve(sn, en, fs.drop_first());
        assert forall|i: int| 0 <= i < fs.len()
            implies references_resolve(sn, en, #[trigger] fs[i]) by {
            if i > 0 {
                assert(fs.drop_first()[i - 1] == fs[i]);
            }
        }
    }
}

/// A passing struct-list check means every struct resolves.
proof fn lemma_check_structs_all(sn: Seq<Seq<char>>, en: Seq<Seq<char>>, ss: Seq<StructView>)
    requires
        check_structs_v(sn, en, ss) is Ok,
    ensures
        forall|i: int| 0 <= i < ss.len()
            ==> references_resolve_struct(sn, en, #[trigger] ss[i]),
    decreases ss.len(),
{
    if ss.len() > 0 {
        lemma_check_struct_resolves(sn, en, ss[0]);
        lemma_check_structs_all(sn, en, ss.drop_first());
        assert forall|i: int| 0 <= i < ss.len()
            implies references_resolve_struct(sn, en, #[trigger] ss[i]) by {
            if i > 0 {
                assert(ss.drop_first()[i - 1] == ss[i]);
            }
        }
    }
}

/// A passing route-list check means both bodies of every route resolve.
proof fn lemma_check_routes_all(
    sn: Seq<Seq<char>>,
    en: Seq<Seq<char>>,
    rs: Seq<crate::routes::RouteView>,
)
    requires
        check_routes_v(sn, en, rs) is Ok,
    ensures
        forall|i: int| 0 <= i < rs.len()
            ==> references_resolve(sn, en, (#[trigger] rs[i]).request_body)
                && references_resolve(sn, en, rs[i].response_body),
    decreases rs.len(),
{
    if rs.len() > 0 {
        lemma_check_field_resolves(sn, en, rs[0].request_body);
        lemma_check_field_resolves(sn, en, rs[0].response_body);
        lemma_check_routes_all(sn, en, rs.drop_first());
        assert forall|i: int| 0 <= i < rs.len()
            implies references_resolve(sn, en, (#[trigger] rs[i]).request_body)
                && references_resolve(sn, en, rs[i].response_body) by {
            if i > 0 {
                assert(rs.drop_first()[i - 1] == rs[i]);
            }
        }
    }
}

/// `--field-casing` and `--untagged` never both survive: an accepted
/// argument list carries at most one of them.
pub proof fn lemma_casing_untagged_exclusive(args: Seq<Seq<char>>)
    requires
        args_from_list(args) is Ok,
    ensures
        !(args_from_list(args)->Ok_0.field_casing is Some
            && args_from_list(args)->Ok_0.untagged),
{
}

/// An accepted output path contains `-generated` or `_generated`, unless
/// `--ignore-out-naming` was given.
pub proof fn lemma_out_naming_enforced(args: Seq<Seq<char>>)
    requires
        args_from_list(args) is Ok,
        ({
            let init = ArgsState {
                schema_file: Option::None,
                out_file: Option::None,
                language: Option::None,
                field_casing: Option::None,
                plugins: Seq::empty(),
                mangle: Option::None,
                untagged: false,
                ignore_naming: false,
            };
            !read_args(args.drop_first(), init)->Ok_0.ignore_naming
        }),
    ensures
        contains_sub(args_from_list(args)->Ok_0.out_file, "-generated"@)
            || contains_sub(args_from_list(args)->Ok_0.out_file, "_generated"@),
{
}

/// A bare self-reference is rejected with exactly the recursion report: a
/// field string `struct~<own name>` carrying neither escape, for a struct
/// name free of the grammar's `~` and `;` characters.
pub proof fn lemma_bare_self_reference_rejected(
    struct_name: Seq<char>,
    field_name: Seq<char>,
    s0: Seq<char>,
)
    requires
        s0 == "struct~"@ + struct_name,
        forall|k: int| 0 <= k < struct_name.len()
            ==> struct_name[k] != '~' && #[trigger] struct_name[k] != ';',
    ensures
        parse_field_text(struct_name, field_name, s0)
            == Result::<FieldView, SchemaErrorView>::Err(SchemaErrorView {
            kind: crate::errors::ErrorKindView::BadFieldValue(
                field_name,
                "nullable and/or multiple to avoid an infinite loop."@,
            ),
            offender: crate::errors::OffenderView::Field(struct_name, field_name),
        }),
{
    reveal_strlit("struct~");
    reveal_strlit("string");
    reveal_strlit("i8");
    reveal_strlit("u8");
    reveal_strlit("i16");
    reveal_strlit("u16");
    reveal_strlit("i32");
    reveal_strlit("u32");
    reveal_strlit("i64");
    reveal_strlit("u64");
    reveal_strlit("f32");
    reveal_strlit("f64");
    reveal_strlit("bool");
    reveal_strlit("enum");
    reveal_strlit("struct");
    reveal_strlit("; ");
    reveal_strlit("~");
    assert(s0.len() == 7 + struct_name.len());
    assert(s0[0] == 's');
    // neither flag is present
    assert(!(s0.len() >= 1 && s0[0] == '?'));
    assert(!(s0.len() >= 2 && s0[0] == '['));
    // no description separator occurs
    assert(forall|k: int| 0 <= k < s0.len() ==> #[trigger] s0[k] != ';') by {
        assert forall|k: int| 0 <= k < s0.len() implies #[trigger] s0[k] != ';' by {
            if k >= 7 {
                assert(s0[k] == struct_name[k - 7]);
            }
        }
    }
    assert("; "@[0] == ';');
    lemma_find_from_none(s0, "; "@, 0);
    // the one referent marker stands after the dtype token
    assert(s0.subrange(6, 7) =~= "~"@);
    assert(forall|k: int| 0 <= k < 6 ==> #[trigger] s0[k] != '~');
    lemma_find_from_first(s0, "~"@, 0, 6);
    assert(forall|k: int| 7 <= k < s0.len() ==> #[trigger] s0[k] != '~') by {
        assert forall|k: int| 7 <= k < s0.len() implies #[trigger] s0[k] != '~' by {
            assert(s0[k] == struct_name[k - 7]);
        }
    }
    lemma_find_from_none(s0, "~"@, 7);
    assert(s0.subrange(0, 6) =~= "struct"@);
    assert(s0.subrange(7, s0.len() as int) =~= struct_name);
    // the literal pairs of equal length differ at an inner position
    assert("string"@.len() == 6 && "struct"@.len() == 6);
    assert("struct"@[3] == 'u' && "string"@[3] == 'i');
}

/// Every reference a parsed document's structs and route bodies carry
/// resolves: an unresolved `struct~` or `enum~` referent cannot survive
/// the parse.
pub proof fn lemma_parsed_schema_resolves(v: JsonView)
    requires
        parse_schema(v) is Ok,
    ensures
        ({
            let s = parse_schema(v)->Ok_0;
            let sn = struct_names(s.structs);
            let en = enum_names(s.enums);
            &&& forall|i: int| 0 <= i < s.structs.len()
                ==> references_resolve_struct(sn, en, #[trigger] s.structs[i])
            &&& forall|i: int| 0 <= i < s.queries.len()
                ==> references_resolve(sn, en, (#[trigger] s.queries[i]).request_body)
                    && references_resolve(sn, en, s.queries[i].response_body)
            &&& forall|i: int| 0 <= i < s.mutations.len()
                ==> references_resolve(sn, en, (#[trigger] s.mutations[i]).request_body)
                    && references_resolve(sn, en, s.mutations[i].response_body)
        }),
{
    let s = parse_schema(v)->Ok_0;
    assert(check_schema_v(s) is Ok);
    lemma_valid_schema_resolves(s);
}

/// An unresolved struct or enum reference fails its check with exactly the
/// report the validator gives: `InvalidReference` of the referent, located
/// at the referent and the field's name.
pub proof fn lemma_unresolved_reference_report(
    sn: Seq<Seq<char>>,
    en: Seq<Seq<char>>,
    f: FieldView,
)
    ensures
        (match f.kind {
            FieldKindView::StructValue(n) => !name_listed(sn, n)
                ==> check_field_v(sn, en, f)
                    == Result::<(), SchemaErrorView>::Err(SchemaErrorView {
                    kind: crate::errors::ErrorKindView::InvalidReference(n),
                    offender: crate::errors::OffenderView::Field(n, f.name),
                }),
            FieldKindView::EnumValue(n) => !name_listed(en, n)
                ==> check_field_v(sn, en, f)
                    == Result::<(), SchemaErrorView>::Err(SchemaErrorView {
                    kind: crate::errors::ErrorKindView::InvalidReference(n),
                    offender: crate::errors::OffenderView::Field(n, f.name),
                }),
            _ => true,
        }),
{
}

} // verus!
