//! The TypeScript frontend emitter: read-only enum objects, interfaces,
//! and the optional untagged (positional-array) codec pair.

use vstd::prelude::*;
use vstd::string::*;
use crate::enums::{EnumView, ZetroEnum};
use crate::fields::{field_view, FieldKind, FieldKindView, FieldView, ZetroField};
use crate::structs::{lemma_fields_view, struct_view, StructView, ZetroStruct};
use crate::text::{dec_digits, join_strings, join_texts, push_all, strings_view, u64_to_dec};

verus! {

/// The TypeScript type literal for a field: every numeric width and enum
/// reference collapses to `number`; `multiple` appends an array suffix.
/// Nullability is expressed positionally, not in the literal.
pub open spec fn ts_dtype(f: FieldView) -> Seq<char> {
    let base = match f.kind {
        FieldKindView::Int8 => "number"@,
        FieldKindView::UInt8 => "number"@,
        FieldKindView::Int16 => "number"@,
        FieldKindView::UInt16 => "number"@,
        FieldKindView::Int32 => "number"@,
        FieldKindView::UInt32 => "number"@,
        FieldKindView::Int64 => "number"@,
        FieldKindView::UInt64 => "number"@,
        FieldKindView::Float32 => "number"@,
        FieldKindView::Float64 => "number"@,
        FieldKindView::Boolean => "boolean"@,
        FieldKindView::StringValue => "string"@,
        FieldKindView::EnumValue(_) => "number"@,
        FieldKindView::StructValue(s) => s,
        FieldKindView::NestedObject(s) => s.name,
    };
    if f.is_multiple {
        base + "[]"@
    } else {
        base
    }
}

impl ZetroField {
    /// Renders the TypeScript representation of the field's type. The type
    /// does not carry nullability: signature positions use a question token
    /// and other positions a `| null` union, depending on context.
    pub fn to_ts_dtype(&self) -> (r: String)
        ensures
            r@ == ts_dtype(self@),
    {
        let mut base = match &self.kind {
            FieldKind::Int8 => String::from_str("number"),
            FieldKind::UInt8 => String::from_str("number"),
            FieldKind::Int16 => String::from_str("number"),
            FieldKind::UInt16 => String::from_str("number"),
            FieldKind::Int32 => String::from_str("number"),
            FieldKind::UInt32 => String::from_str("number"),
            FieldKind::Int64 => String::from_str("number"),
            FieldKind::UInt64 => String::from_str("number"),
            FieldKind::Float32 => String::from_str("number"),
            FieldKind::Float64 => String::from_str("number"),
            FieldKind::Boolean => String::from_str("boolean"),
            FieldKind::StringValue => String::from_str("string"),
            FieldKind::EnumValue(_) => String::from_str("number"),
            FieldKind::StructValue(s) => s.clone(),
            FieldKind::NestedObject(s) => s.name.clone(),
        };
        if self.is_multiple {
            base.append("[]");
        }
        base
    }
}

/// One variant property; frontend ordinals start at 1.
pub open spec fn ts_enum_variant_line(v: Seq<char>, ord: nat) -> Seq<char> {
    "\t"@ + v + ": "@ + dec_digits(ord)
}

/// The variant properties, ordinals counting up from `start`.
pub open spec fn ts_enum_variant_lines(vs: Seq<Seq<char>>, start: nat) -> Seq<Seq<char>>
    decreases vs.len(),
{
    if vs.len() == 0 {
        Seq::empty()
    } else {
        seq![ts_enum_variant_line(vs[0], start)]
            + ts_enum_variant_lines(vs.drop_first(), start + 1)
    }
}

/// The lines are pointwise.
pub proof fn lemma_ts_enum_variant_lines(vs: Seq<Seq<char>>, start: nat)
    ensures
        ts_enum_variant_lines(vs, start).len() == vs.len(),
        forall|i: int| 0 <= i < vs.len() ==> ts_enum_variant_lines(vs, start)[i]
            == ts_enum_variant_line(vs[i], (start + i) as nat),
    decreases vs.len(),
{
    if vs.len() > 0 {
        lemma_ts_enum_variant_lines(vs.drop_first(), start + 1);
    }
}

/// The emitted enum: a read-only object literal mapping variant name to
/// ordinal, since the built-in enum construct weighs more after compilation.
pub open spec fn ts_enum_text(e: EnumView) -> Seq<char> {
    "export const "@ + e.name + " = {\n"@
        + join_texts(ts_enum_variant_lines(e.variants, 1), ",\n"@) + "\n} as const;"@
}

/// Emits one frontend enum.
#[verifier::loop_isolation(false)]
pub fn generate_enum(_enum: &ZetroEnum) -> (r: String)
    ensures
        r@ == ts_enum_text(_enum@),
{
    let ghost vs = _enum@.variants;
    proof {
        lemma_ts_enum_variant_lines(vs, 1);
    }
    let mut lines: Vec<String> = Vec::new();
    let mut i: usize = 0;
    while i < _enum.variants.len()
        invariant
            i <= _enum.variants.len(),
            lines@.len() == i,
            forall|k: int| 0 <= k < i ==> #[trigger] lines@[k]@
                == ts_enum_variant_line(vs[k], (1 + k) as nat),
        decreases _enum.variants.len() - i,
    {
        let mut line = String::from_str("\t");
        line.append(_enum.variants[i].as_str());
        line.append(": ");
        let ord = u64_to_dec((i + 1) as u64);
        line.append(ord.as_str());
        lines.push(line);
        i += 1;
    }
    proof {
        assert(strings_view(lines@) =~= ts_enum_variant_lines(vs, 1));
    }
    let joined = join_strings(&lines, ",\n");
    let mut out = String::from_str("export const ");
    out.append(_enum.name.as_str());
    out.append(" = {\n");
    out.append(joined.as_str());
    out.append("\n} as const;");
    out
}

/// The emitted texts for a list of enums, between their banner comments.
pub open spec fn ts_enums_texts(es: Seq<EnumView>) -> Seq<Seq<char>>
    decreases es.len(),
{
    if es.len() == 0 {
        Seq::empty()
    } else {
        seq![ts_enum_text(es[0])] + ts_enums_texts(es.drop_first())
    }
}

/// The texts are pointwise.
pub proof fn lemma_ts_enums_texts(es: Seq<EnumView>)
    ensures
        ts_enums_texts(es).len() == es.len(),
        forall|i: int| 0 <= i < es.len() ==> ts_enums_texts(es)[i] == ts_enum_text(es[i]),
    decreases es.len(),
{
    if es.len() > 0 {
        lemma_ts_enums_texts(es.drop_first());
    }
}

/// Everything the enum section emits, banners included.
pub open spec fn ts_enums_section(es: Seq<EnumView>) -> Seq<Seq<char>> {
    seq!["/* ============ Enums ============ */"@] + ts_enums_texts(es)
        + seq!["/* ============ End Enums ============ */"@]
}

/// Emits the enum section into the scope.
#[verifier::loop_isolation(false)]
pub fn generate_enums(scope: &mut Vec<String>, enums: &Vec<ZetroEnum>)
    ensures
        strings_view(final(scope)@) == strings_view(old(scope)@)
            + ts_enums_section(crate::schema::enums_view(enums@)),
{
    let ghost es = crate::schema::enums_view(enums@);
    let ghost base = strings_view(old(scope)@);
    proof {
        lemma_ts_enums_texts(es);
    }
    scope.push(String::from_str("/* ============ Enums ============ */"));
    let ghost base1 = strings_view(scope@);
    proof {
        assert(base1 =~= base + seq!["/* ============ Enums ============ */"@]);
    }
    let mut i: usize = 0;
    while i < enums.len()
        invariant
            i <= enums.len(),
            scope@.len() == base1.len() + i,
            forall|k: int| 0 <= k < base1.len() ==> strings_view(scope@)[k] == base1[k],
            forall|k: int| 0 <= k < i ==> strings_view(scope@)[base1.len() + k]
                == ts_enum_text(es[k]),
        decreases enums.len() - i,
    {
        let text = generate_enum(&enums[i]);
        scope.push(text);
        i += 1;
    }
    let ghost pre = strings_view(scope@);
    proof {
        assert(pre =~= base1 + ts_enums_texts(es));
    }
    scope.push(String::from_str("/* ============ End Enums ============ */"));
    proof {
        assert(strings_view(scope@)
            =~= pre + seq!["/* ============ End Enums ============ */"@]);
        assert(strings_view(scope@) =~= base + ts_enums_section(es));
    }
}

/// The interface lines of one field: its doc line when described, then the
/// property with a question token when nullable.
pub open spec fn ts_iface_field_lines(f: FieldView) -> Seq<Seq<char>> {
    (match f.description {
        Option::Some(d) => seq!["\t/** "@ + d + " */"@],
        Option::None => Seq::<Seq<char>>::empty(),
    }) + seq![
        "\t"@ + f.name + (if f.is_nullable { "?"@ } else { Seq::<char>::empty() }) + ": "@
            + ts_dtype(f) + ","@,
    ]
}

/// The interface lines of a field list.
pub open spec fn ts_iface_lines(fs: Seq<FieldView>) -> Seq<Seq<char>>
    decreases fs.len(),
{
    if fs.len() == 0 {
        Seq::empty()
    } else {
        ts_iface_field_lines(fs[0]) + ts_iface_lines(fs.drop_first())
    }
}

/// The interface's own declaration block.
pub open spec fn ts_iface_decl(s: StructView, exported: bool) -> Seq<char> {
    "/** "@ + s.description + " */\n"@ + (if exported {
        "export "@
    } else {
        Seq::<char>::empty()
    }) + "interface "@ + s.name + " {\n"@ + join_texts(ts_iface_lines(s.fields), "\n"@)
        + "\n}"@
}

/// The interface blocks a struct emits: nested objects first, unexported.
pub open spec fn ts_iface_blocks(s: StructView, exported: bool) -> Seq<Seq<char>>
    decreases s, 0int,
{
    ts_iface_nested(s.fields) + seq![ts_iface_decl(s, exported)]
}

/// The interface blocks of every nested object among the fields.
pub open spec fn ts_iface_nested(fs: Seq<FieldView>) -> Seq<Seq<char>>
    decreases fs, 1int,
{
    if fs.len() == 0 {
        Seq::empty()
    } else {
        (match fs[0].kind {
            FieldKindView::NestedObject(st) => ts_iface_blocks(st, false),
            _ => Seq::<Seq<char>>::empty(),
        }) + ts_iface_nested(fs.drop_first())
    }
}

/// Emits one TypeScript interface with its nested interfaces.
#[verifier::loop_isolation(false)]
pub fn generate_interface(_struct: &ZetroStruct, exported: bool) -> (r: Vec<String>)
    ensures
        strings_view(r@) == ts_iface_blocks(_struct@, exported),
    decreases struct_view(*_struct), 0int,
{
    let ghost sv = struct_view(*_struct);
    let ghost fvs = sv.fields;
    proof {
        lemma_fields_view(_struct.fields@);
    }
    let mut interfaces: Vec<String> = Vec::new();
    let mut iface_lines: Vec<String> = Vec::new();
    let mut i: usize = 0;
    assert(fvs.skip(0) =~= fvs);
    assert(strings_view(interfaces@) =~= Seq::<Seq<char>>::empty());
    assert(strings_view(iface_lines@) =~= Seq::<Seq<char>>::empty());
    while i < _struct.fields.len()
        invariant
            i <= _struct.fields.len(),
            strings_view(iface_lines@) + ts_iface_lines(fvs.skip(i as int))
                == ts_iface_lines(fvs),
            strings_view(interfaces@) + ts_iface_nested(fvs.skip(i as int))
                == ts_iface_nested(fvs),
        decreases _struct.fields.len() - i,
    {
        let field = &_struct.fields[i];
        proof {
            assert(fvs[i as int] == field_view(_struct.fields@[i as int]));
            assert(fvs.skip(i as int)[0] == fvs[i as int]);
            assert(fvs.skip(i as int).drop_first() =~= fvs.skip(i as int + 1));
        }
        match &field.kind {
            FieldKind::NestedObject(s) => {
                proof {
                    let fv = fvs[i as int];
                    assert(decreases_to!(sv => sv.fields));
                    assert(decreases_to!(sv.fields => sv.fields[i as int]));
                    assert(decreases_to!(fv => fv.kind));
                    let kv = fv.kind;
                    assert(decreases_to!(kv => kv->NestedObject_0));
                    assert(kv->NestedObject_0 == struct_view(*s));
                }
                let nested = generate_interface(s, false);
                let ghost before = strings_view(interfaces@);
                let ghost nb = strings_view(nested@);
                push_all(&mut interfaces, nested);
                proof {
                    assert(before + nb + ts_iface_nested(fvs.skip(i as int + 1))
                        =~= ts_iface_nested(fvs));
                }
            },
            _ => {
                proof {
                    assert(Seq::<Seq<char>>::empty()
                        + ts_iface_nested(fvs.skip(i as int + 1))
                        =~= ts_iface_nested(fvs.skip(i as int + 1)));
                }
            },
        }
        let ghost lines0 = strings_view(iface_lines@);
        match &field.description {
            Option::Some(d) => {
                let mut doc = String::from_str("\t/** ");
                doc.append(d.as_str());
                doc.append(" */");
                iface_lines.push(doc);
            },
            Option::None => {},
        }
        let mut line = String::from_str("\t");
        line.append(field.name.as_str());
        if field.is_nullable {
            line.append("?");
        }
        line.append(": ");
        let dt = field.to_ts_dtype();
        line.append(dt.as_str());
        line.append(",");
        proof {
            assert("\t"@ + fvs[i as int].name + (if fvs[i as int].is_nullable {
                "?"@
            } else {
                Seq::<char>::empty()
            }) + ": "@ + ts_dtype(fvs[i as int]) + ","@ =~= line@);
        }
        iface_lines.push(line);
        proof {
            assert(strings_view(iface_lines@)
                =~= lines0 + ts_iface_field_lines(fvs[i as int]));
            assert(lines0 + ts_iface_field_lines(fvs[i as int])
                + ts_iface_lines(fvs.skip(i as int + 1)) =~= ts_iface_lines(fvs));
        }
        i += 1;
    }
    proof {
        assert(fvs.skip(_struct.fields@.len() as int) =~= Seq::<FieldView>::empty());
        assert(strings_view(iface_lines@) + Seq::<Seq<char>>::empty()
            =~= strings_view(iface_lines@));
        assert(strings_view(interfaces@) + Seq::<Seq<char>>::empty()
            =~= strings_view(interfaces@));
    }
    let joined = join_strings(&iface_lines, "\n");
    let mut decl = String::from_str("/** ");
    decl.append(_struct.description.as_str());
    decl.append(" */\n");
    if exported {
        decl.append("export ");
    }
    decl.append("interface ");
    decl.append(_struct.name.as_str());
    decl.append(" {\n");
    decl.append(joined.as_str());
    decl.append("\n}");
    let ghost sb = strings_view(interfaces@);
    interfaces.push(decl);
    proof {
        assert(strings_view(interfaces@) =~= sb + seq![ts_iface_decl(sv, exported)]);
    }
    interfaces
}

/// One element of the serialized positional array: primitives pass through,
/// struct and nested values delegate to that struct's serializer, applied
/// element-wise under `multiple`.
pub open spec fn ts_ser_elem(f: FieldView) -> Seq<char> {
    match f.kind {
        FieldKindView::StructValue(n) => if f.is_multiple {
            "\t\tobj."@ + f.name + (if f.is_nullable {
                "?"@
            } else {
                Seq::<char>::empty()
            }) + ".map(function (nested) { return serialize"@ + n + "(nested); })"@
        } else {
            "\t\tserialize"@ + n + "(obj."@ + f.name + ")"@
        },
        FieldKindView::NestedObject(st) => if f.is_multiple {
            "\t\tobj."@ + f.name + (if f.is_nullable {
                "?"@
            } else {
                Seq::<char>::empty()
            }) + ".map(function (elem: any) { return serialize"@ + st.name + "(elem); })"@
        } else {
            "\t\tserialize"@ + st.name + "(obj."@ + f.name + ")"@
        },
        _ => "\t\tobj."@ + f.name,
    }
}

/// The serialized array elements of a field list.
pub open spec fn ts_ser_elems(fs: Seq<FieldView>) -> Seq<Seq<char>>
    decreases fs.len(),
{
    if fs.len() == 0 {
        Seq::empty()
    } else {
        seq![ts_ser_elem(fs[0])] + ts_ser_elems(fs.drop_first())
    }
}

/// The elements are pointwise.
pub proof fn lemma_ts_ser_elems(fs: Seq<FieldView>)
    ensures
        ts_ser_elems(fs).len() == fs.len(),
        forall|i: int| 0 <= i < fs.len() ==> ts_ser_elems(fs)[i] == ts_ser_elem(fs[i]),
    decreases fs.len(),
{
    if fs.len() > 0 {
        lemma_ts_ser_elems(fs.drop_first());
    }
}

/// The serializer function a struct emits; a nullable struct takes an
/// optional argument and passes a top-level null through.
pub open spec fn ts_ser_decl(s: StructView, exported: bool) -> Seq<char> {
    (if exported {
        "export "@
    } else {
        Seq::<char>::empty()
    }) + "function serialize"@ + s.name + "(obj"@ + (if s.is_nullable {
        "?"@
    } else {
        Seq::<char>::empty()
    }) + ": "@ + s.name + "): any[] | null {"@ + (if s.is_nullable {
        "\nif (obj == null) { return null; }"@
    } else {
        Seq::<char>::empty()
    }) + "\n\treturn [\n"@ + join_texts(ts_ser_elems(s.fields), ",\n"@) + "\n\t];\n}"@
}

/// The serializer functions a struct emits: nested objects first,
/// unexported.
pub open spec fn ts_ser_blocks(s: StructView, exported: bool) -> Seq<Seq<char>>
    decreases s, 0int,
{
    ts_ser_nested(s.fields) + seq![ts_ser_decl(s, exported)]
}

/// The serializer functions of every nested object among the fields.
pub open spec fn ts_ser_nested(fs: Seq<FieldView>) -> Seq<Seq<char>>
    decreases fs, 1int,
{
    if fs.len() == 0 {
        Seq::empty()
    } else {
        (match fs[0].kind {
            FieldKindView::NestedObject(st) => ts_ser_blocks(st, false),
            _ => Seq::<Seq<char>>::empty(),
        }) + ts_ser_nested(fs.drop_first())
    }
}

/// Emits the untagged serializer (interface to list) for one struct.
#[verifier::loop_isolation(false)]
pub fn generate_untagged_serializer(_struct: &ZetroStruct, exported: bool) -> (r: Vec<String>)
    ensures
        strings_view(r@) == ts_ser_blocks(_struct@, exported),
    decreases struct_view(*_struct), 0int,
{
    let ghost sv = struct_view(*_struct);
    let ghost fvs = sv.fields;
    proof {
        lemma_fields_view(_struct.fields@);
        lemma_ts_ser_elems(fvs);
    }
    let mut serializer_fns: Vec<String> = Vec::new();
    let mut elems: Vec<String> = Vec::new();
    let mut i: usize = 0;
    assert(fvs.skip(0) =~= fvs);
    assert(strings_view(serializer_fns@) =~= Seq::<Seq<char>>::empty());
    while i < _struct.fields.len()
        invariant
            i <= _struct.fields.len(),
            elems@.len() == i,
            forall|k: int| 0 <= k < i ==> #[trigger] elems@[k]@ == ts_ser_elem(fvs[k]),
            strings_view(serializer_fns@) + ts_ser_nested(fvs.skip(i as int))
                == ts_ser_nested(fvs),
        decreases _struct.fields.len() - i,
    {
        let field = &_struct.fields[i];
        proof {
            assert(fvs[i as int] == field_view(_struct.fields@[i as int]));
            assert(fvs.skip(i as int)[0] == fvs[i as int]);
            assert(fvs.skip(i as int).drop_first() =~= fvs.skip(i as int + 1));
        }
        let elem: String = match &field.kind {
            FieldKind::StructValue(struct_name) => {
                proof {
                    assert(Seq::<Seq<char>>::empty()
                        + ts_ser_nested(fvs.skip(i as int + 1))
                        =~= ts_ser_nested(fvs.skip(i as int + 1)));
                }
                if field.is_multiple {
                    let mut e = String::from_str("\t\tobj.");
                    e.append(field.name.as_str());
                    if field.is_nullable {
                        e.append("?");
                    }
                    e.append(".map(function (nested) { return serialize");
                    e.append(struct_name.as_str());
                    e.append("(nested); })");
                    e
                } else {
                    let mut e = String::from_str("\t\tserialize");
                    e.append(struct_name.as_str());
                    e.append("(obj.");
                    e.append(field.name.as_str());
                    e.append(")");
                    e
                }
            },
            FieldKind::NestedObject(s) => {
                proof {
                    let fv = fvs[i as int];
                    assert(decreases_to!(sv => sv.fields));
                    assert(decreases_to!(sv.fields => sv.fields[i as int]));
                    assert(decreases_to!(fv => fv.kind));
                    let kv = fv.kind;
                    assert(decreases_to!(kv => kv->NestedObject_0));
                    assert(kv->NestedObject_0 == struct_view(*s));
                }
                let nested = generate_untagged_serializer(s, false);
                let ghost before = strings_view(serializer_fns@);
                let ghost nb = strings_view(nested@);
                push_all(&mut serializer_fns, nested);
                proof {
                    assert(before + nb + ts_ser_nested(fvs.skip(i as int + 1))
                        =~= ts_ser_nested(fvs));
                }
                if field.is_multiple {
                    let mut e = String::from_str("\t\tobj.");
                    e.append(field.name.as_str());
                    if field.is_nullable {
                        e.append("?");
                    }
                    e.append(".map(function (elem: any) { return serialize");
                    e.append(s.name.as_str());
                    e.append("(elem); })");
                    e
                } else {
                    let mut e = String::from_str("\t\tserialize");
                    e.append(s.name.as_str());
                    e.append("(obj.");
                    e.append(field.name.as_str());
                    e.append(")");
                    e
                }
            },
            _ => {
                proof {
                    assert(Seq::<Seq<char>>::empty()
                        + ts_ser_nested(fvs.skip(i as int + 1))
                        =~= ts_ser_nested(fvs.skip(i as int + 1)));
                }
                let mut e = String::from_str("\t\tobj.");
                e.append(field.name.as_str());
                e
            },
        };
        elems.push(elem);
        i += 1;
    }
    proof {
        assert(fvs.skip(_struct.fields@.len() as int) =~= Seq::<FieldView>::empty());
        assert(strings_view(elems@) =~= ts_ser_elems(fvs));
        assert(strings_view(serializer_fns@) + Seq::<Seq<char>>::empty()
            =~= strings_view(serializer_fns@));
    }
    let joined = join_strings(&elems, ",\n");
    let mut decl = String::new();
    if exported {
        decl.append("export ");
    }
    decl.append("function serialize");
    decl.append(_struct.name.as_str());
    decl.append("(obj");
    if _struct.is_nullable {
        decl.append("?");
    }
    decl.append(": ");
    decl.append(_struct.name.as_str());
    decl.append("): any[] | null {");
    if _struct.is_nullable {
        decl.append("\nif (obj == null) { return null; }");
    }
    decl.append("\n\treturn [\n");
    decl.append(joined.as_str());
    decl.append("\n\t];\n}");
    let ghost sb = strings_view(serializer_fns@);
    serializer_fns.push(decl);
    proof {
        assert(strings_view(serializer_fns@) =~= sb + seq![ts_ser_decl(sv, exported)]);
    }
    serializer_fns
}

/// One property of the rebuilt object: primitives read their position,
/// struct and nested values delegate to that struct's deserializer, applied
/// element-wise under `multiple`.
pub open spec fn ts_de_prop(f: FieldView, idx: nat) -> Seq<char> {
    match f.kind {
        FieldKindView::StructValue(n) => if f.is_multiple {
            "\t\t"@ + f.name + ": obj["@ + dec_digits(idx) + "]"@ + (if f.is_nullable {
                "?"@
            } else {
                Seq::<char>::empty()
            }) + ".map(function (elem: any) { return deserialize"@ + n + "(elem); })"@
        } else {
            "\t\t"@ + f.name + ": deserialize"@ + n + "(obj["@ + dec_digits(idx) + "])"@
        },
        FieldKindView::NestedObject(st) => if f.is_multiple {
            "\t\t"@ + f.name + ": obj["@ + dec_digits(idx) + "]"@ + (if f.is_nullable {
                "?"@
            } else {
                Seq::<char>::empty()
            }) + ".map(function (elem: any) { return deserialize"@ + st.name + "(elem); })"@
        } else {
            "\t\t"@ + f.name + ": deserialize"@ + st.name + "(obj["@ + dec_digits(idx) + "])"@
        },
        _ => "\t\t"@ + f.name + ": obj["@ + dec_digits(idx) + "]"@,
    }
}

/// The rebuilt object's properties, positions counting up from `start`.
pub open spec fn ts_de_props(fs: Seq<FieldView>, start: nat) -> Seq<Seq<char>>
    decreases fs.len(),
{
    if fs.len() == 0 {
        Seq::empty()
    } else {
        seq![ts_de_prop(fs[0], start)] + ts_de_props(fs.drop_first(), start + 1)
    }
}

/// The properties are pointwise.
pub proof fn lemma_ts_de_props(fs: Seq<FieldView>, start: nat)
    ensures
        ts_de_props(fs, start).len() == fs.len(),
        forall|i: int| 0 <= i < fs.len() ==> ts_de_props(fs, start)[i]
            == ts_de_prop(fs[i], (start + i) as nat),
    decreases fs.len(),
{
    if fs.len() > 0 {
        lemma_ts_de_props(fs.drop_first(), start + 1);
    }
}

/// The deserializer function a struct emits; a top-level null passes
/// through.
pub open spec fn ts_de_decl(s: StructView, exported: bool) -> Seq<char> {
    (if exported {
        "export "@
    } else {
        Seq::<char>::empty()
    }) + "function deserialize"@ + s.name + "(obj: any): "@ + s.name
        + " | null {\n\tif (obj == null) { return null; }\n\treturn {\n"@
        + join_texts(ts_de_props(s.fields, 0), ",\n"@) + "\n\t};\n}"@
}

/// The deserializer functions a struct emits: nested objects first,
/// unexported.
pub open spec fn ts_de_blocks(s: StructView, exported: bool) -> Seq<Seq<char>>
    decreases s, 0int,
{
    ts_de_nested(s.fields) + seq![ts_de_decl(s, exported)]
}

/// The deserializer functions of every nested object among the fields.
pub open spec fn ts_de_nested(fs: Seq<FieldView>) -> Seq<Seq<char>>
    decreases fs, 1int,
{
    if fs.len() == 0 {
        Seq::empty()
    } else {
        (match fs[0].kind {
            FieldKindView::NestedObject(st) => ts_de_blocks(st, false),
            _ => Seq::<Seq<char>>::empty(),
        }) + ts_de_nested(fs.drop_first())
    }
}

/// Emits the untagged deserializer (list to interface) for one struct.
#[verifier::loop_isolation(false)]
pub fn generate_untagged_deserializer(_struct: &ZetroStruct, exported: bool)
    -> (r: Vec<String>)
    ensures
        strings_view(r@) == ts_de_blocks(_struct@, exported),
    decreases struct_view(*_struct), 0int,
{
    let ghost sv = struct_view(*_struct);
    let ghost fvs = sv.fields;
    proof {
        lemma_fields_view(_struct.fields@);
        lemma_ts_de_props(fvs, 0);
    }
    let mut deserializer_fns: Vec<String> = Vec::new();
    let mut props: Vec<String> = Vec::new();
    let mut i: usize = 0;
    assert(fvs.skip(0) =~= fvs);
    assert(strings_view(deserializer_fns@) =~= Seq::<Seq<char>>::empty());
    while i < _struct.fields.len()
        invariant
            i <= _struct.fields.len(),
            props@.len() == i,
            forall|k: int| 0 <= k < i ==> #[trigger] props@[k]@
                == ts_de_prop(fvs[k], k as nat),
            strings_view(deserializer_fns@) + ts_de_nested(fvs.skip(i as int))
                == ts_de_nested(fvs),
        decreases _struct.fields.len() - i,
    {
        let field = &_struct.fields[i];
        proof {
            assert(fvs[i as int] == field_view(_struct.fields@[i as int]));
            assert(fvs.skip(i as int)[0] == fvs[i as int]);
            assert(fvs.skip(i as int).drop_first() =~= fvs.skip(i as int + 1));
        }
        let idx = u64_to_dec(i as u64);
        let prop: String = match &field.kind {
            FieldKind::StructValue(struct_name) => {
                proof {
                    assert(Seq::<Seq<char>>::empty()
                        + ts_de_nested(fvs.skip(i as int + 1))
                        =~= ts_de_nested(fvs.skip(i as int + 1)));
                }
                if field.is_multiple {
                    let mut e = String::from_str("\t\t");
                    e.append(field.name.as_str());
                    e.append(": obj[");
                    e.append(idx.as_str());
                    e.append("]");
                    if field.is_nullable {
                        e.append("?");
                    }
                    e.append(".map(function (elem: any) { return deserialize");
                    e.append(struct_name.as_str());
                    e.append("(elem); })");
                    e
                } else {
                    let mut e = String::from_str("\t\t");
                    e.append(field.name.as_str());
                    e.append(": deserialize");
                    e.append(struct_name.as_str());
                    e.append("(obj[");
                    e.append(idx.as_str());
                    e.append("])");
                    e
                }
            },
            FieldKind::NestedObject(s) => {
                proof {
                    let fv = fvs[i as int];
                    assert(decreases_to!(sv => sv.fields));
                    assert(decreases_to!(sv.fields => sv.fields[i as int]));
                    assert(decreases_to!(fv => fv.kind));
                    let kv = fv.kind;
                    assert(decreases_to!(kv => kv->NestedObject_0));
                    assert(kv->NestedObject_0 == struct_view(*s));
                }
                let nested = generate_untagged_deserializer(s, false);
                let ghost before = strings_view(deserializer_fns@);
                let ghost nb = strings_view(nested@);
                push_all(&mut deserializer_fns, nested);
                proof {
                    assert(before + nb + ts_de_nested(fvs.skip(i as int + 1))
                        =~= ts_de_nested(fvs));
                }
                if field.is_multiple {
                    let mut e = String::from_str("\t\t");
                    e.append(field.name.as_str());
                    e.append(": obj[");
                    e.append(idx.as_str());
                    e.append("]");
                    if field.is_nullable {
                        e.append("?");
                    }
                    e.append(".map(function (elem: any) { return deserialize");
                    e.append(s.name.as_str());
                    e.append("(elem); })");
                    e
                } else {
                    let mut e = String::from_str("\t\t");
                    e.append(field.name.as_str());
                    e.append(": deserialize");
                    e.append(s.name.as_str());
                    e.append("(obj[");
                    e.append(idx.as_str());
                    e.append("])");
                    e
                }
            },
            _ => {
                proof {
                    assert(Seq::<Seq<char>>::empty()
                        + ts_de_nested(fvs.skip(i as int + 1))
                        =~= ts_de_nested(fvs.skip(i as int + 1)));
                }
                let mut e = String::from_str("\t\t");
                e.append(field.name.as_str());
                e.append(": obj[");
                e.append(idx.as_str());
                e.append("]");
                e
            },
        };
        props.push(prop);
        i += 1;
    }
    proof {
        assert(fvs.skip(_struct.fields@.len() as int) =~= Seq::<FieldView>::empty());
        assert(strings_view(props@) =~= ts_de_props(fvs, 0));
        assert(strings_view(deserializer_fns@) + Seq::<Seq<char>>::empty()
            =~= strings_view(deserializer_fns@));
    }
    let joined = join_strings(&props, ",\n");
    let mut decl = String::new();
    if exported {
        decl.append("export ");
    }
    decl.append("function deserialize");
    decl.append(_struct.name.as_str());
    decl.append("(obj: any): ");
    decl.append(_struct.name.as_str());
    decl.append(" | null {\n\tif (obj == null) { return null; }\n\treturn {\n");
    decl.append(joined.as_str());
    decl.append("\n\t};\n}");
    let ghost sb = strings_view(deserializer_fns@);
    deserializer_fns.push(decl);
    proof {
        assert(strings_view(deserializer_fns@) =~= sb + seq![ts_de_decl(sv, exported)]);
    }
    deserializer_fns
}

/// The blocks a list of structs emits: interfaces, and in untagged mode the
/// codec pair, struct by struct.
pub open spec fn ts_structs_texts(ss: Seq<StructView>, untagged_repr: bool) -> Seq<Seq<char>>
    decreases ss.len(),
{
    if ss.len() == 0 {
        Seq::empty()
    } else {
        ts_iface_blocks(ss[0], true) + (if untagged_repr {
            ts_ser_blocks(ss[0], true) + ts_de_blocks(ss[0], true)
        } else {
            Seq::<Seq<char>>::empty()
        }) + ts_structs_texts(ss.drop_first(), untagged_repr)
    }
}

/// Everything the struct section emits, banners included.
pub open spec fn ts_structs_section(ss: Seq<StructView>, untagged_repr: bool)
    -> Seq<Seq<char>>
{
    seq!["/* ============ Structs ============ */"@] + ts_structs_texts(ss, untagged_repr)
        + seq!["/* ============ End Structs ============ */"@]
}

/// Emits the struct section into the scope: each interface and, in untagged
/// mode, its codec pair.
#[verifier::loop_isolation(false)]
pub fn generate_structs(scope: &mut Vec<String>, structs: &Vec<ZetroStruct>, untagged_repr: bool)
    ensures
        strings_view(final(scope)@) == strings_view(old(scope)@)
            + ts_structs_section(crate::schema::structs_view(structs@), untagged_repr),
{
    let ghost ss = crate::schema::structs_view(structs@);
    let ghost base = strings_view(old(scope)@);
    scope.push(String::from_str("/* ============ Structs ============ */"));
    let ghost base1 = strings_view(scope@);
    proof {
        assert(base1 =~= base + seq!["/* ============ Structs ============ */"@]);
        assert(ss.skip(0) =~= ss);
    }
    let mut i: usize = 0;
    while i < structs.len()
        invariant
            i <= structs.len(),
            strings_view(scope@) + ts_structs_texts(ss.skip(i as int), untagged_repr)
                == base1 + ts_structs_texts(ss, untagged_repr),
        decreases structs.len() - i,
    {
        proof {
            assert(ss.skip(i as int)[0] == ss[i as int]);
            assert(ss[i as int] == struct_view(structs@[i as int]));
            assert(ss.skip(i as int).drop_first() =~= ss.skip(i as int + 1));
        }
        let ghost before = strings_view(scope@);
        let blocks = generate_interface(&structs[i], true);
        let ghost bd = strings_view(blocks@);
        push_all(scope, blocks);
        if untagged_repr {
            let ser = generate_untagged_serializer(&structs[i], true);
            let ghost sd = strings_view(ser@);
            push_all(scope, ser);
            let de = generate_untagged_deserializer(&structs[i], true);
            let ghost dd = strings_view(de@);
            push_all(scope, de);
            proof {
                assert(before + bd + sd + dd =~= before + (bd + (sd + dd)));
                assert(bd + (sd + dd) =~= ts_iface_blocks(ss[i as int], true)
                    + (ts_ser_blocks(ss[i as int], true) + ts_de_blocks(ss[i as int], true)));
                assert(strings_view(scope@)
                    + ts_structs_texts(ss.skip(i as int + 1), untagged_repr)
                    =~= before + ts_structs_texts(ss.skip(i as int), untagged_repr));
            }
        } else {
            proof {
                assert(strings_view(scope@)
                    + ts_structs_texts(ss.skip(i as int + 1), untagged_repr)
                    =~= before + ts_structs_texts(ss.skip(i as int), untagged_repr));
            }
        }
        i += 1;
    }
    proof {
        assert(ss.skip(structs@.len() as int) =~= Seq::<StructView>::empty());
    }
    let ghost pre = strings_view(scope@);
    proof {
        assert(pre + Seq::<Seq<char>>::empty() =~= pre);
        assert(pre =~= base1 + ts_structs_texts(ss, untagged_repr));
    }
    scope.push(String::from_str("/* ============ End Structs ============ */"));
    proof {
        assert(strings_view(scope@)
            =~= pre + seq!["/* ============ End Structs ============ */"@]);
        assert(strings_view(scope@) =~= base + ts_structs_section(ss, untagged_repr));
    }
}

} // verus!
