//! The Rust backend emitter: type declarations for structs and enums, and
//! the optional untagged (positional-array) serde codec pair.

use vstd::prelude::*;
use vstd::string::*;
use crate::enums::{EnumView, ZetroEnum};
use crate::fields::{field_view, FieldKind, FieldKindView, FieldView, ZetroField};
use crate::structs::{fields_view, lemma_fields_view, struct_view, StructView, ZetroStruct};
use crate::text::{dec_digits, join_strings, join_texts, strings_view, u64_to_dec};

verus! {

/// The Rust type literal for a field: widths map directly, a recursive
/// struct reference is boxed, `multiple` wraps in `Vec`, `nullable` wraps
/// in `Option`.
pub open spec fn rust_dtype(f: FieldView) -> Seq<char> {
    let base = match f.kind {
        FieldKindView::Int8 => "i8"@,
        FieldKindView::UInt8 => "u8"@,
        FieldKindView::Int16 => "i16"@,
        FieldKindView::UInt16 => "u16"@,
        FieldKindView::Int32 => "i32"@,
        FieldKindView::UInt32 => "u32"@,
        FieldKindView::Int64 => "i64"@,
        FieldKindView::UInt64 => "u64"@,
        FieldKindView::Float32 => "f32"@,
        FieldKindView::Float64 => "f64"@,
        FieldKindView::Boolean => "bool"@,
        FieldKindView::StringValue => "String"@,
        FieldKindView::StructValue(s) => if f.is_recursive {
            "Box<"@ + s + ">"@
        } else {
            s
        },
        FieldKindView::EnumValue(e) => e,
        FieldKindView::NestedObject(s) => s.name,
    };
    let listed = if f.is_multiple {
        "Vec<"@ + base + ">"@
    } else {
        base
    };
    if f.is_nullable {
        "Option<"@ + listed + ">"@
    } else {
        listed
    }
}

impl ZetroField {
    /// Renders the Rust representation of the field's type.
    pub fn to_rust_dtype(&self) -> (r: String)
        ensures
            r@ == rust_dtype(self@),
    {
        let mut base = match &self.kind {
            FieldKind::Int8 => String::from_str("i8"),
            FieldKind::UInt8 => String::from_str("u8"),
            FieldKind::Int16 => String::from_str("i16"),
            FieldKind::UInt16 => String::from_str("u16"),
            FieldKind::Int32 => String::from_str("i32"),
            FieldKind::UInt32 => String::from_str("u32"),
            FieldKind::Int64 => String::from_str("i64"),
            FieldKind::UInt64 => String::from_str("u64"),
            FieldKind::Float32 => String::from_str("f32"),
            FieldKind::Float64 => String::from_str("f64"),
            FieldKind::Boolean => String::from_str("bool"),
            FieldKind::StringValue => String::from_str("String"),
            FieldKind::StructValue(s) => {
                if self.is_recursive {
                    let mut t = String::from_str("Box<");
                    t.append(s.as_str());
                    t.append(">");
                    t
                } else {
                    s.clone()
                }
            },
            FieldKind::EnumValue(e) => e.clone(),
            FieldKind::NestedObject(s) => s.name.clone(),
        };
        if self.is_multiple {
            let mut t = String::from_str("Vec<");
            t.append(base.as_str());
            t.append(">");
            base = t;
        }
        if self.is_nullable {
            let mut t = String::from_str("Option<");
            t.append(base.as_str());
            t.append(">");
            base = t;
        }
        base
    }
}

/// One enum variant line with its explicit ordinal.
pub open spec fn rust_enum_variant_line(v: Seq<char>, ord: nat) -> Seq<char> {
    "\t"@ + v + " = "@ + dec_digits(ord) + ","@
}

/// The variant lines of an enum, ordinals counting up from `start`.
pub open spec fn rust_enum_variant_lines(vs: Seq<Seq<char>>, start: nat) -> Seq<Seq<char>>
    decreases vs.len(),
{
    if vs.len() == 0 {
        Seq::empty()
    } else {
        seq![rust_enum_variant_line(vs[0], start)]
            + rust_enum_variant_lines(vs.drop_first(), start + 1)
    }
}

/// The lines are pointwise.
pub proof fn lemma_rust_enum_variant_lines(vs: Seq<Seq<char>>, start: nat)
    ensures
        rust_enum_variant_lines(vs, start).len() == vs.len(),
        forall|i: int| 0 <= i < vs.len() ==> rust_enum_variant_lines(vs, start)[i]
            == rust_enum_variant_line(vs[i], (start + i) as nat),
    decreases vs.len(),
{
    if vs.len() > 0 {
        lemma_rust_enum_variant_lines(vs.drop_first(), start + 1);
    }
}

/// The emitted Rust enum: a compact tagged integer enumeration with
/// explicit ordinals from 0 and an 8-bit wire representation.
pub open spec fn rust_enum_text(e: EnumView) -> Seq<char> {
    "#[derive(Debug, Copy, Clone, PartialEq, serde_repr::Serialize_repr, serde_repr::Deserialize_repr)]"@
        + "\n"@ + "#[repr(u8)]"@ + "\npub enum "@ + e.name + " {\n"@
        + join_texts(rust_enum_variant_lines(e.variants, 0), "\n"@) + "\n}"@
}

/// Emits one Rust enum.
#[verifier::loop_isolation(false)]
pub fn generate_enum(_enum: &ZetroEnum) -> (r: String)
    ensures
        r@ == rust_enum_text(_enum@),
{
    let ghost vs = _enum@.variants;
    proof {
        lemma_rust_enum_variant_lines(vs, 0);
    }
    let mut lines: Vec<String> = Vec::new();
    let mut i: usize = 0;
    while i < _enum.variants.len()
        invariant
            i <= _enum.variants.len(),
            lines@.len() == i,
            forall|k: int| 0 <= k < i ==> #[trigger] lines@[k]@
                == rust_enum_variant_line(vs[k], k as nat),
        decreases _enum.variants.len() - i,
    {
        let mut line = String::from_str("\t");
        line.append(_enum.variants[i].as_str());
        line.append(" = ");
        let ord = u64_to_dec(i as u64);
        line.append(ord.as_str());
        line.append(",");
        lines.push(line);
        i += 1;
    }
    proof {
        assert(strings_view(lines@) =~= rust_enum_variant_lines(vs, 0));
    }
    let joined = join_strings(&lines, "\n");
    let mut out = String::from_str(
        "#[derive(Debug, Copy, Clone, PartialEq, serde_repr::Serialize_repr, serde_repr::Deserialize_repr)]",
    );
    out.append("\n");
    out.append("#[repr(u8)]");
    out.append("\npub enum ");
    out.append(_enum.name.as_str());
    out.append(" {\n");
    out.append(joined.as_str());
    out.append("\n}");
    out
}

/// The emitted texts for a list of enums, one per enum.
pub open spec fn rust_enums_texts(es: Seq<EnumView>) -> Seq<Seq<char>>
    decreases es.len(),
{
    if es.len() == 0 {
        Seq::empty()
    } else {
        seq![rust_enum_text(es[0])] + rust_enums_texts(es.drop_first())
    }
}

/// The texts are pointwise.
pub proof fn lemma_rust_enums_texts(es: Seq<EnumView>)
    ensures
        rust_enums_texts(es).len() == es.len(),
        forall|i: int| 0 <= i < es.len() ==> rust_enums_texts(es)[i] == rust_enum_text(es[i]),
    decreases es.len(),
{
    if es.len() > 0 {
        lemma_rust_enums_texts(es.drop_first());
    }
}

/// Emits every enum into the scope, in order.
#[verifier::loop_isolation(false)]
pub fn generate_enums(scope: &mut Vec<String>, enums: &Vec<ZetroEnum>)
    ensures
        strings_view(final(scope)@) == strings_view(old(scope)@)
            + rust_enums_texts(crate::schema::enums_view(enums@)),
{
    let ghost es = crate::schema::enums_view(enums@);
    let ghost base = strings_view(old(scope)@);
    proof {
        lemma_rust_enums_texts(es);
    }
    let mut i: usize = 0;
    while i < enums.len()
        invariant
            i <= enums.len(),
            scope@.len() == old(scope)@.len() + i,
            forall|k: int| 0 <= k < base.len() ==> strings_view(scope@)[k] == base[k],
            forall|k: int| 0 <= k < i ==> strings_view(scope@)[base.len() + k]
                == rust_enum_text(es[k]),
        decreases enums.len() - i,
    {
        let text = generate_enum(&enums[i]);
        scope.push(text);
        i += 1;
    }
    proof {
        assert(strings_view(scope@) =~= base + rust_enums_texts(es));
    }
}

/// One struct field declaration line, with its doc line when described.
pub open spec fn rust_field_line(f: FieldView) -> Seq<char> {
    (match f.description {
        Option::Some(d) => "\t/// "@ + d + "\n"@,
        Option::None => Seq::<char>::empty(),
    }) + "\tpub "@ + f.name + ": "@ + rust_dtype(f) + ","@
}

/// The field declaration lines of a struct.
pub open spec fn rust_field_lines(fs: Seq<FieldView>) -> Seq<Seq<char>>
    decreases fs.len(),
{
    if fs.len() == 0 {
        Seq::empty()
    } else {
        seq![rust_field_line(fs[0])] + rust_field_lines(fs.drop_first())
    }
}

/// The lines are pointwise.
pub proof fn lemma_rust_field_lines(fs: Seq<FieldView>)
    ensures
        rust_field_lines(fs).len() == fs.len(),
        forall|i: int| 0 <= i < fs.len() ==> rust_field_lines(fs)[i] == rust_field_line(fs[i]),
    decreases fs.len(),
{
    if fs.len() > 0 {
        lemma_rust_field_lines(fs.drop_first());
    }
}

/// The struct's own declaration block.
pub open spec fn rust_struct_decl(s: StructView, untagged_repr: bool) -> Seq<char> {
    "/// "@ + s.description + "\n"@ + (if untagged_repr {
        "#[derive(Debug, Clone)]"@
    } else {
        "#[derive(Debug, Clone, serde_derive::Serialize, serde_derive::Deserialize)]\n#[serde(rename_all = \"camelCase\")]"@
    }) + "\npub struct "@ + s.name + " {\n"@ + join_texts(rust_field_lines(s.fields), "\n"@)
        + "\n}"@
}

/// The first nested block gets an attribute because the derived name holds
/// an underscore.
pub open spec fn mark_first_allow(blocks: Seq<Seq<char>>) -> Seq<Seq<char>> {
    if blocks.len() == 0 {
        blocks
    } else {
        seq!["#[allow(non_camel_case_types)]\n"@ + blocks[0]] + blocks.drop_first()
    }
}

/// The declaration blocks a struct emits: blocks for each nested object
/// first, then the struct's own declaration.
pub open spec fn rust_struct_blocks(s: StructView, untagged_repr: bool) -> Seq<Seq<char>>
    decreases s, 0int,
{
    rust_nested_blocks(s.fields, untagged_repr) + seq![rust_struct_decl(s, untagged_repr)]
}

/// The declaration blocks of every nested object among the fields.
pub open spec fn rust_nested_blocks(fs: Seq<FieldView>, untagged_repr: bool) -> Seq<Seq<char>>
    decreases fs, 1int,
{
    if fs.len() == 0 {
        Seq::empty()
    } else {
        (match fs[0].kind {
            FieldKindView::NestedObject(st) => mark_first_allow(
                rust_struct_blocks(st, untagged_repr),
            ),
            _ => Seq::<Seq<char>>::empty(),
        }) + rust_nested_blocks(fs.drop_first(), untagged_repr)
    }
}

/// Emits one Rust struct with its nested declarations.
#[verifier::loop_isolation(false)]
pub fn generate_struct(_struct: &ZetroStruct, untagged_repr: bool) -> (r: Vec<String>)
    ensures
        strings_view(r@) == rust_struct_blocks(_struct@, untagged_repr),
    decreases struct_view(*_struct), 0int,
{
    let ghost sv = struct_view(*_struct);
    let ghost fvs = sv.fields;
    proof {
        lemma_fields_view(_struct.fields@);
        lemma_rust_field_lines(fvs);
    }
    let mut struct_blocks: Vec<String> = Vec::new();
    let mut field_lines: Vec<String> = Vec::new();
    let mut i: usize = 0;
    assert(fvs.skip(0) =~= fvs);
    assert(strings_view(struct_blocks@) =~= Seq::<Seq<char>>::empty());
    while i < _struct.fields.len()
        invariant
            i <= _struct.fields.len(),
            field_lines@.len() == i,
            forall|k: int| 0 <= k < i ==> #[trigger] field_lines@[k]@
                == rust_field_line(fvs[k]),
            strings_view(struct_blocks@) + rust_nested_blocks(fvs.skip(i as int), untagged_repr)
                == rust_nested_blocks(fvs, untagged_repr),
        decreases _struct.fields.len() - i,
    {
        let field = &_struct.fields[i];
        proof {
            assert(fvs[i as int] == field_view(_struct.fields@[i as int]));
            assert(fvs.skip(i as int)[0] == fvs[i as int]);
            assert(fvs.skip(i as int).drop_first() =~= fvs.skip(i as int + 1));
        }
        match &field.kind {
            FieldKind::NestedObject(s) => {
                proof {
                    let fv = fvs[i as int];
                    assert(decreases_to!(sv => sv.fields));
                    assert(decreases_to!(sv.fields => sv.fields[i as int]));
                    assert(decreases_to!(fv => fv.kind));
                    let kv = fv.kind;
                    assert(decreases_to!(kv => kv->NestedObject_0));
                    assert(kv->NestedObject_0 == struct_view(*s));
                }
                let nested = generate_struct(s, untagged_repr);
                let ghost nb = strings_view(nested@);
                let ghost before = strings_view(struct_blocks@);
                let mut j: usize = 0;
                while j < nested.len()
                    invariant
                        j <= nested.len(),
                        nb == strings_view(nested@),
                        nb.len() == nested@.len(),
                        strings_view(struct_blocks@) == before + mark_first_allow(nb).take(
                            j as int,
                        ),
                    decreases nested.len() - j,
                {
                    proof {
                        if nb.len() > 0 {
                            assert(mark_first_allow(nb).len() == nb.len());
                        }
                    }
                    let mut block: String;
                    if j == 0 {
                        block = String::from_str("#[allow(non_camel_case_types)]\n");
                        block.append(nested[j].as_str());
                    } else {
                        block = nested[j].clone();
                    }
                    let ghost sb0 = strings_view(struct_blocks@);
                    struct_blocks.push(block);
                    proof {
                        assert(strings_view(struct_blocks@)
                            =~= sb0 + seq![mark_first_allow(nb)[j as int]]);
                        assert(before + mark_first_allow(nb).take(j as int)
                            + seq![mark_first_allow(nb)[j as int]]
                            =~= before + mark_first_allow(nb).take(j as int + 1));
                    }
                    j += 1;
                }
                proof {
                    assert(mark_first_allow(nb).take(nested@.len() as int)
                        =~= mark_first_allow(nb));
                    assert(strings_view(struct_blocks@)
                        + rust_nested_blocks(fvs.skip(i as int + 1), untagged_repr)
                        =~= rust_nested_blocks(fvs, untagged_repr));
                }
            },
            _ => {
                proof {
                    assert(Seq::<Seq<char>>::empty()
                        + rust_nested_blocks(fvs.skip(i as int + 1), untagged_repr)
                        =~= rust_nested_blocks(fvs.skip(i as int + 1), untagged_repr));
                }
            },
        }
        let mut line = String::new();
        match &field.description {
            Option::Some(d) => {
                line.append("\t/// ");
                line.append(d.as_str());
                line.append("\n");
            },
            Option::None => {},
        }
        line.append("\tpub ");
        line.append(field.name.as_str());
        line.append(": ");
        let dt = field.to_rust_dtype();
        line.append(dt.as_str());
        line.append(",");
        proof {
            assert(match fvs[i as int].description {
                Option::Some(d) => Seq::<char>::empty() + "\t/// "@ + d + "\n"@,
                Option::None => Seq::<char>::empty(),
            } + "\tpub "@ + fvs[i as int].name + ": "@ + rust_dtype(fvs[i as int]) + ","@
                =~= rust_field_line(fvs[i as int]));
        }
        field_lines.push(line);
        i += 1;
    }
    proof {
        assert(fvs.skip(_struct.fields@.len() as int) =~= Seq::<FieldView>::empty());
        assert(strings_view(field_lines@) =~= rust_field_lines(fvs));
    }
    let joined = join_strings(&field_lines, "\n");
    let mut decl = String::from_str("/// ");
    decl.append(_struct.description.as_str());
    decl.append("\n");
    if untagged_repr {
        decl.append("#[derive(Debug, Clone)]");
    } else {
        decl.append(
            "#[derive(Debug, Clone, serde_derive::Serialize, serde_derive::Deserialize)]\n#[serde(rename_all = \"camelCase\")]",
        );
    }
    decl.append("\npub struct ");
    decl.append(_struct.name.as_str());
    decl.append(" {\n");
    decl.append(joined.as_str());
    decl.append("\n}");
    let ghost sb = strings_view(struct_blocks@);
    struct_blocks.push(decl);
    proof {
        assert(strings_view(struct_blocks@) =~= sb + seq![rust_struct_decl(sv, untagged_repr)]);
    }
    struct_blocks
}

/// One positional serialization line.
pub open spec fn rust_ser_elem_line(f: FieldView) -> Seq<char> {
    "\t\tstate.serialize_element(&self."@ + f.name + ")?;"@
}

/// The positional serialization lines of a struct's fields.
pub open spec fn rust_ser_elem_lines(fs: Seq<FieldView>) -> Seq<Seq<char>>
    decreases fs.len(),
{
    if fs.len() == 0 {
        Seq::empty()
    } else {
        seq![rust_ser_elem_line(fs[0])] + rust_ser_elem_lines(fs.drop_first())
    }
}

/// The lines are pointwise.
pub proof fn lemma_rust_ser_elem_lines(fs: Seq<FieldView>)
    ensures
        rust_ser_elem_lines(fs).len() == fs.len(),
        forall|i: int| 0 <= i < fs.len() ==> rust_ser_elem_lines(fs)[i]
            == rust_ser_elem_line(fs[i]),
    decreases fs.len(),
{
    if fs.len() > 0 {
        lemma_rust_ser_elem_lines(fs.drop_first());
    }
}

/// The serializer impl block a struct emits.
pub open spec fn rust_ser_decl(s: StructView) -> Seq<char> {
    "impl "@ + "serde::ser::Serialize"@ + " for "@ + s.name + " {\n"@
        + "fn serialize<S>(&self, serializer: S) -> Result<S::Ok, S::Error>\n\twhere S: serde::ser::Serializer,\n\t{\n\t\tlet mut state = serializer.serialize_tuple("@
        + dec_digits(s.fields.len() as nat) + ")?;\n"@
        + join_texts(rust_ser_elem_lines(s.fields), "\n"@) + "\n\t\tstate.end()    \n\t}"@
        + "\n}"@
}

/// The serializer blocks a struct emits: one for each nested object first,
/// then its own.
pub open spec fn rust_ser_blocks(s: StructView) -> Seq<Seq<char>>
    decreases s, 0int,
{
    rust_ser_nested(s.fields) + seq![rust_ser_decl(s)]
}

/// The serializer blocks of every nested object among the fields.
pub open spec fn rust_ser_nested(fs: Seq<FieldView>) -> Seq<Seq<char>>
    decreases fs, 1int,
{
    if fs.len() == 0 {
        Seq::empty()
    } else {
        (match fs[0].kind {
            FieldKindView::NestedObject(st) => rust_ser_blocks(st),
            _ => Seq::<Seq<char>>::empty(),
        }) + rust_ser_nested(fs.drop_first())
    }
}

/// Emits the untagged serde serializer for one struct.
#[verifier::loop_isolation(false)]
pub fn generate_untagged_serializer(_struct: &ZetroStruct) -> (r: Vec<String>)
    ensures
        strings_view(r@) == rust_ser_blocks(_struct@),
    decreases struct_view(*_struct), 0int,
{
    let ghost sv = struct_view(*_struct);
    let ghost fvs = sv.fields;
    proof {
        lemma_fields_view(_struct.fields@);
        lemma_rust_ser_elem_lines(fvs);
    }
    let mut impl_blocks: Vec<String> = Vec::new();
    let mut elem_lines: Vec<String> = Vec::new();
    let mut i: usize = 0;
    assert(fvs.skip(0) =~= fvs);
    assert(strings_view(impl_blocks@) =~= Seq::<Seq<char>>::empty());
    while i < _struct.fields.len()
        invariant
            i <= _struct.fields.len(),
            elem_lines@.len() == i,
            forall|k: int| 0 <= k < i ==> #[trigger] elem_lines@[k]@
                == rust_ser_elem_line(fvs[k]),
            strings_view(impl_blocks@) + rust_ser_nested(fvs.skip(i as int))
                == rust_ser_nested(fvs),
        decreases _struct.fields.len() - i,
    {
        let field = &_struct.fields[i];
        proof {
            assert(fvs[i as int] == field_view(_struct.fields@[i as int]));
            assert(fvs.skip(i as int)[0] == fvs[i as int]);
            assert(fvs.skip(i as int).drop_first() =~= fvs.skip(i as int + 1));
        }
        match &field.kind {
            FieldKind::NestedObject(o) => {
                proof {
                    let fv = fvs[i as int];
                    assert(decreases_to!(sv => sv.fields));
                    assert(decreases_to!(sv.fields => sv.fields[i as int]));
                    assert(decreases_to!(fv => fv.kind));
                    let kv = fv.kind;
                    assert(decreases_to!(kv => kv->NestedObject_0));
                    assert(kv->NestedObject_0 == struct_view(*o));
                }
                let nested = generate_untagged_serializer(o);
                let ghost before = strings_view(impl_blocks@);
                let ghost nb = strings_view(nested@);
                crate::text::push_all(&mut impl_blocks, nested);
                proof {
                    assert(before + nb + rust_ser_nested(fvs.skip(i as int + 1))
                        =~= rust_ser_nested(fvs));
                }
            },
            _ => {
                proof {
                    assert(Seq::<Seq<char>>::empty()
                        + rust_ser_nested(fvs.skip(i as int + 1))
                        =~= rust_ser_nested(fvs.skip(i as int + 1)));
                }
            },
        }
        let mut line = String::from_str("\t\tstate.serialize_element(&self.");
        line.append(field.name.as_str());
        line.append(")?;");
        elem_lines.push(line);
        i += 1;
    }
    proof {
        assert(fvs.skip(_struct.fields@.len() as int) =~= Seq::<FieldView>::empty());
        assert(strings_view(elem_lines@) =~= rust_ser_elem_lines(fvs));
    }
    let joined = join_strings(&elem_lines, "\n");
    let mut decl = String::from_str("impl ");
    decl.append("serde::ser::Serialize");
    decl.append(" for ");
    decl.append(_struct.name.as_str());
    decl.append(" {\n");
    decl.append(
        "fn serialize<S>(&self, serializer: S) -> Result<S::Ok, S::Error>\n\twhere S: serde::ser::Serializer,\n\t{\n\t\tlet mut state = serializer.serialize_tuple(",
    );
    let count = u64_to_dec(_struct.fields.len() as u64);
    decl.append(count.as_str());
    decl.append(")?;\n");
    decl.append(joined.as_str());
    decl.append("\n\t\tstate.end()    \n\t}");
    decl.append("\n}");
    let ghost sb = strings_view(impl_blocks@);
    impl_blocks.push(decl);
    proof {
        assert(strings_view(impl_blocks@) =~= sb + seq![rust_ser_decl(sv)]);
    }
    impl_blocks
}

/// One positional parse block in the deserializer.
pub open spec fn rust_de_parse_block(f: FieldView) -> Seq<char> {
    "\t\t\t\tlet "@ + f.name + " = seq.next_element::<"@ + rust_dtype(f)
        + ">()?;\n\t\t\t\tif "@ + f.name
        + ".is_none() {\n\t\t\t\t\treturn Err(serde::de::Error::custom(\"invalid field\"));\n\t\t\t\t}\n\t\t\t\tlet "@
        + f.name + " = "@ + f.name + ".unwrap();\n"@
}

/// The parse blocks of a struct's fields.
pub open spec fn rust_de_parse_blocks(fs: Seq<FieldView>) -> Seq<Seq<char>>
    decreases fs.len(),
{
    if fs.len() == 0 {
        Seq::empty()
    } else {
        seq![rust_de_parse_block(fs[0])] + rust_de_parse_blocks(fs.drop_first())
    }
}

/// The blocks are pointwise.
pub proof fn lemma_rust_de_parse_blocks(fs: Seq<FieldView>)
    ensures
        rust_de_parse_blocks(fs).len() == fs.len(),
        forall|i: int| 0 <= i < fs.len() ==> rust_de_parse_blocks(fs)[i]
            == rust_de_parse_block(fs[i]),
    decreases fs.len(),
{
    if fs.len() > 0 {
        lemma_rust_de_parse_blocks(fs.drop_first());
    }
}

/// One property of the rebuilt value.
pub open spec fn rust_de_ret_line(f: FieldView) -> Seq<char> {
    "\t\t\t\t\t"@ + f.name + ": "@ + f.name + ","@
}

/// The rebuilt value's properties.
pub open spec fn rust_de_ret_lines(fs: Seq<FieldView>) -> Seq<Seq<char>>
    decreases fs.len(),
{
    if fs.len() == 0 {
        Seq::empty()
    } else {
        seq![rust_de_ret_line(fs[0])] + rust_de_ret_lines(fs.drop_first())
    }
}

/// The lines are pointwise.
pub proof fn lemma_rust_de_ret_lines(fs: Seq<FieldView>)
    ensures
        rust_de_ret_lines(fs).len() == fs.len(),
        forall|i: int| 0 <= i < fs.len() ==> rust_de_ret_lines(fs)[i] == rust_de_ret_line(fs[i]),
    decreases fs.len(),
{
    if fs.len() > 0 {
        lemma_rust_de_ret_lines(fs.drop_first());
    }
}

/// The deserializer impl block a struct emits.
pub open spec fn rust_de_decl(s: StructView) -> Seq<char> {
    "impl<'de> serde::de::Deserialize<'de> for "@ + s.name + " {\n"@
        + "fn deserialize<D>(deserializer: D) -> Result<Self, D::Error>\n\twhere D: serde::Deserializer<'de>,\n\t{\n\t\tstruct Visitor;\n\t\timpl<'de> serde::de::Visitor<'de> for Visitor {\n\t\t\ttype Value = "@
        + s.name
        + ";\n\n\t\t\tfn expecting(&self, formatter: &mut std::fmt::Formatter) -> std::fmt::Result {\n\t\t\t\twrite!(formatter, \"\")\n\t\t\t}\n\n\t\t\tfn visit_seq<A>(self, mut seq: A) -> Result<Self::Value, A::Error>\n\t\t\twhere A: serde::de::SeqAccess<'de>,\n\t\t\t{\n"@
        + join_texts(rust_de_parse_blocks(s.fields), "\n"@) + "\n\t\t\t\tOk("@ + s.name
        + " {\n"@ + join_texts(rust_de_ret_lines(s.fields), "\n"@)
        + "\n\t\t\t\t})\n\t\t\t}\n\t\t}\n\t\tdeserializer.deserialize_tuple("@
        + dec_digits(s.fields.len() as nat) + ", Visitor)\n\t}"@ + "\n}"@
}

/// The deserializer blocks a struct emits: one for each nested object
/// first, then its own.
pub open spec fn rust_de_blocks(s: StructView) -> Seq<Seq<char>>
    decreases s, 0int,
{
    rust_de_nested(s.fields) + seq![rust_de_decl(s)]
}

/// The deserializer blocks of every nested object among the fields.
pub open spec fn rust_de_nested(fs: Seq<FieldView>) -> Seq<Seq<char>>
    decreases fs, 1int,
{
    if fs.len() == 0 {
        Seq::empty()
    } else {
        (match fs[0].kind {
            FieldKindView::NestedObject(st) => rust_de_blocks(st),
            _ => Seq::<Seq<char>>::empty(),
        }) + rust_de_nested(fs.drop_first())
    }
}

/// Emits the untagged serde deserializer for one struct.
#[verifier::loop_isolation(false)]
pub fn generate_untagged_deserializer(_struct: &ZetroStruct) -> (r: Vec<String>)
    ensures
        strings_view(r@) == rust_de_blocks(_struct@),
    decreases struct_view(*_struct), 0int,
{
    let ghost sv = struct_view(*_struct);
    let ghost fvs = sv.fields;
    proof {
        lemma_fields_view(_struct.fields@);
        lemma_rust_de_parse_blocks(fvs);
        lemma_rust_de_ret_lines(fvs);
    }
    let mut impl_blocks: Vec<String> = Vec::new();
    let mut parse_blocks: Vec<String> = Vec::new();
    let mut ret_lines: Vec<String> = Vec::new();
    let mut i: usize = 0;
    assert(fvs.skip(0) =~= fvs);
    assert(strings_view(impl_blocks@) =~= Seq::<Seq<char>>::empty());
    while i < _struct.fields.len()
        invariant
            i <= _struct.fields.len(),
            parse_blocks@.len() == i,
            ret_lines@.len() == i,
            forall|k: int| 0 <= k < i ==> #[trigger] parse_blocks@[k]@
                == rust_de_parse_block(fvs[k]),
            forall|k: int| 0 <= k < i ==> #[trigger] ret_lines@[k]@
                == rust_de_ret_line(fvs[k]),
            strings_view(impl_blocks@) + rust_de_nested(fvs.skip(i as int))
                == rust_de_nested(fvs),
        decreases _struct.fields.len() - i,
    {
        let field = &_struct.fields[i];
        proof {
            assert(fvs[i as int] == field_view(_struct.fields@[i as int]));
            assert(fvs.skip(i as int)[0] == fvs[i as int]);
            assert(fvs.skip(i as int).drop_first() =~= fvs.skip(i as int + 1));
        }
        match &field.kind {
            FieldKind::NestedObject(o) => {
                proof {
                    let fv = fvs[i as int];
                    assert(decreases_to!(sv => sv.fields));
                    assert(decreases_to!(sv.fields => sv.fields[i as int]));
                    assert(decreases_to!(fv => fv.kind));
                    let kv = fv.kind;
                    assert(decreases_to!(kv => kv->NestedObject_0));
                    assert(kv->NestedObject_0 == struct_view(*o));
                }
                let nested = generate_untagged_deserializer(o);
                let ghost before = strings_view(impl_blocks@);
                let ghost nb = strings_view(nested@);
                crate::text::push_all(&mut impl_blocks, nested);
                proof {
                    assert(before + nb + rust_de_nested(fvs.skip(i as int + 1))
                        =~= rust_de_nested(fvs));
                }
            },
            _ => {
                proof {
                    assert(Seq::<Seq<char>>::empty()
                        + rust_de_nested(fvs.skip(i as int + 1))
                        =~= rust_de_nested(fvs.skip(i as int + 1)));
                }
            },
        }
        let mut block = String::from_str("\t\t\t\tlet ");
        block.append(field.name.as_str());
        block.append(" = seq.next_element::<");
        let dt = field.to_rust_dtype();
        block.append(dt.as_str());
        block.append(">()?;\n\t\t\t\tif ");
        block.append(field.name.as_str());
        block.append(
            ".is_none() {\n\t\t\t\t\treturn Err(serde::de::Error::custom(\"invalid field\"));\n\t\t\t\t}\n\t\t\t\tlet ",
        );
        block.append(field.name.as_str());
        block.append(" = ");
        block.append(field.name.as_str());
        block.append(".unwrap();\n");
        parse_blocks.push(block);
        let mut line = String::from_str("\t\t\t\t\t");
        line.append(field.name.as_str());
        line.append(": ");
        line.append(field.name.as_str());
        line.append(",");
        ret_lines.push(line);
        i += 1;
    }
    proof {
        assert(fvs.skip(_struct.fields@.len() as int) =~= Seq::<FieldView>::empty());
        assert(strings_view(parse_blocks@) =~= rust_de_parse_blocks(fvs));
        assert(strings_view(ret_lines@) =~= rust_de_ret_lines(fvs));
    }
    let parse_joined = join_strings(&parse_blocks, "\n");
    let ret_joined = join_strings(&ret_lines, "\n");
    let mut decl = String::from_str("impl<'de> serde::de::Deserialize<'de> for ");
    decl.append(_struct.name.as_str());
    decl.append(" {\n");
    decl.append(
        "fn deserialize<D>(deserializer: D) -> Result<Self, D::Error>\n\twhere D: serde::Deserializer<'de>,\n\t{\n\t\tstruct Visitor;\n\t\timpl<'de> serde::de::Visitor<'de> for Visitor {\n\t\t\ttype Value = ",
    );
    decl.append(_struct.name.as_str());
    decl.append(
        ";\n\n\t\t\tfn expecting(&self, formatter: &mut std::fmt::Formatter) -> std::fmt::Result {\n\t\t\t\twrite!(formatter, \"\")\n\t\t\t}\n\n\t\t\tfn visit_seq<A>(self, mut seq: A) -> Result<Self::Value, A::Error>\n\t\t\twhere A: serde::de::SeqAccess<'de>,\n\t\t\t{\n",
    );
    decl.append(parse_joined.as_str());
    decl.append("\n\t\t\t\tOk(");
    decl.append(_struct.name.as_str());
    decl.append(" {\n");
    decl.append(ret_joined.as_str());
    decl.append("\n\t\t\t\t})\n\t\t\t}\n\t\t}\n\t\tdeserializer.deserialize_tuple(");
    let count = u64_to_dec(_struct.fields.len() as u64);
    decl.append(count.as_str());
    decl.append(", Visitor)\n\t}");
    decl.append("\n}");
    let ghost sb = strings_view(impl_blocks@);
    impl_blocks.push(decl);
    proof {
        assert(strings_view(impl_blocks@) =~= sb + seq![rust_de_decl(sv)]);
    }
    impl_blocks
}

/// The blocks a list of structs emits: declarations, and in untagged mode
/// the codec pair, struct by struct.
pub open spec fn rust_structs_texts(ss: Seq<StructView>, untagged_repr: bool) -> Seq<Seq<char>>
    decreases ss.len(),
{
    if ss.len() == 0 {
        Seq::empty()
    } else {
        rust_struct_blocks(ss[0], untagged_repr) + (if untagged_repr {
            rust_ser_blocks(ss[0]) + rust_de_blocks(ss[0])
        } else {
            Seq::<Seq<char>>::empty()
        }) + rust_structs_texts(ss.drop_first(), untagged_repr)
    }
}

/// Emits every struct into the scope, in order.
#[verifier::loop_isolation(false)]
pub fn generate_structs(scope: &mut Vec<String>, structs: &Vec<ZetroStruct>, untagged_repr: bool)
    ensures
        strings_view(final(scope)@) == strings_view(old(scope)@)
            + rust_structs_texts(crate::schema::structs_view(structs@), untagged_repr),
{
    let ghost ss = crate::schema::structs_view(structs@);
    let ghost base = strings_view(old(scope)@);
    let mut i: usize = 0;
    assert(ss.skip(0) =~= ss);
    while i < structs.len()
        invariant
            i <= structs.len(),
            strings_view(scope@) + rust_structs_texts(ss.skip(i as int), untagged_repr)
                == base + rust_structs_texts(ss, untagged_repr),
        decreases structs.len() - i,
    {
        proof {
            assert(ss.skip(i as int)[0] == ss[i as int]);
            assert(ss[i as int] == struct_view(structs@[i as int]));
            assert(ss.skip(i as int).drop_first() =~= ss.skip(i as int + 1));
        }
        let ghost before = strings_view(scope@);
        let blocks = generate_struct(&structs[i], untagged_repr);
        let ghost bd = strings_view(blocks@);
        crate::text::push_all(scope, blocks);
        if untagged_repr {
            let ser = generate_untagged_serializer(&structs[i]);
            let ghost sd = strings_view(ser@);
            crate::text::push_all(scope, ser);
            let de = generate_untagged_deserializer(&structs[i]);
            let ghost dd = strings_view(de@);
            crate::text::push_all(scope, de);
            proof {
                assert(before + bd + sd + dd =~= before + (bd + (sd + dd)));
                assert(bd + (sd + dd) =~= rust_struct_blocks(ss[i as int], untagged_repr)
                    + (rust_ser_blocks(ss[i as int]) + rust_de_blocks(ss[i as int])));
                assert(strings_view(scope@)
                    + rust_structs_texts(ss.skip(i as int + 1), untagged_repr)
                    =~= before + rust_structs_texts(ss.skip(i as int), untagged_repr));
            }
        } else {
            proof {
                assert(strings_view(scope@)
                    + rust_structs_texts(ss.skip(i as int + 1), untagged_repr)
                    =~= before + rust_structs_texts(ss.skip(i as int), untagged_repr));
            }
        }
        i += 1;
    }
    proof {
        assert(ss.skip(structs@.len() as int) =~= Seq::<StructView>::empty());
        assert(strings_view(scope@) + Seq::<Seq<char>>::empty() =~= strings_view(scope@));
        assert(base + rust_structs_texts(ss, untagged_repr)
            + Seq::<Seq<char>>::empty() =~= base + rust_structs_texts(ss, untagged_repr));
    }
}

} // verus!
