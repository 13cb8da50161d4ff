//! Schema fields. A non-nested field is written as one string:
//!
//! ```text
//! field    := nullable? multiple? dtype ("~" extra)? ("; " description)?
//! nullable := "?"
//! multiple := "[]"
//! ```
//!
//! `extra` names the referent and is mandatory exactly for the `enum` and
//! `struct` dtypes. A field whose JSON value is an object instead declares
//! an anonymous nested struct.

use vstd::prelude::*;
use vstd::string::*;
use crate::errors::{ErrorKind, ErrorKindView, Offender, OffenderView, SchemaError, SchemaErrorView};
use crate::json::{JsonValue, JsonView};
use crate::structs::{parse_struct, struct_view, StructView, ZetroStruct};
use crate::text::{find_from, find_sub, str_eq};

verus! {

/// The closed set of field kinds. Struct and enum references carry the
/// referent's name; a nested object carries the lifted inline struct.
#[derive(Debug)]
pub enum FieldKind {
    Int8,
    UInt8,
    Int16,
    UInt16,
    Int32,
    UInt32,
    Int64,
    UInt64,
    Float32,
    Float64,
    Boolean,
    StringValue,
    StructValue(String),
    EnumValue(String),
    NestedObject(ZetroStruct),
}

/// One field of a struct.
#[derive(Debug)]
pub struct ZetroField {
    /// Optional description for the field.
    pub description: Option<String>,
    /// Property name for the field.
    pub name: String,
    /// Kind of field, with the referent for non-primitive kinds.
    pub kind: FieldKind,
    /// Can this field be null?
    pub is_nullable: bool,
    /// Is this an ordered sequence of the kind?
    pub is_multiple: bool,
    /// True exactly when the field references its direct parent by name.
    pub is_recursive: bool,
}

/// Mathematical mirror of `FieldKind`.
pub enum FieldKindView {
    Int8,
    UInt8,
    Int16,
    UInt16,
    Int32,
    UInt32,
    Int64,
    UInt64,
    Float32,
    Float64,
    Boolean,
    StringValue,
    StructValue(Seq<char>),
    EnumValue(Seq<char>),
    NestedObject(StructView),
}

/// Mathematical mirror of `ZetroField`.
pub struct FieldView {
    pub description: Option<Seq<char>>,
    pub name: Seq<char>,
    pub kind: FieldKindView,
    pub is_nullable: bool,
    pub is_multiple: bool,
    pub is_recursive: bool,
}

/// View of a field kind.
pub open spec fn kind_view(k: FieldKind) -> FieldKindView
    decreases k,
{
    match k {
        FieldKind::Int8 => FieldKindView::Int8,
        FieldKind::UInt8 => FieldKindView::UInt8,
        FieldKind::Int16 => FieldKindView::Int16,
        FieldKind::UInt16 => FieldKindView::UInt16,
        FieldKind::Int32 => FieldKindView::Int32,
        FieldKind::UInt32 => FieldKindView::UInt32,
        FieldKind::Int64 => FieldKindView::Int64,
        FieldKind::UInt64 => FieldKindView::UInt64,
        FieldKind::Float32 => FieldKindView::Float32,
        FieldKind::Float64 => FieldKindView::Float64,
        FieldKind::Boolean => FieldKindView::Boolean,
        FieldKind::StringValue => FieldKindView::StringValue,
        FieldKind::StructValue(s) => FieldKindView::StructValue(s@),
        FieldKind::EnumValue(e) => FieldKindView::EnumValue(e@),
        FieldKind::NestedObject(s) => FieldKindView::NestedObject(struct_view(s)),
    }
}

/// View of a field.
pub open spec fn field_view(f: ZetroField) -> FieldView
    decreases f,
{
    FieldView {
        description: match f.description {
            Option::None => Option::None,
            Option::Some(d) => Option::Some(d@),
        },
        name: f.name@,
        kind: kind_view(f.kind),
        is_nullable: f.is_nullable,
        is_multiple: f.is_multiple,
        is_recursive: f.is_recursive,
    }
}

impl View for ZetroField {
    type V = FieldView;

    open spec fn view(&self) -> FieldView {
        field_view(*self)
    }
}

/// The mirror of a field parse's outcome.
pub open spec fn field_result_view(r: Result<ZetroField, SchemaError>)
    -> Result<FieldView, SchemaErrorView>
{
    match r {
        Result::Ok(f) => Result::Ok(field_view(f)),
        Result::Err(e) => Result::Err(e@),
    }
}

/// What parsing one field string yields: the grammar of §`field` above,
/// applied in strict order. The description, when present, is the text
/// between the first `"; "` and the following `"; "` or the end; the
/// referent, when present, is the text between the first `"~"` and the
/// following `"~"` or the end of the dtype part.
pub open spec fn parse_field_text(struct_name: Seq<char>, field_name: Seq<char>, s0: Seq<char>)
    -> Result<FieldView, SchemaErrorView>
{
    let is_nullable = s0.len() >= 1 && s0[0] == '?';
    let s1 = if is_nullable { s0.subrange(1, s0.len() as int) } else { s0 };
    let is_multiple = s1.len() >= 2 && s1[0] == '[' && s1[1] == ']';
    let s2 = if is_multiple { s1.subrange(2, s1.len() as int) } else { s1 };
    let dtype_part = match find_from(s2, "; "@, 0) {
        Option::None => s2,
        Option::Some(i) => s2.subrange(0, i),
    };
    let description = match find_from(s2, "; "@, 0) {
        Option::None => Option::<Seq<char>>::None,
        Option::Some(i) => Option::Some(
            match find_from(s2, "; "@, i + 2) {
                Option::None => s2.subrange(i + 2, s2.len() as int),
                Option::Some(j) => s2.subrange(i + 2, j),
            },
        ),
    };
    let dtype = match find_from(dtype_part, "~"@, 0) {
        Option::None => dtype_part,
        Option::Some(t) => dtype_part.subrange(0, t),
    };
    let extra = match find_from(dtype_part, "~"@, 0) {
        Option::None => Option::<Seq<char>>::None,
        Option::Some(t) => Option::Some(
            match find_from(dtype_part, "~"@, t + 1) {
                Option::None => dtype_part.subrange(t + 1, dtype_part.len() as int),
                Option::Some(u) => dtype_part.subrange(t + 1, u),
            },
        ),
    };
    if dtype == "string"@ {
        Result::Ok(plain_field(field_name, FieldKindView::StringValue, is_nullable, is_multiple, description))
    } else if dtype == "i8"@ {
        Result::Ok(plain_field(field_name, FieldKindView::Int8, is_nullable, is_multiple, description))
    } else if dtype == "u8"@ {
        Result::Ok(plain_field(field_name, FieldKindView::UInt8, is_nullable, is_multiple, description))
    } else if dtype == "i16"@ {
        Result::Ok(plain_field(field_name, FieldKindView::Int16, is_nullable, is_multiple, description))
    } else if dtype == "u16"@ {
        Result::Ok(plain_field(field_name, FieldKindView::UInt16, is_nullable, is_multiple, description))
    } else if dtype == "i32"@ {
        Result::Ok(plain_field(field_name, FieldKindView::Int32, is_nullable, is_multiple, description))
    } else if dtype == "u32"@ {
        Result::Ok(plain_field(field_name, FieldKindView::UInt32, is_nullable, is_multiple, description))
    } else if dtype == "i64"@ {
        Result::Ok(plain_field(field_name, FieldKindView::Int64, is_nullable, is_multiple, description))
    } else if dtype == "u64"@ {
        Result::Ok(plain_field(field_name, FieldKindView::UInt64, is_nullable, is_multiple, description))
    } else if dtype == "f32"@ {
        Result::Ok(plain_field(field_name, FieldKindView::Float32, is_nullable, is_multiple, description))
    } else if dtype == "f64"@ {
        Result::Ok(plain_field(field_name, FieldKindView::Float64, is_nullable, is_multiple, description))
    } else if dtype == "bool"@ {
        Result::Ok(plain_field(field_name, FieldKindView::Boolean, is_nullable, is_multiple, description))
    } else if dtype == "enum"@ {
        match extra {
            Option::None => Result::Err(SchemaErrorView {
                kind: ErrorKindView::BadFieldValue(field_name, "an enum name after '~'"@),
                offender: OffenderView::Field(struct_name, field_name),
            }),
            Option::Some(e) => Result::Ok(
                plain_field(field_name, FieldKindView::EnumValue(e), is_nullable, is_multiple, description),
            ),
        }
    } else if dtype == "struct"@ {
        match extra {
            Option::None => Result::Err(SchemaErrorView {
                kind: ErrorKindView::BadFieldValue(field_name, "a struct name after '~'"@),
                offender: OffenderView::Field(struct_name, field_name),
            }),
            Option::Some(e) => {
                let is_recursive = e == struct_name;
                if is_recursive && !is_nullable && !is_multiple {
                    Result::Err(SchemaErrorView {
                        kind: ErrorKindView::BadFieldValue(
                            field_name,
                            "nullable and/or multiple to avoid an infinite loop."@,
                        ),
                        offender: OffenderView::Field(struct_name, field_name),
                    })
                } else {
                    Result::Ok(FieldView {
                        description,
                        name: field_name,
                        kind: FieldKindView::StructValue(e),
                        is_nullable,
                        is_multiple,
                        is_recursive,
                    })
                }
            },
        }
    } else {
        Result::Err(SchemaErrorView {
            kind: ErrorKindView::BadFieldValue(field_name, "string or object"@),
            offender: OffenderView::Field(struct_name, field_name),
        })
    }
}

/// A non-recursive field with the given pieces.
pub open spec fn plain_field(
    field_name: Seq<char>,
    kind: FieldKindView,
    is_nullable: bool,
    is_multiple: bool,
    description: Option<Seq<char>>,
) -> FieldView {
    FieldView {
        description,
        name: field_name,
        kind,
        is_nullable,
        is_multiple,
        is_recursive: false,
    }
}

/// What parsing one field of `struct_name` yields. An object value declares
/// a nested struct under the derived name `<parent>_<field>`; a string value
/// follows the field grammar; anything else is rejected.
pub open spec fn parse_field(struct_name: Seq<char>, field_name: Seq<char>, v: JsonView)
    -> Result<FieldView, SchemaErrorView>
    decreases v, 1int, 0int,
{
    match v {
        JsonView::Object(_) => match parse_struct(
            crate::structs::nested_struct_name(struct_name, field_name),
            v,
        ) {
            Result::Err(e) => Result::Err(e),
            Result::Ok(st) => Result::Ok(FieldView {
                is_nullable: st.is_nullable,
                is_recursive: false,
                is_multiple: st.is_multiple,
                kind: FieldKindView::NestedObject(st),
                description: Option::None,
                name: field_name,
            }),
        },
        JsonView::Str(s) => parse_field_text(struct_name, field_name, s),
        _ => Result::Err(SchemaErrorView {
            kind: ErrorKindView::BadFieldValue(field_name, "string or object"@),
            offender: OffenderView::Field(struct_name, field_name),
        }),
    }
}

impl ZetroField {
    /// Lifts one JSON value into a typed field of `struct_name`.
    pub fn from_value(struct_name: String, field_name: String, value: &JsonValue)
        -> (r: Result<ZetroField, SchemaError>)
        ensures
            field_result_view(r) == parse_field(struct_name@, field_name@, value@),
        decreases value@, 1int, 1int,
    {
        match value {
            JsonValue::Object(_) => {
                let nested_name = crate::structs::generate_nested_struct_name(
                    struct_name.as_str(),
                    field_name.as_str(),
                );
                match ZetroStruct::from_value(nested_name, value) {
                    Result::Err(e) => Result::Err(e),
                    Result::Ok(st) => {
                        let is_nullable = st.is_nullable;
                        let is_multiple = st.is_multiple;
                        Result::Ok(ZetroField {
                            is_nullable,
                            is_recursive: false,
                            is_multiple,
                            kind: FieldKind::NestedObject(st),
                            description: Option::None,
                            name: field_name,
                        })
                    },
                }
            },
            JsonValue::Str(s) => Self::from_text(struct_name, field_name, s.as_str()),
            _ => Result::Err(SchemaError {
                kind: ErrorKind::BadFieldValue(
                    field_name.clone(),
                    String::from_str("string or object"),
                ),
                offender: Offender::Field(struct_name, field_name),
            }),
        }
    }

    /// Parses one field string following the field grammar.
    fn from_text(struct_name: String, field_name: String, value: &str)
        -> (r: Result<ZetroField, SchemaError>)
        ensures
            field_result_view(r) == parse_field_text(struct_name@, field_name@, value@),
    {
        proof {
            reveal_strlit("; ");
            reveal_strlit("~");
        }
        let n = value.unicode_len();
        let nullable_head = n >= 1 && value.get_char(0) == '?';
        let v1 = if nullable_head {
            value.substring_char(1, n)
        } else {
            value
        };
        let is_nullable = nullable_head;
        assert(!is_nullable ==> v1@ == value@);
        let n1 = v1.unicode_len();
        let multiple_head = n1 >= 2 && v1.get_char(0) == '[' && v1.get_char(1) == ']';
        let v2 = if multiple_head {
            v1.substring_char(2, n1)
        } else {
            v1
        };
        let is_multiple = multiple_head;
        let n2 = v2.unicode_len();
        let first_sep = find_sub(v2, "; ", 0);
        let dtype_part = match first_sep {
            Option::None => v2,
            Option::Some(i) => v2.substring_char(0, i),
        };
        let description: Option<String> = match first_sep {
            Option::None => Option::None,
            Option::Some(i) => {
                let d = match find_sub(v2, "; ", i + 2) {
                    Option::None => v2.substring_char(i + 2, n2),
                    Option::Some(j) => v2.substring_char(i + 2, j),
                };
                Option::Some(d.to_owned())
            },
        };
        let nd = dtype_part.unicode_len();
        let first_tilde = find_sub(dtype_part, "~", 0);
        let dtype = match first_tilde {
            Option::None => dtype_part,
            Option::Some(t) => dtype_part.substring_char(0, t),
        };
        let extra: Option<&str> = match first_tilde {
            Option::None => Option::None,
            Option::Some(t) => Option::Some(
                match find_sub(dtype_part, "~", t + 1) {
                    Option::None => dtype_part.substring_char(t + 1, nd),
                    Option::Some(u) => dtype_part.substring_char(t + 1, u),
                },
            ),
        };

        if str_eq(dtype, "string") {
            Result::Ok(Self::plain(field_name, FieldKind::StringValue, is_nullable, is_multiple, description))
        } else if str_eq(dtype, "i8") {
            Result::Ok(Self::plain(field_name, FieldKind::Int8, is_nullable, is_multiple, description))
        } else if str_eq(dtype, "u8") {
            Result::Ok(Self::plain(field_name, FieldKind::UInt8, is_nullable, is_multiple, description))
        } else if str_eq(dtype, "i16") {
            Result::Ok(Self::plain(field_name, FieldKind::Int16, is_nullable, is_multiple, description))
        } else if str_eq(dtype, "u16") {
            Result::Ok(Self::plain(field_name, FieldKind::UInt16, is_nullable, is_multiple, description))
        } else if str_eq(dtype, "i32") {
            Result::Ok(Self::plain(field_name, FieldKind::Int32, is_nullable, is_multiple, description))
        } else if str_eq(dtype, "u32") {
            Result::Ok(Self::plain(field_name, FieldKind::UInt32, is_nullable, is_multiple, description))
        } else if str_eq(dtype, "i64") {
            Result::Ok(Self::plain(field_name, FieldKind::Int64, is_nullable, is_multiple, description))
        } else if str_eq(dtype, "u64") {
            Result::Ok(Self::plain(field_name, FieldKind::UInt64, is_nullable, is_multiple, description))
        } else if str_eq(dtype, "f32") {
            Result::Ok(Self::plain(field_name, FieldKind::Float32, is_nullable, is_multiple, description))
        } else if str_eq(dtype, "f64") {
            Result::Ok(Self::plain(field_name, FieldKind::Float64, is_nullable, is_multiple, description))
        } else if str_eq(dtype, "bool") {
            Result::Ok(Self::plain(field_name, FieldKind::Boolean, is_nullable, is_multiple, description))
        } else if str_eq(dtype, "enum") {
            match extra {
                Option::None => Result::Err(SchemaError {
                    kind: ErrorKind::BadFieldValue(
                        field_name.clone(),
                        String::from_str("an enum name after '~'"),
                    ),
                    offender: Offender::Field(struct_name, field_name),
                }),
                Option::Some(e) => Result::Ok(Self::plain(
                    field_name,
                    FieldKind::EnumValue(e.to_owned()),
                    is_nullable,
                    is_multiple,
                    description,
                )),
            }
        } else if str_eq(dtype, "struct") {
            match extra {
                Option::None => Result::Err(SchemaError {
                    kind: ErrorKind::BadFieldValue(
                        field_name.clone(),
                        String::from_str("a struct name after '~'"),
                    ),
                    offender: Offender::Field(struct_name, field_name),
                }),
                Option::Some(e) => {
                    let is_recursive = str_eq(e, struct_name.as_str());
                    if is_recursive && !is_nullable && !is_multiple {
                        Result::Err(SchemaError {
                            kind: ErrorKind::BadFieldValue(
                                field_name.clone(),
                                String::from_str("nullable and/or multiple to avoid an infinite loop."),
                            ),
                            offender: Offender::Field(struct_name, field_name),
                        })
                    } else {
                        Result::Ok(ZetroField {
                            description,
                            name: field_name,
                            kind: FieldKind::StructValue(e.to_owned()),
                            is_nullable,
                            is_multiple,
                            is_recursive,
                        })
                    }
                },
            }
        } else {
            Result::Err(SchemaError {
                kind: ErrorKind::BadFieldValue(
                    field_name.clone(),
                    String::from_str("string or object"),
                ),
                offender: Offender::Field(struct_name, field_name),
            })
        }
    }

    /// A non-recursive field with the given pieces.
    fn plain(
        field_name: String,
        kind: FieldKind,
        is_nullable: bool,
        is_multiple: bool,
        description: Option<String>,
    ) -> (r: ZetroField)
        ensures
            field_view(r) == plain_field(
                field_name@,
                kind_view(kind),
                is_nullable,
                is_multiple,
                match description {
                    Option::None => Option::<Seq<char>>::None,
                    Option::Some(d) => Option::Some(d@),
                },
            ),
    {
        ZetroField {
            description,
            name: field_name,
            kind,
            is_nullable,
            is_multiple,
            is_recursive: false,
        }
    }
}

} // verus!
