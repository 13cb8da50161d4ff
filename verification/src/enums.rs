//! Schema enums: a name plus an ordered list of variant identifiers. A
//! variant's ordinal is its position in the declared list.

use vstd::prelude::*;
use vstd::string::*;
use crate::errors::{ErrorKind, ErrorKindView, Offender, OffenderView, SchemaError, SchemaErrorView};
use crate::json::{jvs_view, lemma_jvs_view, JsonValue, JsonView};

verus! {

/// One schema enum.
#[derive(Debug)]
pub struct ZetroEnum {
    pub name: String,
    pub variants: Vec<String>,
}

/// Mathematical mirror of `ZetroEnum`.
pub struct EnumView {
    pub name: Seq<char>,
    pub variants: Seq<Seq<char>>,
}

/// View of a variant list.
pub open spec fn variants_view(vs: Seq<String>) -> Seq<Seq<char>> {
    Seq::new(vs.len(), |i: int| vs[i]@)
}

impl View for ZetroEnum {
    type V = EnumView;

    open spec fn view(&self) -> EnumView {
        EnumView { name: self.name@, variants: variants_view(self.variants@) }
    }
}

/// The mirror of an enum parse's outcome.
pub open spec fn enum_result_view(r: Result<ZetroEnum, SchemaError>)
    -> Result<EnumView, SchemaErrorView>
{
    match r {
        Result::Ok(e) => Result::Ok(e@),
        Result::Err(e) => Result::Err(e@),
    }
}

/// What reading the variant list yields: every element must be a string.
pub open spec fn parse_variants(enum_name: Seq<char>, items: Seq<JsonView>)
    -> Result<Seq<Seq<char>>, SchemaErrorView>
    decreases items.len(),
{
    if items.len() == 0 {
        Result::Ok(Seq::empty())
    } else {
        match items[0] {
            JsonView::Str(s) => match parse_variants(enum_name, items.drop_first()) {
                Result::Err(e) => Result::Err(e),
                Result::Ok(rest) => Result::Ok(seq![s] + rest),
            },
            _ => Result::Err(SchemaErrorView {
                kind: ErrorKindView::BadFieldValue(enum_name, "a list of strings"@),
                offender: OffenderView::Enum(enum_name),
            }),
        }
    }
}

/// What parsing one enum yields: the value must be an array of strings.
pub open spec fn parse_enum(enum_name: Seq<char>, v: JsonView)
    -> Result<EnumView, SchemaErrorView>
{
    match v {
        JsonView::Array(items) => match parse_variants(enum_name, items) {
            Result::Err(e) => Result::Err(e),
            Result::Ok(vs) => Result::Ok(EnumView { name: enum_name, variants: vs }),
        },
        _ => Result::Err(SchemaErrorView {
            kind: ErrorKindView::BadFieldValue(enum_name, "list of strings"@),
            offender: OffenderView::Enum(enum_name),
        }),
    }
}

impl ZetroEnum {
    /// Lifts one JSON value into a typed enum named `enum_name`.
    #[verifier::loop_isolation(false)]
    pub fn from_value(enum_name: String, value: &JsonValue)
        -> (r: Result<ZetroEnum, SchemaError>)
        ensures
            enum_result_view(r) == parse_enum(enum_name@, value@),
    {
        let items: &Vec<JsonValue> = match value {
            JsonValue::Array(a) => a,
            _ => {
                return Result::Err(SchemaError {
                    kind: ErrorKind::BadFieldValue(
                        enum_name.clone(),
                        String::from_str("list of strings"),
                    ),
                    offender: Offender::Enum(enum_name),
                });
            },
        };
        let ghost iv = jvs_view(items@);
        assert(value@ == JsonView::Array(iv));
        proof {
            lemma_jvs_view(items@);
        }
        let mut variants: Vec<String> = Vec::new();
        let mut i: usize = 0;
        assert(iv.skip(0) =~= iv);
        while i < items.len()
            invariant
                i <= items.len(),
                variants@.len() == i,
                ({
                    let whole = parse_variants(enum_name@, iv);
                    let tail = parse_variants(enum_name@, iv.skip(i as int));
                    whole == match tail {
                        Result::Err(e) => Result::<Seq<Seq<char>>, SchemaErrorView>::Err(e),
                        Result::Ok(rest) => Result::Ok(variants_view(variants@) + rest),
                    }
                }),
            decreases items.len() - i,
        {
            proof {
                assert(iv.skip(i as int)[0] == iv[i as int]);
                assert(iv[i as int] == jvs_view(items@)[i as int]);
                assert(iv.skip(i as int).drop_first() =~= iv.skip(i as int + 1));
            }
            match &items[i] {
                JsonValue::Str(s) => {
                    let ghost v0 = variants@;
                    variants.push(s.clone());
                    proof {
                        assert forall|rest: Seq<Seq<char>>|
                            variants_view(v0) + (seq![s@] + rest)
                                =~= variants_view(variants@) + rest by {}
                    }
                },
                _ => {
                    return Result::Err(SchemaError {
                        kind: ErrorKind::BadFieldValue(
                            enum_name.clone(),
                            String::from_str("a list of strings"),
                        ),
                        offender: Offender::Enum(enum_name),
                    });
                },
            }
            i += 1;
        }
        proof {
            assert(iv.skip(items@.len() as int) =~= Seq::<JsonView>::empty());
            assert(variants_view(variants@) + Seq::<Seq<char>>::empty()
                =~= variants_view(variants@));
        }
        Result::Ok(ZetroEnum { name: enum_name, variants })
    }
}

} // verus!
