//! Command-line surface: the argument record, the target-language selector,
//! boolean parsing, and the argument reader.

use vstd::prelude::*;
use vstd::string::*;
use crate::text::{contains_sub, find_from, find_sub, str_contains, str_eq, strings_view, after_last};

verus! {

/// One requested plugin invocation: a name and its key/value arguments.
#[derive(Debug)]
pub struct PluginCall {
    pub name: String,
    pub args: Vec<(String, String)>,
}

/// Mathematical mirror of `PluginCall`.
pub struct PluginCallView {
    pub name: Seq<char>,
    pub args: Seq<(Seq<char>, Seq<char>)>,
}

/// View of an argument pair list.
pub open spec fn arg_pairs_view(ps: Seq<(String, String)>) -> Seq<(Seq<char>, Seq<char>)> {
    Seq::new(ps.len(), |i: int| (ps[i].0@, ps[i].1@))
}

impl View for PluginCall {
    type V = PluginCallView;

    open spec fn view(&self) -> PluginCallView {
        PluginCallView { name: self.name@, args: arg_pairs_view(self.args@) }
    }
}

/// View of a plugin list.
pub open spec fn plugins_view(ps: Seq<PluginCall>) -> Seq<PluginCallView> {
    Seq::new(ps.len(), |i: int| ps[i]@)
}

/// The emission target.
#[derive(Debug, Clone, PartialEq, Eq, Structural)]
pub enum EmitLang {
    Rust,
    Typescript,
}

/// The requested key naming for emitted record fields.
#[derive(Debug, Clone, PartialEq, Eq, Structural)]
pub enum FieldCasing {
    Snake,
    Camel,
}

/// The validated command-line arguments.
#[derive(Debug)]
pub struct ZetroArgs {
    /// Path to the schema file.
    pub schema_file: String,
    /// Path to the output file.
    pub out_file: String,
    pub language: EmitLang,
    pub field_casing: Option<FieldCasing>,
    pub plugins: Vec<PluginCall>,
    pub mangle: Option<bool>,
    pub untagged: bool,
}

/// Mathematical mirror of `ZetroArgs`.
pub struct ArgsView {
    pub schema_file: Seq<char>,
    pub out_file: Seq<char>,
    pub language: EmitLang,
    pub field_casing: Option<FieldCasing>,
    pub plugins: Seq<PluginCallView>,
    pub mangle: Option<bool>,
    pub untagged: bool,
}

impl View for ZetroArgs {
    type V = ArgsView;

    open spec fn view(&self) -> ArgsView {
        ArgsView {
            schema_file: self.schema_file@,
            out_file: self.out_file@,
            language: self.language,
            field_casing: self.field_casing,
            plugins: plugins_view(self.plugins@),
            mangle: self.mangle,
            untagged: self.untagged,
        }
    }
}

/// The mirror of the argument reader's outcome.
pub open spec fn args_result_view(r: Result<ZetroArgs, String>)
    -> Result<ArgsView, Seq<char>>
{
    match r {
        Result::Ok(a) => Result::Ok(a@),
        Result::Err(e) => Result::Err(e@),
    }
}

/// The target a file extension selects.
pub open spec fn lang_from_ext(ext: Seq<char>) -> Option<EmitLang> {
    if ext == "ts"@ {
        Option::Some(EmitLang::Typescript)
    } else if ext == "tsx"@ {
        Option::Some(EmitLang::Typescript)
    } else if ext == "rs"@ {
        Option::Some(EmitLang::Rust)
    } else {
        Option::None
    }
}

impl EmitLang {
    /// Selects the target language from a file extension.
    pub fn from_ext(ext: &str) -> (r: Option<Self>)
        ensures
            r == lang_from_ext(ext@),
    {
        if str_eq(ext, "ts") {
            Option::Some(Self::Typescript)
        } else if str_eq(ext, "tsx") {
            Option::Some(Self::Typescript)
        } else if str_eq(ext, "rs") {
            Option::Some(Self::Rust)
        } else {
            Option::None
        }
    }
}

/// The boolean a word stands for, if any.
pub open spec fn bool_from_text(s: Seq<char>) -> Option<bool> {
    if s == "true"@ || s == "1"@ || s == "on"@ || s == "yes"@ || s == "t"@ {
        Option::Some(true)
    } else if s == "false"@ || s == "0"@ || s == "off"@ || s == "no"@ || s == "f"@ {
        Option::Some(false)
    } else {
        Option::None
    }
}

/// Reads a boolean word.
pub fn parse_bool(val: &str) -> (r: Option<bool>)
    ensures
        r == bool_from_text(val@),
{
    if str_eq(val, "true") || str_eq(val, "1") || str_eq(val, "on") || str_eq(val, "yes")
        || str_eq(val, "t") {
        Option::Some(true)
    } else if str_eq(val, "false") || str_eq(val, "0") || str_eq(val, "off")
        || str_eq(val, "no") || str_eq(val, "f") {
        Option::Some(false)
    } else {
        Option::None
    }
}

/// The Unicode lowercase mapping of a text, a function of its characters
/// alone.
pub uninterp spec fn lower_of(s: Seq<char>) -> Seq<char>;

/// Relies on std's `str::to_lowercase`: the Unicode lowercase mapping of
/// the text.
#[verifier::external_body]
pub(crate) fn to_lower(s: &str) -> (r: String)
    ensures
        r@ == lower_of(s@),
{
    s.to_lowercase()
}

/// The first match of the plugin-call pattern in a text, as its two capture
/// groups, a function of the text alone. The outer option is whether the
/// pattern matches at all; the first inner option is the plugin name group,
/// the second the parenthesized argument group.
pub uninterp spec fn plugin_captures_of(s: Seq<char>)
    -> Option<(Option<Seq<char>>, Option<Seq<char>>)>;

/// View of an optional owned string.
pub open spec fn opt_string_view(o: Option<String>) -> Option<Seq<char>> {
    match o {
        Option::None => Option::None,
        Option::Some(s) => Option::Some(s@),
    }
}

/// Relies on regex's `Regex::captures_iter` over the fixed case-insensitive
/// pattern `([a-z0-9\-]+)(\(([a-z0-9\-]+:[a-z0-9\-]+ ?)+\))?`: the first
/// match's groups 1 and 2. Group 2, when it participates, is wrapped in
/// parentheses by the pattern itself.
#[verifier::external_body]
fn plugin_call_captures(s: &str) -> (r: Option<(Option<String>, Option<String>)>)
    ensures
        r is None ==> plugin_captures_of(s@) is None,
        (match r {
            Option::None => true,
            Option::Some(c) => plugin_captures_of(s@)
                == Option::Some((opt_string_view(c.0), opt_string_view(c.1)))
                && (match c.1 {
                    Option::None => true,
                    Option::Some(g2) => g2@.len() >= 2 && g2@[0] == '('
                        && g2@[g2@.len() - 1] == ')',
                }),
        }),
{
    let re = regex::Regex::new(r"(?i)([a-z0-9\-]+)(\(([a-z0-9\-]+:[a-z0-9\-]+ ?)+\))?")
        .unwrap();
    let caps = re.captures_iter(s).next();
    match caps {
        None => None,
        Some(c) => {
            let g1 = c.get(1).map(|m| m.as_str().to_string());
            let g2 = c.get(2).map(|m| m.as_str().to_string());
            Some((g1, g2))
        },
    }
}

/// The part of an argument before the first `=`.
pub open spec fn eq_key(a: Seq<char>) -> Seq<char> {
    match find_from(a, "="@, 0) {
        Option::None => a,
        Option::Some(i) => a.subrange(0, i),
    }
}

/// The part of an argument between the first `=` and the second `=` or the
/// end, if an `=` is present at all.
pub open spec fn eq_val(a: Seq<char>) -> Option<Seq<char>> {
    match find_from(a, "="@, 0) {
        Option::None => Option::None,
        Option::Some(i) => Option::Some(
            match find_from(a, "="@, i + 1) {
                Option::None => a.subrange(i + 1, a.len() as int),
                Option::Some(j) => a.subrange(i + 1, j),
            },
        ),
    }
}

/// Splits one argument into its key and optional value.
fn split_arg(a: &str) -> (r: (String, Option<String>))
    ensures
        r.0@ == eq_key(a@),
        opt_string_view(r.1) == eq_val(a@),
{
    proof {
        reveal_strlit("=");
    }
    let n = a.unicode_len();
    match find_sub(a, "=", 0) {
        Option::None => (a.to_owned(), Option::None),
        Option::Some(i) => {
            let key = a.substring_char(0, i).to_owned();
            let val = match find_sub(a, "=", i + 1) {
                Option::None => a.substring_char(i + 1, n).to_owned(),
                Option::Some(j) => a.substring_char(i + 1, j).to_owned(),
            };
            (key, Option::Some(val))
        },
    }
}

/// Whether a plugin of this name was already requested.
pub open spec fn plugin_named(ps: Seq<PluginCallView>, name: Seq<char>) -> bool {
    exists|i: int| 0 <= i < ps.len() && ps[i].name == name
}

/// Whether an argument of this key was already given to the plugin.
pub open spec fn arg_keyed(ps: Seq<(Seq<char>, Seq<char>)>, key: Seq<char>) -> bool {
    exists|i: int| 0 <= i < ps.len() && ps[i].0 == key
}

/// What reading one space-separated run of `key:value` plugin arguments
/// yields: keys are lowercased, duplicate keys and missing values are
/// rejected.
pub open spec fn read_plugin_args(
    rest: Seq<char>,
    plugin_name: Seq<char>,
    acc: Seq<(Seq<char>, Seq<char>)>,
) -> Result<Seq<(Seq<char>, Seq<char>)>, Seq<char>>
    decreases rest.len()
        via read_plugin_args_decreases
{
    let part = match find_from(rest, " "@, 0) {
        Option::None => rest,
        Option::Some(i) => rest.subrange(0, i),
    };
    let key_raw = match find_from(part, ":"@, 0) {
        Option::None => part,
        Option::Some(j) => part.subrange(0, j),
    };
    let key = lower_of(key_raw);
    if arg_keyed(acc, key) {
        Result::Err(
            "Duplicate plugin entry: "@ + key + " (plugin was '"@ + plugin_name + "')"@,
        )
    } else {
        match find_from(part, ":"@, 0) {
            Option::None => Result::Err(
                "Invalid plugin call: Missing value for argument `"@ + key + "`"@,
            ),
            Option::Some(j) => {
                let value = match find_from(part, ":"@, j + 1) {
                    Option::None => part.subrange(j + 1, part.len() as int),
                    Option::Some(k) => part.subrange(j + 1, k),
                };
                let acc2 = acc + seq![(key, value)];
                match find_from(rest, " "@, 0) {
                    Option::None => Result::Ok(acc2),
                    Option::Some(i) => read_plugin_args(
                        rest.subrange(i + 1, rest.len() as int),
                        plugin_name,
                        acc2,
                    ),
                }
            },
        }
    }
}

#[via_fn]
proof fn read_plugin_args_decreases(
    rest: Seq<char>,
    plugin_name: Seq<char>,
    acc: Seq<(Seq<char>, Seq<char>)>,
) {
    reveal_strlit(" ");
    if find_from(rest, " "@, 0) is Some {
        crate::text::lemma_find_from_bounds(rest, " "@, 0);
    }
}

/// Reads one run of plugin arguments, mirroring `read_plugin_args`.
fn parse_plugin_args(
    rest: &str,
    plugin_name: &String,
    acc: Vec<(String, String)>,
) -> (r: Result<Vec<(String, String)>, String>)
    ensures
        (match r {
            Result::Ok(ps) => read_plugin_args(rest@, plugin_name@, arg_pairs_view(acc@))
                == Result::<Seq<(Seq<char>, Seq<char>)>, Seq<char>>::Ok(arg_pairs_view(ps@)),
            Result::Err(e) => read_plugin_args(rest@, plugin_name@, arg_pairs_view(acc@))
                == Result::<Seq<(Seq<char>, Seq<char>)>, Seq<char>>::Err(e@),
        }),
    decreases rest@.len(),
{
    proof {
        reveal_strlit(" ");
        reveal_strlit(":");
    }
    let n = rest.unicode_len();
    let space = find_sub(rest, " ", 0);
    let part = match space {
        Option::None => rest,
        Option::Some(i) => rest.substring_char(0, i),
    };
    let np = part.unicode_len();
    let colon = find_sub(part, ":", 0);
    let key_raw = match colon {
        Option::None => part,
        Option::Some(j) => part.substring_char(0, j),
    };
    let key = to_lower(key_raw);
    let mut dup = false;
    let mut x: usize = 0;
    while x < acc.len()
        invariant
            x <= acc.len(),
            dup == exists|i: int| 0 <= i < x && arg_pairs_view(acc@)[i].0 == key@,
        decreases acc.len() - x,
    {
        if str_eq(acc[x].0.as_str(), key.as_str()) {
            assert(arg_pairs_view(acc@)[x as int].0 == key@);
            dup = true;
        }
        x += 1;
    }
    assert(dup == arg_keyed(arg_pairs_view(acc@), key@));
    if dup {
        let mut e = String::from_str("Duplicate plugin entry: ");
        e.append(key.as_str());
        e.append(" (plugin was '");
        e.append(plugin_name.as_str());
        e.append("')");
        return Result::Err(e);
    }
    let j = match colon {
        Option::None => {
            let mut e = String::from_str("Invalid plugin call: Missing value for argument `");
            e.append(key.as_str());
            e.append("`");
            return Result::Err(e);
        },
        Option::Some(j) => j,
    };
    let value = match find_sub(part, ":", j + 1) {
        Option::None => part.substring_char(j + 1, np).to_owned(),
        Option::Some(k) => part.substring_char(j + 1, k).to_owned(),
    };
    let mut acc2 = acc;
    let ghost a0 = arg_pairs_view(acc2@);
    let ghost kv = (key@, value@);
    acc2.push((key, value));
    proof {
        assert(arg_pairs_view(acc2@) =~= a0 + seq![kv]);
    }
    match space {
        Option::None => Result::Ok(acc2),
        Option::Some(i) => {
            let tail = rest.substring_char(i + 1, n);
            parse_plugin_args(tail, plugin_name, acc2)
        },
    }
}

/// The options gathered while reading the arguments.
pub struct ArgsState {
    pub schema_file: Option<Seq<char>>,
    pub out_file: Option<Seq<char>>,
    pub language: Option<EmitLang>,
    pub field_casing: Option<FieldCasing>,
    pub plugins: Seq<PluginCallView>,
    pub mangle: Option<bool>,
    pub untagged: bool,
    pub ignore_naming: bool,
}

/// What reading the option words yields, left to right: each word is split
/// at its first `=` into a key and a value, and an unknown key, a missing
/// or ill-formed value, or a duplicate plugin is rejected with its message.
pub open spec fn read_args(work: Seq<Seq<char>>, st: ArgsState)
    -> Result<ArgsState, Seq<char>>
    decreases work.len(),
{
    if work.len() == 0 {
        Result::Ok(st)
    } else {
        let a = work[0];
        let key = eq_key(a);
        let val = eq_val(a);
        if key == "--schema"@ {
            match val {
                Option::None => Result::Err("Expected path to schema file"@),
                Option::Some(v) => read_args(
                    work.drop_first(),
                    ArgsState { schema_file: Option::Some(v), ..st },
                ),
            }
        } else if key == "--out-file"@ {
            match val {
                Option::None => Result::Err("Expected path to output file"@),
                Option::Some(v) => read_args(
                    work.drop_first(),
                    ArgsState { out_file: Option::Some(v), ..st },
                ),
            }
        } else if key == "--field-casing"@ {
            match val {
                Option::None => Result::Err("Expected arguments for field casing."@),
                Option::Some(v) => {
                    let lv = lower_of(v);
                    if lv == "snake"@ {
                        read_args(
                            work.drop_first(),
                            ArgsState { field_casing: Option::Some(FieldCasing::Snake), ..st },
                        )
                    } else if lv == "camel"@ {
                        read_args(
                            work.drop_first(),
                            ArgsState { field_casing: Option::Some(FieldCasing::Camel), ..st },
                        )
                    } else {
                        Result::Err(
                            "Expected field casing to be one of: "@ + "'snake', 'camel'"@
                                + "\nGot: '"@ + v + "'"@,
                        )
                    }
                },
            }
        } else if key == "--mangle"@ {
            match val {
                Option::None => Result::Err("Expected boolean value for --mangle"@),
                Option::Some(v) => match bool_from_text(lower_of(v)) {
                    Option::Some(b) => read_args(
                        work.drop_first(),
                        ArgsState { mangle: Option::Some(b), ..st },
                    ),
                    Option::None => Result::Err(
                        "Invalid value for --mangle. Expected one of 'true', '1', 'false', '0'"@,
                    ),
                },
            }
        } else if key == "--untagged"@ {
            match val {
                Option::None => Result::Err("Expected boolean value for --untagged"@),
                Option::Some(v) => match bool_from_text(lower_of(v)) {
                    Option::Some(b) => read_args(
                        work.drop_first(),
                        ArgsState { untagged: b, ..st },
                    ),
                    Option::None => Result::Err(
                        "Invalid value for --untagged. Expected one of 'true', '1', 'false', '0'"@,
                    ),
                },
            }
        } else if key == "--add-plugin"@ {
            match val {
                Option::None => Result::Err("--plugin must be followed by a plugin call."@),
                Option::Some(pc) => match plugin_captures_of(pc) {
                    Option::None => Result::Err(
                        "Invalid plugin call. Expected format: plugin-name(plugin-arg-1:true plugin-arg-2:42)"@,
                    ),
                    Option::Some(groups) => match groups.0 {
                        Option::None => Result::Err("Invalid plugin call: Missing plugin name"@),
                        Option::Some(g1) => {
                            let name = lower_of(g1);
                            if plugin_named(st.plugins, name) {
                                Result::Err("Duplicate plugin entry: "@ + name)
                            } else {
                                match groups.1 {
                                    Option::None => read_args(
                                        work.drop_first(),
                                        ArgsState {
                                            plugins: st.plugins + seq![
                                                PluginCallView { name, args: Seq::empty() },
                                            ],
                                            ..st
                                        },
                                    ),
                                    Option::Some(g2) => {
                                        let inner = g2.subrange(1, g2.len() - 1);
                                        match read_plugin_args(inner, name, Seq::empty()) {
                                            Result::Err(e) => Result::Err(e),
                                            Result::Ok(pargs) => read_args(
                                                work.drop_first(),
                                                ArgsState {
                                                    plugins: st.plugins + seq![
                                                        PluginCallView { name, args: pargs },
                                                    ],
                                                    ..st
                                                },
                                            ),
                                        }
                                    },
                                }
                            }
                        },
                    },
                },
            }
        } else if key == "--lang"@ {
            match val {
                Option::None => Result::Err("Expected language identifier for output file"@),
                Option::Some(v) => match lang_from_ext(v) {
                    Option::Some(l) => read_args(
                        work.drop_first(),
                        ArgsState { language: Option::Some(l), ..st },
                    ),
                    Option::None => Result::Err(
                        "Expected language identifier to be one of: "@ + "'ts', 'tsx', 'rs'"@
                            + "\nGot: '"@ + v + "'"@,
                    ),
                },
            }
        } else if key == "--ignore-out-naming"@ {
            read_args(work.drop_first(), ArgsState { ignore_naming: true, ..st })
        } else {
            Result::Err("Unrecognized option: '"@ + key + "'"@)
        }
    }
}

/// What reading a whole argument list yields: the words after the program
/// name, then the mandatory options, the language inferred from the output
/// extension when not given, the exclusion of `--field-casing` with
/// `--untagged`, and the output naming convention.
pub open spec fn args_from_list(args: Seq<Seq<char>>) -> Result<ArgsView, Seq<char>>
    recommends
        args.len() >= 1,
{
    let init = ArgsState {
        schema_file: Option::None,
        out_file: Option::None,
        language: Option::None,
        field_casing: Option::None,
        plugins: Seq::empty(),
        mangle: Option::None,
        untagged: false,
        ignore_naming: false,
    };
    match read_args(args.drop_first(), init) {
        Result::Err(e) => Result::Err(e),
        Result::Ok(st) => {
            if st.schema_file is None {
                Result::Err("Missing option --schema"@)
            } else if st.out_file is None {
                Result::Err("Missing option --out-file"@)
            } else {
                let language = if st.language is Some {
                    st.language
                } else {
                    lang_from_ext(after_last(st.out_file->Some_0, "."@))
                };
                if language is None {
                    Result::Err(
                        "Could not guess language from file extension.Manually provide a language with --lang."@,
                    )
                } else if st.field_casing is Some && st.untagged {
                    Result::Err(
                        "Can not use --field-casing and --untagged together. Responses will always be camelCase."@,
                    )
                } else if !st.ignore_naming && !contains_sub(st.out_file->Some_0, "-generated"@)
                    && !contains_sub(st.out_file->Some_0, "_generated"@) {
                    Result::Err(
                        "The output filename does not contain the string '_generated' or '-generated'. Please add any one substring to the filename or use the '--ignore-out-naming' flag to disable this check"@,
                    )
                } else {
                    Result::Ok(ArgsView {
                        schema_file: st.schema_file->Some_0,
                        out_file: st.out_file->Some_0,
                        language: language->Some_0,
                        field_casing: st.field_casing,
                        plugins: st.plugins,
                        mangle: st.mangle,
                        untagged: st.untagged,
                    })
                }
            }
        },
    }
}

/// Reads and validates the command line, mirroring `args_from_list`.
#[verifier::loop_isolation(false)]
#[verifier::rlimit(100)]
pub fn parse_args(args: Vec<String>) -> (r: Result<ZetroArgs, String>)
    requires
        args@.len() >= 1,
    ensures
        args_result_view(r) == args_from_list(strings_view(args@)),
{
    proof {
        reveal_strlit(".");
        reveal_strlit("-generated");
        reveal_strlit("_generated");
    }
    let ghost argv = strings_view(args@);
    let ghost init = ArgsState {
        schema_file: Option::None,
        out_file: Option::None,
        language: Option::None,
        field_casing: Option::None,
        plugins: Seq::empty(),
        mangle: Option::None,
        untagged: false,
        ignore_naming: false,
    };
    let mut schema_file: Option<String> = Option::None;
    let mut out_file: Option<String> = Option::None;
    let mut language: Option<EmitLang> = Option::None;
    let mut field_casing: Option<FieldCasing> = Option::None;
    let mut plugins: Vec<PluginCall> = Vec::new();
    let mut should_mangle: Option<bool> = Option::None;
    let mut untagged_repr = false;
    let mut ignore_naming_convention = false;
    proof {
        assert(plugins_view(plugins@) =~= Seq::<PluginCallView>::empty());
        assert(argv.skip(1).skip(0) =~= argv.skip(1));
    }
    let mut i: usize = 1;
    while i < args.len()
        invariant
            1 <= i <= args.len(),
            read_args(argv.drop_first(), init) == read_args(
                argv.skip(i as int),
                ArgsState {
                    schema_file: opt_string_view(schema_file),
                    out_file: opt_string_view(out_file),
                    language,
                    field_casing,
                    plugins: plugins_view(plugins@),
                    mangle: should_mangle,
                    untagged: untagged_repr,
                    ignore_naming: ignore_naming_convention,
                },
            ),
        decreases args.len() - i,
    {
        let ghost st = ArgsState {
            schema_file: opt_string_view(schema_file),
            out_file: opt_string_view(out_file),
            language,
            field_casing,
            plugins: plugins_view(plugins@),
            mangle: should_mangle,
            untagged: untagged_repr,
            ignore_naming: ignore_naming_convention,
        };
        proof {
            assert(argv.skip(i as int)[0] == argv[i as int]);
            assert(argv[i as int] == args@[i as int]@);
            assert(argv.skip(i as int).drop_first() =~= argv.skip(i as int + 1));
        }
        let (key, val) = split_arg(args[i].as_str());
        if str_eq(key.as_str(), "--schema") {
            match val {
                Option::Some(v) => {
                    schema_file = Option::Some(v);
                },
                Option::None => {
                    return Result::Err(String::from_str("Expected path to schema file"));
                },
            }
        } else if str_eq(key.as_str(), "--out-file") {
            match val {
                Option::Some(v) => {
                    out_file = Option::Some(v);
                },
                Option::None => {
                    return Result::Err(String::from_str("Expected path to output file"));
                },
            }
        } else if str_eq(key.as_str(), "--field-casing") {
            match val {
                Option::Some(v) => {
                    let lv = to_lower(v.as_str());
                    if str_eq(lv.as_str(), "snake") {
                        field_casing = Option::Some(FieldCasing::Snake);
                    } else if str_eq(lv.as_str(), "camel") {
                        field_casing = Option::Some(FieldCasing::Camel);
                    } else {
                        let mut e = String::from_str("Expected field casing to be one of: ");
                        e.append("'snake', 'camel'");
                        e.append("\nGot: '");
                        e.append(v.as_str());
                        e.append("'");
                        return Result::Err(e);
                    }
                },
                Option::None => {
                    return Result::Err(String::from_str("Expected arguments for field casing."));
                },
            }
        } else if str_eq(key.as_str(), "--mangle") {
            match val {
                Option::Some(v) => {
                    let lv = to_lower(v.as_str());
                    match parse_bool(lv.as_str()) {
                        Option::Some(b) => {
                            should_mangle = Option::Some(b);
                        },
                        Option::None => {
                            return Result::Err(String::from_str(
                                "Invalid value for --mangle. Expected one of 'true', '1', 'false', '0'",
                            ));
                        },
                    }
                },
                Option::None => {
                    return Result::Err(String::from_str("Expected boolean value for --mangle"));
                },
            }
        } else if str_eq(key.as_str(), "--untagged") {
            match val {
                Option::Some(v) => {
                    let lv = to_lower(v.as_str());
                    match parse_bool(lv.as_str()) {
                        Option::Some(b) => {
                            untagged_repr = b;
                        },
                        Option::None => {
                            return Result::Err(String::from_str(
                                "Invalid value for --untagged. Expected one of 'true', '1', 'false', '0'",
                            ));
                        },
                    }
                },
                Option::None => {
                    return Result::Err(String::from_str("Expected boolean value for --untagged"));
                },
            }
        } else if str_eq(key.as_str(), "--add-plugin") {
            let pc = match val {
                Option::Some(v) => v,
                Option::None => {
                    return Result::Err(String::from_str(
                        "--plugin must be followed by a plugin call.",
                    ));
                },
            };
            let groups = match plugin_call_captures(pc.as_str()) {
                Option::Some(g) => g,
                Option::None => {
                    return Result::Err(String::from_str(
                        "Invalid plugin call. Expected format: plugin-name(plugin-arg-1:true plugin-arg-2:42)",
                    ));
                },
            };
            let g1 = match groups.0 {
                Option::Some(g) => g,
                Option::None => {
                    return Result::Err(String::from_str(
                        "Invalid plugin call: Missing plugin name",
                    ));
                },
            };
            let plugin_name = to_lower(g1.as_str());
            let mut dup = false;
            let mut x: usize = 0;
            while x < plugins.len()
                invariant
                    x <= plugins.len(),
                    dup == exists|k: int| 0 <= k < x
                        && plugins_view(plugins@)[k].name == plugin_name@,
                decreases plugins.len() - x,
            {
                if str_eq(plugins[x].name.as_str(), plugin_name.as_str()) {
                    assert(plugins_view(plugins@)[x as int].name == plugin_name@);
                    dup = true;
                }
                x += 1;
            }
            assert(dup == plugin_named(plugins_view(plugins@), plugin_name@));
            if dup {
                let mut e = String::from_str("Duplicate plugin entry: ");
                e.append(plugin_name.as_str());
                return Result::Err(e);
            }
            let plugin_args: Vec<(String, String)> = match groups.1 {
                Option::None => Vec::new(),
                Option::Some(g2) => {
                    let g2len = g2.as_str().unicode_len();
                    let inner = g2.as_str().substring_char(1, g2len - 1);
                    match parse_plugin_args(inner, &plugin_name, Vec::new()) {
                        Result::Ok(ps) => {
                            proof {
                                assert(arg_pairs_view(Seq::<(String, String)>::empty())
                                    =~= Seq::<(Seq<char>, Seq<char>)>::empty());
                            }
                            ps
                        },
                        Result::Err(e) => {
                            return Result::Err(e);
                        },
                    }
                },
            };
            proof {
                assert(arg_pairs_view(Seq::<(String, String)>::empty())
                    =~= Seq::<(Seq<char>, Seq<char>)>::empty());
            }
            let ghost p0 = plugins_view(plugins@);
            let ghost newp = PluginCallView {
                name: plugin_name@,
                args: arg_pairs_view(plugin_args@),
            };
            plugins.push(PluginCall { name: plugin_name, args: plugin_args });
            proof {
                assert(plugins_view(plugins@) =~= p0 + seq![newp]);
            }
        } else if str_eq(key.as_str(), "--lang") {
            match val {
                Option::Some(v) => match EmitLang::from_ext(v.as_str()) {
                    Option::Some(l) => {
                        language = Option::Some(l);
                    },
                    Option::None => {
                        let mut e = String::from_str(
                            "Expected language identifier to be one of: ",
                        );
                        e.append("'ts', 'tsx', 'rs'");
                        e.append("\nGot: '");
                        e.append(v.as_str());
                        e.append("'");
                        return Result::Err(e);
                    },
                },
                Option::None => {
                    return Result::Err(String::from_str(
                        "Expected language identifier for output file",
                    ));
                },
            }
        } else if str_eq(key.as_str(), "--ignore-out-naming") {
            ignore_naming_convention = true;
        } else {
            let mut e = String::from_str("Unrecognized option: '");
            e.append(key.as_str());
            e.append("'");
            return Result::Err(e);
        }
        i += 1;
    }
    proof {
        assert(argv.skip(args@.len() as int) =~= Seq::<Seq<char>>::empty());
    }

    let schema_file = match schema_file {
        Option::Some(s) => s,
        Option::None => {
            return Result::Err(String::from_str("Missing option --schema"));
        },
    };
    let out_file = match out_file {
        Option::Some(s) => s,
        Option::None => {
            return Result::Err(String::from_str("Missing option --out-file"));
        },
    };
    let language = match language {
        Option::Some(l) => Option::Some(l),
        Option::None => {
            let ext = crate::text::str_after_last(out_file.as_str(), ".");
            EmitLang::from_ext(ext.as_str())
        },
    };
    let language = match language {
        Option::Some(l) => l,
        Option::None => {
            return Result::Err(String::from_str(
                "Could not guess language from file extension.Manually provide a language with --lang.",
            ));
        },
    };
    if field_casing.is_some() && untagged_repr {
        return Result::Err(String::from_str(
            "Can not use --field-casing and --untagged together. Responses will always be camelCase.",
        ));
    }
    if !ignore_naming_convention && !str_contains(out_file.as_str(), "-generated")
        && !str_contains(out_file.as_str(), "_generated") {
        return Result::Err(String::from_str(
            "The output filename does not contain the string '_generated' or '-generated'. Please add any one substring to the filename or use the '--ignore-out-naming' flag to disable this check",
        ));
    }
    Result::Ok(ZetroArgs {
        language,
        out_file,
        schema_file,
        mangle: should_mangle,
        untagged: untagged_repr,
        field_casing,
        plugins,
    })
}

} // verus!
