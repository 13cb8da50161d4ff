use zetro::cli::{parse_args, parse_bool, EmitLang, FieldCasing};

fn args(words: &[&str]) -> Vec<String> {
    let mut v = vec![String::from("zetro")];
    v.extend(words.iter().map(|w| String::from(*w)));
    v
}

/// The mandatory options make a full argument set; the language comes from
/// the output extension when not given.
#[test]
fn accepts_minimal_arguments() {
    let parsed = parse_args(args(&["--schema=schema.json", "--out-file=api_generated.rs"]))
        .unwrap();
    assert_eq!(parsed.schema_file, "schema.json");
    assert_eq!(parsed.out_file, "api_generated.rs");
    assert!(matches!(parsed.language, EmitLang::Rust));
    assert_eq!(parsed.untagged, false);
    assert_eq!(parsed.mangle, None);
    assert!(parsed.field_casing.is_none());
    assert_eq!(parsed.plugins.len(), 0);

    let parsed = parse_args(args(&["--schema=s.json", "--out-file=api_generated.ts"]))
        .unwrap();
    assert!(matches!(parsed.language, EmitLang::Typescript));
}

/// `--field-casing` and `--untagged` exclude one another.
#[test]
fn reject_casing_with_untagged() {
    let err = parse_args(args(&[
        "--schema=s.json",
        "--out-file=api_generated.rs",
        "--field-casing=snake",
        "--untagged=true",
    ]))
    .err()
    .expect("expected an error");
    assert_eq!(
        err,
        "Can not use --field-casing and --untagged together. Responses will always be camelCase."
    );
}

/// The output file must carry a generated marker unless the check is
/// switched off.
#[test]
fn out_naming_convention() {
    let err = parse_args(args(&["--schema=s.json", "--out-file=api.rs"]))
        .err()
        .expect("expected an error");
    assert!(err.contains("'_generated' or"));

    let parsed = parse_args(args(&[
        "--schema=s.json",
        "--out-file=api.rs",
        "--ignore-out-naming",
    ]))
    .unwrap();
    assert_eq!(parsed.out_file, "api.rs");

    let parsed = parse_args(args(&["--schema=s.json", "--out-file=api-generated.rs"]))
        .unwrap();
    assert_eq!(parsed.out_file, "api-generated.rs");
}

/// Casing words are read case-insensitively.
#[test]
fn field_casing_values() {
    let parsed = parse_args(args(&[
        "--schema=s.json",
        "--out-file=api_generated.rs",
        "--field-casing=SNAKE",
    ]))
    .unwrap();
    assert!(matches!(parsed.field_casing, Some(FieldCasing::Snake)));

    let parsed = parse_args(args(&[
        "--schema=s.json",
        "--out-file=api_generated.rs",
        "--field-casing=Camel",
    ]))
    .unwrap();
    assert!(matches!(parsed.field_casing, Some(FieldCasing::Camel)));

    let err = parse_args(args(&[
        "--schema=s.json",
        "--out-file=api_generated.rs",
        "--field-casing=kebab",
    ]))
    .err()
    .expect("expected an error");
    assert!(err.contains("'snake', 'camel'"));
}

/// Plugin calls parse into a lowercased name and key/value arguments;
/// duplicates are rejected.
#[test]
fn plugin_arguments() {
    let parsed = parse_args(args(&[
        "--schema=s.json",
        "--out-file=api_generated.rs",
        "--add-plugin=Warp(fnv:true threads:4)",
    ]))
    .unwrap();
    assert_eq!(parsed.plugins.len(), 1);
    assert_eq!(parsed.plugins[0].name, "warp");
    assert_eq!(parsed.plugins[0].args.len(), 2);
    assert_eq!(parsed.plugins[0].args[0].0, "fnv");
    assert_eq!(parsed.plugins[0].args[0].1, "true");
    assert_eq!(parsed.plugins[0].args[1].0, "threads");
    assert_eq!(parsed.plugins[0].args[1].1, "4");

    let parsed = parse_args(args(&[
        "--schema=s.json",
        "--out-file=api_generated.rs",
        "--add-plugin=warp",
    ]))
    .unwrap();
    assert_eq!(parsed.plugins[0].name, "warp");
    assert_eq!(parsed.plugins[0].args.len(), 0);

    let err = parse_args(args(&[
        "--schema=s.json",
        "--out-file=api_generated.rs",
        "--add-plugin=warp",
        "--add-plugin=warp",
    ]))
    .err()
    .expect("expected an error");
    assert_eq!(err, "Duplicate plugin entry: warp");
}

/// Booleans accept several spellings, case-insensitively for option values.
#[test]
fn boolean_values() {
    assert_eq!(parse_bool("true"), Some(true));
    assert_eq!(parse_bool("1"), Some(true));
    assert_eq!(parse_bool("on"), Some(true));
    assert_eq!(parse_bool("yes"), Some(true));
    assert_eq!(parse_bool("t"), Some(true));
    assert_eq!(parse_bool("false"), Some(false));
    assert_eq!(parse_bool("0"), Some(false));
    assert_eq!(parse_bool("off"), Some(false));
    assert_eq!(parse_bool("no"), Some(false));
    assert_eq!(parse_bool("f"), Some(false));
    assert_eq!(parse_bool("maybe"), None);

    let parsed = parse_args(args(&[
        "--schema=s.json",
        "--out-file=api_generated.rs",
        "--untagged=TRUE",
        "--mangle=False",
    ]))
    .unwrap();
    assert_eq!(parsed.untagged, true);
    assert_eq!(parsed.mangle, Some(false));

    let err = parse_args(args(&[
        "--schema=s.json",
        "--out-file=api_generated.rs",
        "--mangle=perhaps",
    ]))
    .err()
    .expect("expected an error");
    assert_eq!(
        err,
        "Invalid value for --mangle. Expected one of 'true', '1', 'false', '0'"
    );
}

/// Missing mandatory options and unknown options are reported.
#[test]
fn missing_and_unknown_options() {
    let err = parse_args(args(&["--out-file=api_generated.rs"]))
        .err()
        .expect("expected an error");
    assert_eq!(err, "Missing option --schema");

    let err = parse_args(args(&["--schema=s.json"]))
        .err()
        .expect("expected an error");
    assert_eq!(err, "Missing option --out-file");

    let err = parse_args(args(&["--frobnicate=1"]))
        .err()
        .expect("expected an error");
    assert_eq!(err, "Unrecognized option: '--frobnicate'");

    let err = parse_args(args(&["--schema=s.json", "--out-file=api_generated.dat"]))
        .err()
        .expect("expected an error");
    assert!(err.contains("Could not guess language"));
}

/// The extension selector knows the three source extensions.
#[test]
fn language_from_extension() {
    assert!(matches!(EmitLang::from_ext("ts"), Some(EmitLang::Typescript)));
    assert!(matches!(EmitLang::from_ext("tsx"), Some(EmitLang::Typescript)));
    assert!(matches!(EmitLang::from_ext("rs"), Some(EmitLang::Rust)));
    assert!(EmitLang::from_ext("py").is_none());
}
