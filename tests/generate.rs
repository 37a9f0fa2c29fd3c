use error_enum::code::{decimal_string, format_error_code, padded3_string};
use error_enum::container::{generate_container, Access, ContainerBundle};
use error_enum::description::{
    FieldType, Fields, MetaEntry, NamedField, PathSegment, TypeDescription, VariantDescription,
};
use error_enum::error::GenerateError;
use error_enum::leaf::{generate_leaf, LeafBundle, Payload};
use error_enum::metadata::{find_unique, DuplicateKey};
use error_enum::pretty::{ErrorValue, PrettyError, Wrapped};

fn meta(key: &str, value: &str) -> MetaEntry {
    MetaEntry {
        namespace: "error_enum".to_string(),
        key: key.to_string(),
        value: value.to_string(),
    }
}

fn plain(name: &str) -> FieldType {
    FieldType::Path(vec![PathSegment { ident: name.to_string(), has_arguments: false }])
}

fn variant(name: &str, fields: Fields, description: Option<&str>) -> VariantDescription {
    VariantDescription {
        name: name.to_string(),
        fields,
        meta: description.map(|d| vec![meta("description", d)]).unwrap_or_default(),
    }
}

fn leaf_type(name: &str, prefix: &str, variants: Vec<VariantDescription>) -> TypeDescription {
    TypeDescription { name: name.to_string(), meta: vec![meta("prefix", prefix)], variants }
}

fn config_errors() -> TypeDescription {
    leaf_type(
        "ConfigErrors",
        "CFG",
        vec![
            variant(
                "UnableToLoadFile",
                Fields::Unnamed(vec![plain("String")]),
                Some("Unable to Load File from disk"),
            ),
            variant(
                "ConfigParseError",
                Fields::Unnamed(vec![plain("String")]),
                Some("Unable to parse config file"),
            ),
        ],
    )
}

fn runtime_errors() -> TypeDescription {
    leaf_type(
        "RuntimeErrors",
        "RNT",
        vec![
            variant("Bug", Fields::Unnamed(vec![plain("String")]), Some("This was a bug")),
            variant("Panic", Fields::Unit, Some("Panic!")),
            variant(
                "Error",
                Fields::Named(vec![NamedField { name: "message".to_string(), ty: plain("String") }]),
                Some("Error"),
            ),
        ],
    )
}

fn cli_errors() -> TypeDescription {
    TypeDescription {
        name: "CliErrors".to_string(),
        meta: vec![],
        variants: vec![
            variant("Config", Fields::Unnamed(vec![plain("ConfigErrors")]), None),
            variant("Runtime", Fields::Unnamed(vec![plain("RuntimeErrors")]), None),
        ],
    }
}

fn leaf(td: &TypeDescription) -> LeafBundle {
    generate_leaf(td).unwrap()
}

fn container(td: &TypeDescription) -> ContainerBundle {
    generate_container(td).unwrap()
}

fn debug_of(s: &str) -> Option<String> {
    Some(format!("{:?}", s))
}

#[test]
fn config_leaf_end_to_end() {
    let b = leaf(&config_errors());
    assert_eq!(b.enum_name, "ConfigErrors");
    assert_eq!(b.rules[0].code, "CFG-001");
    assert_eq!(b.rules[0].description, "Unable to Load File from disk.");
    assert_eq!(b.rules[0].payload, Payload::Positional);
    let e = b.error_value(0, debug_of("/foo/path"));
    assert_eq!(e.get_error_code(), "CFG-001");
    assert_eq!(e.description(), "Unable to Load File from disk.");
    assert_eq!(
        e.render(),
        "(CFG-001): Unable to Load File from disk. Detailed Error: \"/foo/path\""
    );
}

#[test]
fn verify_display() {
    let config = leaf(&config_errors());
    let runtime = leaf(&runtime_errors());
    let cli = container(&cli_errors());

    let error = cli.wrap(0, config.error_value(0, debug_of("/foo/path")));
    assert_eq!("CFG-001", error.get_error_code());
    assert_eq!(error.description(), "Unable to Load File from disk.");
    assert_eq!(
        error.render(),
        "(CFG-001): Unable to Load File from disk. Detailed Error: \"/foo/path\""
    );

    let error = cli.wrap(0, config.error_value(1, debug_of("missing foo")));
    assert_eq!("CFG-002", error.get_error_code());
    assert_eq!(error.description(), "Unable to parse config file.");
    assert_eq!(
        error.render(),
        "(CFG-002): Unable to parse config file. Detailed Error: \"missing foo\""
    );

    let error = cli.wrap(1, runtime.error_value(0, debug_of("my bad...")));
    assert_eq!("RNT-001", error.get_error_code());
    assert_eq!(error.description(), "This was a bug.");
    assert_eq!(error.render(), "(RNT-001): This was a bug. Detailed Error: \"my bad...\"");

    let error = cli.wrap(1, runtime.error_value(1, None));
    assert_eq!("RNT-002", error.get_error_code());
    assert_eq!(error.description(), "Panic!.");
    assert_eq!(error.render(), "(RNT-002): Panic!.");

    let error = cli.wrap(1, runtime.error_value(2, debug_of("some message")));
    assert_eq!("RNT-003", error.get_error_code());
    assert_eq!(error.description(), "Error.");
    assert_eq!(error.render(), "(RNT-003): Error. Detailed Error: \"some message\"");
}

#[test]
fn container_display_equals_inner_display() {
    let config = leaf(&config_errors());
    let cli = container(&cli_errors());
    let inner = config.error_value(0, debug_of("/foo/path"));
    let inner_text = inner.render();
    let inner_code = inner.get_error_code().to_string();
    let inner_desc = inner.description().to_string();
    let wrapped = cli.wrap(0, inner);
    assert_eq!(wrapped.render(), inner_text);
    assert_eq!(wrapped.get_error_code(), inner_code);
    assert_eq!(wrapped.description(), inner_desc);
    assert_eq!(wrapped.variant, 0);
}

#[test]
fn validate_error_cast() {
    let runtime = leaf(&runtime_errors());
    let cli = container(&cli_errors());
    let converted = cli.convert("RuntimeErrors", runtime.error_value(1, None)).unwrap();
    assert_eq!(converted.variant, 1);
    assert_eq!(cli.rules[converted.variant].variant, "Runtime");
    assert_eq!(converted.inner, runtime.error_value(1, None));
    assert_eq!(converted.get_error_code(), "RNT-002");
}

#[test]
fn conversion_unknown_type_is_none() {
    let cli = container(&cli_errors());
    let value = ErrorValue { code: "X-001".to_string(), description: "x.".to_string(), detail: None };
    assert!(cli.convert("OtherErrors", value).is_none());
}

#[test]
fn container_rules_and_skipped_conversions() {
    let td = TypeDescription {
        name: "Top".to_string(),
        meta: vec![],
        variants: vec![
            variant("A", Fields::Unnamed(vec![plain("AErrors")]), None),
            variant(
                "B",
                Fields::Unnamed(vec![FieldType::Path(vec![
                    PathSegment { ident: "inner".to_string(), has_arguments: false },
                    PathSegment { ident: "BErrors".to_string(), has_arguments: false },
                ])]),
                None,
            ),
            variant(
                "C",
                Fields::Unnamed(vec![FieldType::Path(vec![PathSegment {
                    ident: "Box".to_string(),
                    has_arguments: true,
                }])]),
                None,
            ),
            variant("D", Fields::Unnamed(vec![FieldType::Other]), None),
            variant(
                "E",
                Fields::Named(vec![NamedField { name: "source".to_string(), ty: plain("EErrors") }]),
                None,
            ),
        ],
    };
    let b = container(&td);
    assert_eq!(b.enum_name, "Top");
    assert_eq!(b.rules.len(), 5);
    assert_eq!(b.rules[0].conversion, Some("AErrors".to_string()));
    assert_eq!(b.rules[0].access, Access::Positional);
    assert_eq!(b.rules[1].conversion, None);
    assert_eq!(b.rules[2].conversion, None);
    assert_eq!(b.rules[3].conversion, None);
    assert_eq!(b.rules[4].conversion, Some("EErrors".to_string()));
    assert_eq!(b.rules[4].access, Access::Field("source".to_string()));
    assert_eq!(b.rules[4].variant, "E");
}

#[test]
fn container_unit_variant_fails() {
    let mut td = cli_errors();
    td.variants.push(variant("Nothing", Fields::Unit, None));
    assert_eq!(
        generate_container(&td).unwrap_err(),
        GenerateError::RequiresSingleField { variant: 2 }
    );
}

#[test]
fn container_two_field_variant_fails() {
    let mut td = cli_errors();
    td.variants.insert(0, variant("Pair", Fields::Unnamed(vec![plain("A"), plain("B")]), None));
    td.variants.push(variant("Nothing", Fields::Unit, None));
    assert_eq!(
        generate_container(&td).unwrap_err(),
        GenerateError::RequiresSingleField { variant: 0 }
    );
}

#[test]
fn container_empty_named_variant_fails() {
    let mut td = cli_errors();
    td.variants.push(variant("Empty", Fields::Named(vec![]), None));
    assert_eq!(
        generate_container(&td).unwrap_err(),
        GenerateError::RequiresSingleField { variant: 2 }
    );
}

#[test]
fn leaf_missing_description_fails() {
    let mut td = runtime_errors();
    td.variants[1].meta.clear();
    assert_eq!(generate_leaf(&td).unwrap_err(), GenerateError::MissingDescription { variant: 1 });
}

#[test]
fn leaf_missing_prefix_fails() {
    let mut td = runtime_errors();
    td.meta.clear();
    assert_eq!(generate_leaf(&td).unwrap_err(), GenerateError::MissingPrefix);
}

#[test]
fn leaf_duplicate_prefix_fails() {
    let mut td = runtime_errors();
    td.meta.push(meta("prefix", "OTHER"));
    assert_eq!(
        generate_leaf(&td).unwrap_err(),
        GenerateError::DuplicateMetadataKey { variant: None }
    );
}

#[test]
fn leaf_duplicate_description_fails() {
    let mut td = runtime_errors();
    td.variants[2].meta.push(meta("description", "Again"));
    assert_eq!(
        generate_leaf(&td).unwrap_err(),
        GenerateError::DuplicateMetadataKey { variant: Some(2) }
    );
}

#[test]
fn leaf_two_payloads_fail() {
    let mut td = runtime_errors();
    td.variants[0].fields = Fields::Unnamed(vec![plain("String"), plain("u32")]);
    assert_eq!(
        generate_leaf(&td).unwrap_err(),
        GenerateError::UnsupportedFieldArity { variant: 0 }
    );
}

#[test]
fn leaf_two_named_payloads_fail() {
    let mut td = runtime_errors();
    td.variants[2].fields = Fields::Named(vec![
        NamedField { name: "a".to_string(), ty: plain("String") },
        NamedField { name: "b".to_string(), ty: plain("String") },
    ]);
    assert_eq!(
        generate_leaf(&td).unwrap_err(),
        GenerateError::UnsupportedFieldArity { variant: 2 }
    );
}

#[test]
fn leaf_description_checked_before_shape() {
    let mut td = runtime_errors();
    td.variants[0].fields = Fields::Unnamed(vec![plain("String"), plain("u32")]);
    td.variants[0].meta.clear();
    assert_eq!(generate_leaf(&td).unwrap_err(), GenerateError::MissingDescription { variant: 0 });
}

#[test]
fn leaf_named_payload_and_unit() {
    let b = leaf(&runtime_errors());
    assert_eq!(b.rules[1].payload, Payload::Nothing);
    assert_eq!(b.rules[2].payload, Payload::Field("message".to_string()));
    assert_eq!(b.rules[2].variant, "Error");
}

#[test]
fn leaf_double_period_kept() {
    let td = leaf_type("T", "T", vec![variant("A", Fields::Unit, Some("Already ended."))]);
    let b = leaf(&td);
    assert_eq!(b.rules[0].description, "Already ended..");
    assert_eq!(b.error_value(0, None).render(), "(T-001): Already ended..");
}

#[test]
fn leaf_other_namespaces_ignored() {
    let mut td = config_errors();
    td.meta.push(MetaEntry {
        namespace: "other".to_string(),
        key: "prefix".to_string(),
        value: "NOPE".to_string(),
    });
    td.variants[0].meta.push(meta("unrelated", "x"));
    let b = leaf(&td);
    assert_eq!(b.rules[0].code, "CFG-001");
}

#[test]
fn leaf_codes_are_sequential_and_distinct() {
    let variants: Vec<VariantDescription> =
        (0..12).map(|i| variant(&format!("V{}", i), Fields::Unit, Some("d"))).collect();
    let b = leaf(&leaf_type("Many", "MNY", variants));
    assert_eq!(b.rules[0].code, "MNY-001");
    assert_eq!(b.rules[9].code, "MNY-010");
    assert_eq!(b.rules[11].code, "MNY-012");
    for i in 0..b.rules.len() {
        for j in 0..b.rules.len() {
            if i != j {
                assert_ne!(b.rules[i].code, b.rules[j].code);
            }
        }
    }
}

#[test]
fn leaf_empty_type_generates_nothing() {
    let b = leaf(&leaf_type("Empty", "E", vec![]));
    assert!(b.rules.is_empty());
}

#[test]
fn error_code_formatting() {
    assert_eq!(format_error_code("CFG", 1), "CFG-001");
    assert_eq!(format_error_code("CFG", 42), "CFG-042");
    assert_eq!(format_error_code("CFG", 999), "CFG-999");
    assert_eq!(format_error_code("CFG", 1000), "CFG-1000");
    assert_eq!(format_error_code("", 7), "-007");
    assert_eq!(padded3_string(0), "000");
    assert_eq!(padded3_string(305), "305");
    assert_eq!(decimal_string(0), "0");
    assert_eq!(decimal_string(1234567), "1234567");
}

#[test]
fn find_unique_cases() {
    let m = vec![meta("prefix", "A"), meta("description", "B")];
    assert_eq!(find_unique(&m, "error_enum", "prefix"), Ok(Some("A".to_string())));
    assert_eq!(find_unique(&m, "error_enum", "missing"), Ok(None));
    assert_eq!(find_unique(&m, "other", "prefix"), Ok(None));
    let d = vec![meta("prefix", "A"), meta("prefix", "A")];
    assert_eq!(find_unique(&d, "error_enum", "prefix"), Err(DuplicateKey));
}

#[test]
fn wrapped_nests() {
    let inner = ErrorValue {
        code: "IN-003".to_string(),
        description: "Inner.".to_string(),
        detail: Some("7".to_string()),
    };
    let twice = Wrapped { variant: 0, inner: Wrapped { variant: 4, inner } };
    assert_eq!(twice.get_error_code(), "IN-003");
    assert_eq!(twice.render(), "(IN-003): Inner. Detailed Error: 7");
}
