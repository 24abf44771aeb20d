use protocheck_build::model::{
    FieldInfo, FieldValidation, MessageInfo, OneofInfo, OneofMember, PoolModel, RuleMember,
};
use protocheck_build::synthesize_directives;

const IGNORE_RULE_PATH: &str = "buf.validate.FieldRules.ignore";

fn plain_field(name: &str, full_name: &str) -> FieldInfo {
    FieldInfo {
        name: name.to_string(),
        full_name: full_name.to_string(),
        validate: FieldValidation::Absent,
    }
}

fn field_with_ignore_ordinal(name: &str, full_name: &str, ordinal: i32) -> FieldInfo {
    FieldInfo {
        name: name.to_string(),
        full_name: full_name.to_string(),
        validate: FieldValidation::Rules(vec![
            RuleMember { path: "buf.validate.FieldRules.cel".to_string(), ordinal: None },
            RuleMember { path: IGNORE_RULE_PATH.to_string(), ordinal: Some(ordinal) },
        ]),
    }
}

fn scenario_message(field_a: FieldInfo) -> MessageInfo {
    MessageInfo {
        full_name: "p.M".to_string(),
        package_name: "p".to_string(),
        fields: vec![
            field_a,
            plain_field("x", "p.M.x"),
            plain_field("y", "p.M.y"),
        ],
        oneofs: vec![OneofInfo {
            full_name: "p.M.o".to_string(),
            members: vec![
                OneofMember { name: "x".to_string(), full_name: "p.M.x".to_string() },
                OneofMember { name: "y".to_string(), full_name: "p.M.y".to_string() },
            ],
        }],
    }
}

fn pairs(attrs: &[protocheck_build::directives::Attr]) -> Vec<(String, String)> {
    attrs.iter().map(|a| (a.path.clone(), a.value.clone())).collect()
}

#[test]
fn end_to_end_plain_field_oneof_members() {
    let pool = PoolModel { messages: vec![scenario_message(plain_field("a", "p.M.a"))] };
    let packages = vec!["p".to_string()];
    let d = synthesize_directives(&pool, &packages, false);

    assert_eq!(
        pairs(&d.message_attrs),
        vec![(
            "p.M".to_string(),
            "#[::protocheck::macros::protobuf_validate(\"p.M\")]".to_string(),
        )]
    );
    assert_eq!(
        pairs(&d.type_attrs),
        vec![
            (
                "p.M.o".to_string(),
                "#[::protocheck::macros::protobuf_validate_oneof(\"p.M.o\")]".to_string(),
            ),
            ("p.M.o".to_string(), "#[derive(::protocheck::macros::Oneof)]".to_string()),
        ]
    );
    assert_eq!(
        pairs(&d.field_attrs),
        vec![
            ("p.M.o.x".to_string(), "#[protocheck(proto_name = \"x\")]".to_string()),
            ("p.M.o.y".to_string(), "#[protocheck(proto_name = \"y\")]".to_string()),
        ]
    );
    let remaps: Vec<(String, String)> = d
        .extern_paths
        .iter()
        .map(|r| (r.proto_path.clone(), r.rust_path.clone()))
        .collect();
    assert_eq!(
        remaps,
        vec![
            (".buf.validate".to_string(), "::protocheck::types::protovalidate".to_string()),
            (".google.protobuf".to_string(), "::protocheck::types".to_string()),
        ]
    );
    assert!(d.compile_well_known_types);
}

#[test]
fn end_to_end_always_ignored_field() {
    let pool =
        PoolModel { messages: vec![scenario_message(field_with_ignore_ordinal("a", "p.M.a", 3))] };
    let packages = vec!["p".to_string()];
    let d = synthesize_directives(&pool, &packages, false);

    assert_eq!(
        pairs(&d.field_attrs),
        vec![
            ("p.M.a".to_string(), "#[protocheck(ignore_field)]".to_string()),
            ("p.M.o.x".to_string(), "#[protocheck(proto_name = \"x\")]".to_string()),
            ("p.M.o.y".to_string(), "#[protocheck(proto_name = \"y\")]".to_string()),
        ]
    );
    assert_eq!(d.message_attrs.len(), 1);
    assert_eq!(d.type_attrs.len(), 2);
    assert_eq!(d.extern_paths.len(), 2);
}

#[test]
fn ignore_ordinals_other_than_three_register_nothing() {
    for ordinal in 0..3 {
        let message = MessageInfo {
            full_name: "p.M".to_string(),
            package_name: "q".to_string(),
            fields: vec![field_with_ignore_ordinal("a", "p.M.a", ordinal)],
            oneofs: vec![],
        };
        let pool = PoolModel { messages: vec![message] };
        let d = synthesize_directives(&pool, &vec![], false);
        assert!(d.field_attrs.is_empty(), "ordinal {ordinal} must register nothing");
    }
}

#[test]
fn ignore_rule_without_ordinal_registers_nothing() {
    let field = FieldInfo {
        name: "a".to_string(),
        full_name: "p.M.a".to_string(),
        validate: FieldValidation::Rules(vec![RuleMember {
            path: IGNORE_RULE_PATH.to_string(),
            ordinal: None,
        }]),
    };
    let message = MessageInfo {
        full_name: "p.M".to_string(),
        package_name: "q".to_string(),
        fields: vec![field],
        oneofs: vec![],
    };
    let d = synthesize_directives(&PoolModel { messages: vec![message] }, &vec![], false);
    assert!(d.field_attrs.is_empty());
}

#[test]
fn undecodable_option_registers_nothing() {
    let field = FieldInfo {
        name: "a".to_string(),
        full_name: "p.M.a".to_string(),
        validate: FieldValidation::Undecodable,
    };
    let message = MessageInfo {
        full_name: "p.M".to_string(),
        package_name: "q".to_string(),
        fields: vec![field],
        oneofs: vec![],
    };
    let d = synthesize_directives(&PoolModel { messages: vec![message] }, &vec![], false);
    assert!(d.field_attrs.is_empty());
}

#[test]
fn first_matching_ignore_rule_decides() {
    let field = FieldInfo {
        name: "a".to_string(),
        full_name: "p.M.a".to_string(),
        validate: FieldValidation::Rules(vec![
            RuleMember { path: IGNORE_RULE_PATH.to_string(), ordinal: Some(1) },
            RuleMember { path: IGNORE_RULE_PATH.to_string(), ordinal: Some(3) },
        ]),
    };
    let message = MessageInfo {
        full_name: "p.M".to_string(),
        package_name: "q".to_string(),
        fields: vec![field],
        oneofs: vec![],
    };
    let d = synthesize_directives(&PoolModel { messages: vec![message] }, &vec![], false);
    assert!(d.field_attrs.is_empty());
}

#[test]
fn non_target_message_gets_no_annotations() {
    let pool =
        PoolModel { messages: vec![scenario_message(field_with_ignore_ordinal("a", "p.M.a", 3))] };
    let packages = vec!["other".to_string()];
    let d = synthesize_directives(&pool, &packages, false);
    assert!(d.message_attrs.is_empty());
    assert!(d.type_attrs.is_empty());
    // Pass A is unaffected by the target packages.
    assert_eq!(
        pairs(&d.field_attrs),
        vec![("p.M.a".to_string(), "#[protocheck(ignore_field)]".to_string())]
    );
    assert_eq!(d.extern_paths.len(), 2);
}

#[test]
fn package_match_is_exact_not_prefix() {
    let pool = PoolModel { messages: vec![scenario_message(plain_field("a", "p.M.a"))] };
    let d = synthesize_directives(&pool, &vec!["p.M".to_string(), "pp".to_string()], false);
    assert!(d.message_attrs.is_empty());
    assert!(d.type_attrs.is_empty());
}

#[test]
fn conversion_feature_adds_derive_directives() {
    let pool = PoolModel { messages: vec![scenario_message(plain_field("a", "p.M.a"))] };
    let packages = vec!["p".to_string()];
    let d = synthesize_directives(&pool, &packages, true);
    assert_eq!(
        pairs(&d.message_attrs),
        vec![
            (
                "p.M".to_string(),
                "#[::protocheck::macros::protobuf_validate(\"p.M\")]".to_string(),
            ),
            (
                "p.M".to_string(),
                "#[derive(::protocheck::macros::TryIntoCelValue)]".to_string(),
            ),
        ]
    );
    assert_eq!(
        pairs(&d.type_attrs),
        vec![
            (
                "p.M.o".to_string(),
                "#[::protocheck::macros::protobuf_validate_oneof(\"p.M.o\")]".to_string(),
            ),
            ("p.M.o".to_string(), "#[derive(::protocheck::macros::Oneof)]".to_string()),
            (
                "p.M.o".to_string(),
                "#[derive(::protocheck::macros::OneofTryIntoCelValue)]".to_string(),
            ),
        ]
    );
}

#[test]
fn directive_counts_match_the_formula() {
    // Two oneofs with three member fields in all; conversion on and off.
    let message = MessageInfo {
        full_name: "p.M".to_string(),
        package_name: "p".to_string(),
        fields: vec![],
        oneofs: vec![
            OneofInfo {
                full_name: "p.M.o1".to_string(),
                members: vec![
                    OneofMember { name: "x".to_string(), full_name: "p.M.x".to_string() },
                    OneofMember { name: "y".to_string(), full_name: "p.M.y".to_string() },
                ],
            },
            OneofInfo {
                full_name: "p.M.o2".to_string(),
                members: vec![OneofMember {
                    name: "z".to_string(),
                    full_name: "p.M.z".to_string(),
                }],
            },
        ],
    };
    let pool = PoolModel { messages: vec![message] };
    let packages = vec!["p".to_string()];

    let off = synthesize_directives(&pool, &packages, false);
    assert_eq!(off.message_attrs.len(), 1);
    assert_eq!(off.type_attrs.len(), 2 * 2);
    assert_eq!(off.field_attrs.len(), 3);

    let on = synthesize_directives(&pool, &packages, true);
    assert_eq!(on.message_attrs.len(), 2);
    assert_eq!(on.type_attrs.len(), 2 * 3);
    assert_eq!(on.field_attrs.len(), 3);
}

#[test]
fn empty_pool_still_registers_the_two_remappings() {
    let d = synthesize_directives(&PoolModel { messages: vec![] }, &vec![], false);
    assert!(d.field_attrs.is_empty());
    assert!(d.message_attrs.is_empty());
    assert!(d.type_attrs.is_empty());
    assert_eq!(d.extern_paths.len(), 2);
    assert!(d.compile_well_known_types);
}
