use protocheck_build::model::{
    FieldInfo, FieldValidation, MessageInfo, OneofInfo, OneofMember, PoolModel, RuleMember,
};
use protocheck_build::register_validator_directives;

// `prost_build::Config` exposes no getters, but its Debug output shows the
// registered field attributes, type attributes, extern paths, and whether
// well-known types are compiled in place; these tests read that output.

#[test]
fn register_adds_attributes_to_the_configuration() {
    let message = MessageInfo {
        full_name: "p.M".to_string(),
        package_name: "p".to_string(),
        fields: vec![FieldInfo {
            name: "a".to_string(),
            full_name: "p.M.a".to_string(),
            validate: FieldValidation::Rules(vec![RuleMember {
                path: "buf.validate.FieldRules.ignore".to_string(),
                ordinal: Some(3),
            }]),
        }],
        oneofs: vec![OneofInfo {
            full_name: "p.M.o".to_string(),
            members: vec![OneofMember { name: "x".to_string(), full_name: "p.M.x".to_string() }],
        }],
    };
    let pool = PoolModel { messages: vec![message] };
    let packages = vec!["p".to_string()];

    let mut config = prost_build::Config::new();
    register_validator_directives(&mut config, &pool, &packages, false);

    let shown = format!("{config:?}");
    assert!(shown.contains("p.M.a"));
    assert!(shown.contains("#[protocheck(ignore_field)]"));
    assert!(shown.contains("p.M.o.x"));
    assert!(shown.contains("proto_name = \\\"x\\\""));
    assert!(shown.contains("protobuf_validate_oneof"));
    assert!(shown.contains("#[derive(::protocheck::macros::Oneof)]"));
    assert!(shown.contains(".buf.validate"));
    assert!(shown.contains("::protocheck::types::protovalidate"));
    assert!(shown.contains(".google.protobuf"));
    // compile_well_known_types switches the configuration away from the
    // pregenerated well-known types.
    assert!(shown.contains("prost_types: false"));
}

#[test]
fn register_on_empty_pool_only_remaps_namespaces() {
    let mut config = prost_build::Config::new();
    let before = format!("{config:?}");
    assert!(!before.contains(".buf.validate"));
    assert!(before.contains("prost_types: true"));

    register_validator_directives(&mut config, &PoolModel { messages: vec![] }, &vec![], false);

    let shown = format!("{config:?}");
    assert!(shown.contains(".buf.validate"));
    assert!(shown.contains("::protocheck::types::protovalidate"));
    assert!(shown.contains(".google.protobuf"));
    assert!(shown.contains("::protocheck::types"));
    assert!(shown.contains("prost_types: false"));
}
