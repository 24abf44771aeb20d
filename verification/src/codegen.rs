//! Registration of synthesized directives with a `prost_build::Config`.
//!
//! The configuration is an outside accumulator: its contents are named by
//! uninterpreted functions, and each method the synthesis logic calls is
//! wrapped in a trusted item whose contract states, against the crate's own
//! source, what the call appends and that nothing else changes. Everything
//! above the wrappers is verified.
use vstd::prelude::*;

use crate::directives::{
    attr_pairs, messages_field_attrs, messages_message_attrs, messages_type_attrs, remap_pairs,
    remap_pairs_of, synthesize_directives, DirectiveSet,
};
use crate::model::PoolModel;

verus! {

#[verifier::external_type_specification]
#[verifier::external_body]
pub struct ExConfig(prost_build::Config);

/// The (path, attribute) pairs registered so far for fields, in order.
pub uninterp spec fn config_field_attrs(c: prost_build::Config) -> Seq<(Seq<char>, Seq<char>)>;

/// The (path, attribute) pairs registered so far for messages, in order.
pub uninterp spec fn config_message_attrs(c: prost_build::Config) -> Seq<(Seq<char>, Seq<char>)>;

/// The (path, attribute) pairs registered so far for types, in order.
pub uninterp spec fn config_type_attrs(c: prost_build::Config) -> Seq<(Seq<char>, Seq<char>)>;

/// The (schema namespace, import path) remappings registered so far, in
/// order.
pub uninterp spec fn config_extern_paths(c: prost_build::Config) -> Seq<(Seq<char>, Seq<char>)>;

/// Whether the configuration compiles well-known types in place instead of
/// taking them from their pregenerated crate.
pub uninterp spec fn config_compiles_well_known_types(c: prost_build::Config) -> bool;

/// Relies on prost_build::Config::field_attribute: it appends the given
/// (path, attribute) pair to the configuration's field attributes and
/// touches nothing else.
#[verifier::external_body]
fn config_add_field_attribute(config: &mut prost_build::Config, path: &str, attribute: &str)
    ensures
        config_field_attrs(*final(config)) == config_field_attrs(*old(config)).push(
            (path@, attribute@),
        ),
        config_message_attrs(*final(config)) == config_message_attrs(*old(config)),
        config_type_attrs(*final(config)) == config_type_attrs(*old(config)),
        config_extern_paths(*final(config)) == config_extern_paths(*old(config)),
        config_compiles_well_known_types(*final(config)) == config_compiles_well_known_types(
            *old(config),
        ),
{
    config.field_attribute(path, attribute);
}

/// Relies on prost_build::Config::message_attribute: it appends the given
/// (path, attribute) pair to the configuration's message attributes and
/// touches nothing else.
#[verifier::external_body]
fn config_add_message_attribute(config: &mut prost_build::Config, path: &str, attribute: &str)
    ensures
        config_message_attrs(*final(config)) == config_message_attrs(*old(config)).push(
            (path@, attribute@),
        ),
        config_field_attrs(*final(config)) == config_field_attrs(*old(config)),
        config_type_attrs(*final(config)) == config_type_attrs(*old(config)),
        config_extern_paths(*final(config)) == config_extern_paths(*old(config)),
        config_compiles_well_known_types(*final(config)) == config_compiles_well_known_types(
            *old(config),
        ),
{
    config.message_attribute(path, attribute);
}

/// Relies on prost_build::Config::type_attribute: it appends the given
/// (path, attribute) pair to the configuration's type attributes and
/// touches nothing else.
#[verifier::external_body]
fn config_add_type_attribute(config: &mut prost_build::Config, path: &str, attribute: &str)
    ensures
        config_type_attrs(*final(config)) == config_type_attrs(*old(config)).push(
            (path@, attribute@),
        ),
        config_field_attrs(*final(config)) == config_field_attrs(*old(config)),
        config_message_attrs(*final(config)) == config_message_attrs(*old(config)),
        config_extern_paths(*final(config)) == config_extern_paths(*old(config)),
        config_compiles_well_known_types(*final(config)) == config_compiles_well_known_types(
            *old(config),
        ),
{
    config.type_attribute(path, attribute);
}

/// Relies on prost_build::Config::extern_path: it appends the given
/// (schema namespace, import path) pair to the configuration's remappings
/// and touches nothing else.
#[verifier::external_body]
fn config_add_extern_path(config: &mut prost_build::Config, proto_path: &str, rust_path: &str)
    ensures
        config_extern_paths(*final(config)) == config_extern_paths(*old(config)).push(
            (proto_path@, rust_path@),
        ),
        config_field_attrs(*final(config)) == config_field_attrs(*old(config)),
        config_message_attrs(*final(config)) == config_message_attrs(*old(config)),
        config_type_attrs(*final(config)) == config_type_attrs(*old(config)),
        config_compiles_well_known_types(*final(config)) == config_compiles_well_known_types(
            *old(config),
        ),
{
    config.extern_path(proto_path, rust_path);
}

/// Relies on prost_build::Config::compile_well_known_types: it requests that
/// well-known types be compiled in place and touches nothing else.
#[verifier::external_body]
fn config_set_compile_well_known_types(config: &mut prost_build::Config)
    ensures
        config_compiles_well_known_types(*final(config)),
        config_field_attrs(*final(config)) == config_field_attrs(*old(config)),
        config_message_attrs(*final(config)) == config_message_attrs(*old(config)),
        config_type_attrs(*final(config)) == config_type_attrs(*old(config)),
        config_extern_paths(*final(config)) == config_extern_paths(*old(config)),
{
    config.compile_well_known_types();
}

/// Registers every directive of the set with the configuration, appending in
/// the set's order and reading nothing back.
pub fn apply_to_config(directives: &DirectiveSet, config: &mut prost_build::Config)
    ensures
        config_field_attrs(*final(config)) == config_field_attrs(*old(config)) + attr_pairs(
            directives.field_attrs@,
        ),
        config_message_attrs(*final(config)) == config_message_attrs(*old(config)) + attr_pairs(
            directives.message_attrs@,
        ),
        config_type_attrs(*final(config)) == config_type_attrs(*old(config)) + attr_pairs(
            directives.type_attrs@,
        ),
        config_extern_paths(*final(config)) == config_extern_paths(*old(config)) + remap_pairs_of(
            directives.extern_paths@,
        ),
        config_compiles_well_known_types(*final(config)) == (directives.compile_well_known_types
            || config_compiles_well_known_types(*old(config))),
{
    let mut i: usize = 0;
    while i < directives.field_attrs.len()
        invariant
            i <= directives.field_attrs.len(),
            config_field_attrs(*config) == config_field_attrs(*old(config)) + attr_pairs(
                directives.field_attrs@,
            ).take(i as int),
            config_message_attrs(*config) == config_message_attrs(*old(config)),
            config_type_attrs(*config) == config_type_attrs(*old(config)),
            config_extern_paths(*config) == config_extern_paths(*old(config)),
            config_compiles_well_known_types(*config) == config_compiles_well_known_types(
                *old(config),
            ),
        decreases directives.field_attrs.len() - i,
    {
        let attr = &directives.field_attrs[i];
        config_add_field_attribute(config, attr.path.as_str(), attr.value.as_str());
        proof {
            assert(attr_pairs(directives.field_attrs@).take(i as int + 1) =~= attr_pairs(
                directives.field_attrs@,
            ).take(i as int).push((attr.path@, attr.value@)));
            assert(config_field_attrs(*config) =~= config_field_attrs(*old(config)) + attr_pairs(
                directives.field_attrs@,
            ).take(i as int + 1));
        }
        i += 1;
    }
    let mut i: usize = 0;
    while i < directives.message_attrs.len()
        invariant
            i <= directives.message_attrs.len(),
            config_field_attrs(*config) == config_field_attrs(*old(config)) + attr_pairs(
                directives.field_attrs@,
            ).take(directives.field_attrs@.len() as int),
            config_message_attrs(*config) == config_message_attrs(*old(config)) + attr_pairs(
                directives.message_attrs@,
            ).take(i as int),
            config_type_attrs(*config) == config_type_attrs(*old(config)),
            config_extern_paths(*config) == config_extern_paths(*old(config)),
            config_compiles_well_known_types(*config) == config_compiles_well_known_types(
                *old(config),
            ),
        decreases directives.message_attrs.len() - i,
    {
        let attr = &directives.message_attrs[i];
        config_add_message_attribute(config, attr.path.as_str(), attr.value.as_str());
        proof {
            assert(attr_pairs(directives.message_attrs@).take(i as int + 1) =~= attr_pairs(
                directives.message_attrs@,
            ).take(i as int).push((attr.path@, attr.value@)));
            assert(config_message_attrs(*config) =~= config_message_attrs(*old(config))
                + attr_pairs(directives.message_attrs@).take(i as int + 1));
        }
        i += 1;
    }
    let mut i: usize = 0;
    while i < directives.type_attrs.len()
        invariant
            i <= directives.type_attrs.len(),
            config_field_attrs(*config) == config_field_attrs(*old(config)) + attr_pairs(
                directives.field_attrs@,
            ).take(directives.field_attrs@.len() as int),
            config_message_attrs(*config) == config_message_attrs(*old(config)) + attr_pairs(
                directives.message_attrs@,
            ).take(directives.message_attrs@.len() as int),
            config_type_attrs(*config) == config_type_attrs(*old(config)) + attr_pairs(
                directives.type_attrs@,
            ).take(i as int),
            config_extern_paths(*config) == config_extern_paths(*old(config)),
            config_compiles_well_known_types(*config) == config_compiles_well_known_types(
                *old(config),
            ),
        decreases directives.type_attrs.len() - i,
    {
        let attr = &directives.type_attrs[i];
        config_add_type_attribute(config, attr.path.as_str(), attr.value.as_str());
        proof {
            assert(attr_pairs(directives.type_attrs@).take(i as int + 1) =~= attr_pairs(
                directives.type_attrs@,
            ).take(i as int).push((attr.path@, attr.value@)));
            assert(config_type_attrs(*config) =~= config_type_attrs(*old(config)) + attr_pairs(
                directives.type_attrs@,
            ).take(i as int + 1));
        }
        i += 1;
    }
    let mut i: usize = 0;
    while i < directives.extern_paths.len()
        invariant
            i <= directives.extern_paths.len(),
            config_field_attrs(*config) == config_field_attrs(*old(config)) + attr_pairs(
                directives.field_attrs@,
            ).take(directives.field_attrs@.len() as int),
            config_message_attrs(*config) == config_message_attrs(*old(config)) + attr_pairs(
                directives.message_attrs@,
            ).take(directives.message_attrs@.len() as int),
            config_type_attrs(*config) == config_type_attrs(*old(config)) + attr_pairs(
                directives.type_attrs@,
            ).take(directives.type_attrs@.len() as int),
            config_extern_paths(*config) == config_extern_paths(*old(config)) + remap_pairs_of(
                directives.extern_paths@,
            ).take(i as int),
            config_compiles_well_known_types(*config) == config_compiles_well_known_types(
                *old(config),
            ),
        decreases directives.extern_paths.len() - i,
    {
        let remap = &directives.extern_paths[i];
        config_add_extern_path(config, remap.proto_path.as_str(), remap.rust_path.as_str());
        proof {
            assert(remap_pairs_of(directives.extern_paths@).take(i as int + 1) =~= remap_pairs_of(
                directives.extern_paths@,
            ).take(i as int).push((remap.proto_path@, remap.rust_path@)));
            assert(config_extern_paths(*config) =~= config_extern_paths(*old(config))
                + remap_pairs_of(directives.extern_paths@).take(i as int + 1));
        }
        i += 1;
    }
    if directives.compile_well_known_types {
        config_set_compile_well_known_types(config);
    }
    proof {
        assert(attr_pairs(directives.field_attrs@).take(directives.field_attrs@.len() as int)
            =~= attr_pairs(directives.field_attrs@));
        assert(attr_pairs(directives.message_attrs@).take(directives.message_attrs@.len() as int)
            =~= attr_pairs(directives.message_attrs@));
        assert(attr_pairs(directives.type_attrs@).take(directives.type_attrs@.len() as int)
            =~= attr_pairs(directives.type_attrs@));
        assert(remap_pairs_of(directives.extern_paths@).take(
            directives.extern_paths@.len() as int,
        ) =~= remap_pairs_of(directives.extern_paths@));
    }
}

/// Synthesizes every directive for the pool and registers it with the
/// caller's configuration: Pass A and Pass B over every message, then the
/// two namespace remappings, exactly once, and the request to compile
/// well-known types in place.
pub fn register_validator_directives(
    config: &mut prost_build::Config,
    pool: &PoolModel,
    packages: &Vec<String>,
    convert_values: bool,
)
    ensures
        config_field_attrs(*final(config)) == config_field_attrs(*old(config))
            + messages_field_attrs(pool.messages@, crate::str_views(packages@)),
        config_message_attrs(*final(config)) == config_message_attrs(*old(config))
            + messages_message_attrs(pool.messages@, crate::str_views(packages@), convert_values),
        config_type_attrs(*final(config)) == config_type_attrs(*old(config)) + messages_type_attrs(
            pool.messages@,
            crate::str_views(packages@),
            convert_values,
        ),
        config_extern_paths(*final(config)) == config_extern_paths(*old(config)) + remap_pairs(),
        config_compiles_well_known_types(*final(config)),
{
    let directives = synthesize_directives(pool, packages, convert_values);
    apply_to_config(&directives, config);
}

} // verus!
