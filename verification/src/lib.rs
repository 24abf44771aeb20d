//! Build-time preprocessor for protocol-buffer schemas.
//!
//! Given a model of a compiled schema (its messages, fields and oneofs,
//! together with the validation options attached to fields), this crate
//! decides which code-generation directives each entity needs and registers
//! them with a `prost_build` configuration, so that a downstream generator
//! can attach validation and value-conversion support to the generated types.
use vstd::prelude::*;

pub mod codegen;
pub mod directives;
pub mod discovery;
pub mod model;

pub use codegen::register_validator_directives;
pub use directives::synthesize_directives;
pub use discovery::get_proto_files_recursive;

verus! {

/// The views of a sequence of strings.
pub open spec fn str_views(s: Seq<String>) -> Seq<Seq<char>> {
    s.map_values(|x: String| x@)
}

} // verus!
