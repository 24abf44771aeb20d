//! The schema model: what directive synthesis reads of a compiled schema.
//!
//! A descriptor pool built by the schema compiler is a reflective structure
//! whose elements the verifier cannot look into, so the caller extracts the
//! plain values the synthesis logic reads — names, package names, oneof
//! membership, and the decoded validation option of each field — into these
//! types, one entry per schema element, in declaration order.
use vstd::prelude::*;

verus! {

/// One member of the decoded validation option attached to a field: the
/// member's fully-qualified path and, when the member carries an enumerated
/// value, its ordinal.
pub struct RuleMember {
    pub path: String,
    pub ordinal: Option<i32>,
}

/// The validation option of a field, as found at the field.
pub enum FieldValidation {
    /// No validation option is present at the field.
    Absent,
    /// The option is present but its payload does not decode to a
    /// structured value.
    Undecodable,
    /// The decoded payload's members, in declaration order.
    Rules(Vec<RuleMember>),
}

/// One field of a message: its declared (unqualified) name, its
/// fully-qualified name, and its validation option.
pub struct FieldInfo {
    pub name: String,
    pub full_name: String,
    pub validate: FieldValidation,
}

/// One member field of a oneof.
///
/// A member keeps two distinct identifiers: its declared name, from which
/// its oneof-scoped key is synthesized, and its own fully-qualified name,
/// which deliberately appears in no oneof directive key — generated code
/// addresses members through the oneof's namespace.
pub struct OneofMember {
    pub name: String,
    pub full_name: String,
}

/// One oneof of a message: its fully-qualified name and its member fields,
/// in declaration order.
pub struct OneofInfo {
    pub full_name: String,
    pub members: Vec<OneofMember>,
}

/// One message: its fully-qualified name, its package name, every field it
/// owns (oneof members included), and its oneofs, in declaration order.
pub struct MessageInfo {
    pub full_name: String,
    pub package_name: String,
    pub fields: Vec<FieldInfo>,
    pub oneofs: Vec<OneofInfo>,
}

/// Every message of a compiled descriptor pool.
pub struct PoolModel {
    pub messages: Vec<MessageInfo>,
}

} // verus!
