//! Directive synthesis: decides which code-generation directives every
//! message, oneof and field of a schema needs.
//!
//! Two passes run over every message. Pass A inspects each field's
//! validation option and marks fields whose ignore rule says they are always
//! exempt from validation. Pass B annotates messages of the target packages,
//! their oneofs, and the oneofs' member fields. After both passes a fixed
//! pair of namespace remappings is requested, exactly once per invocation.
use vstd::prelude::*;
use vstd::string::StringExecFns;

use crate::model::{FieldInfo, FieldValidation, MessageInfo, OneofInfo, OneofMember, PoolModel, RuleMember};

verus! {

/// The enumerated ordinal of the ignore rule that exempts a field from
/// validation entirely.
pub const ALWAYS_IGNORE_ORDINAL: i32 = 3;

/// The fully-qualified path of the ignore rule inside the decoded
/// validation option.
pub open spec fn ignore_rule_path() -> Seq<char> {
    "buf.validate.FieldRules.ignore"@
}

/// The ordinal of the first member at or after `i` whose path is the ignore
/// rule's, if that member carries one.
pub open spec fn find_ignore_ordinal_from(members: Seq<RuleMember>, i: int) -> Option<i32>
    decreases members.len() - i,
{
    if i < 0 || i >= members.len() {
        None
    } else if members[i].path@ == ignore_rule_path() {
        members[i].ordinal
    } else {
        find_ignore_ordinal_from(members, i + 1)
    }
}

/// The ordinal found at the first member whose path is the ignore rule's.
pub open spec fn find_ignore_ordinal(members: Seq<RuleMember>) -> Option<i32> {
    find_ignore_ordinal_from(members, 0)
}

/// Whether Pass A exempts the field from validation: its validation option
/// is present, decodes, and its ignore rule carries the always-ignore
/// ordinal.
pub open spec fn field_is_ignored(f: FieldInfo) -> bool {
    match f.validate {
        FieldValidation::Rules(members) => find_ignore_ordinal(members@) == Some(
            ALWAYS_IGNORE_ORDINAL,
        ),
        _ => false,
    }
}

/// Decides whether Pass A exempts `field` from validation.
pub fn is_field_ignored(field: &FieldInfo) -> (b: bool)
    ensures
        b == field_is_ignored(*field),
{
    match &field.validate {
        FieldValidation::Absent => false,
        FieldValidation::Undecodable => false,
        FieldValidation::Rules(members) => {
            let key: String = "buf.validate.FieldRules.ignore".to_owned();
            let mut i: usize = 0;
            while i < members.len()
                invariant
                    i <= members.len(),
                    key@ == ignore_rule_path(),
                    field.validate == FieldValidation::Rules(*members),
                    find_ignore_ordinal(members@) == find_ignore_ordinal_from(
                        members@,
                        i as int,
                    ),
                decreases members.len() - i,
            {
                let m = &members[i];
                if m.path.eq(&key) {
                    return match m.ordinal {
                        Some(v) => v == ALWAYS_IGNORE_ORDINAL,
                        None => false,
                    };
                }
                i += 1;
            }
            false
        },
    }
}

/// One directive: a free-form attribute registered against the entity whose
/// fully-qualified path is `path`.
pub struct Attr {
    pub path: String,
    pub value: String,
}

/// One namespace remapping: schema entities under `proto_path` are imported
/// from the externally provided `rust_path` instead of being regenerated.
pub struct PathRemap {
    pub proto_path: String,
    pub rust_path: String,
}

/// Every directive one synthesis invocation registers, by kind.
pub struct DirectiveSet {
    pub field_attrs: Vec<Attr>,
    pub message_attrs: Vec<Attr>,
    pub type_attrs: Vec<Attr>,
    pub extern_paths: Vec<PathRemap>,
    pub compile_well_known_types: bool,
}

/// The (path, attribute) pairs of a sequence of directives.
pub open spec fn attr_pairs(s: Seq<Attr>) -> Seq<(Seq<char>, Seq<char>)> {
    s.map_values(|a: Attr| (a.path@, a.value@))
}

/// The (schema namespace, import path) pairs of a sequence of remappings.
pub open spec fn remap_pairs_of(s: Seq<PathRemap>) -> Seq<(Seq<char>, Seq<char>)> {
    s.map_values(|p: PathRemap| (p.proto_path@, p.rust_path@))
}

/// The directive that exempts a field from generated validation.
pub open spec fn ignore_attr_text() -> Seq<char> {
    "#[protocheck(ignore_field)]"@
}

/// The directive that attaches validation to a message, parameterized by
/// the message's fully-qualified name.
pub open spec fn validate_attr_text(name: Seq<char>) -> Seq<char> {
    "#[::protocheck::macros::protobuf_validate(\""@ + name + "\")]"@
}

/// The directive that derives value conversion for a message.
pub open spec fn conversion_derive_text() -> Seq<char> {
    "#[derive(::protocheck::macros::TryIntoCelValue)]"@
}

/// The directive that attaches validation to a oneof, parameterized by the
/// oneof's fully-qualified name.
pub open spec fn validate_oneof_attr_text(name: Seq<char>) -> Seq<char> {
    "#[::protocheck::macros::protobuf_validate_oneof(\""@ + name + "\")]"@
}

/// The directive that derives the oneof wrapper.
pub open spec fn oneof_derive_text() -> Seq<char> {
    "#[derive(::protocheck::macros::Oneof)]"@
}

/// The directive that derives value conversion for a oneof.
pub open spec fn oneof_conversion_derive_text() -> Seq<char> {
    "#[derive(::protocheck::macros::OneofTryIntoCelValue)]"@
}

/// The directive that records a oneof member's declared schema name.
pub open spec fn proto_name_attr_text(name: Seq<char>) -> Seq<char> {
    "#[protocheck(proto_name = \""@ + name + "\")]"@
}

/// The key a oneof member's directive is registered under: the member is
/// addressed through the owning oneof's namespace, not by the member's own
/// fully-qualified name.
pub open spec fn member_key(oneof_full_name: Seq<char>, member_name: Seq<char>) -> Seq<char> {
    oneof_full_name + "."@ + member_name
}

/// The field directives Pass A registers for one field: exactly one ignore
/// directive keyed by the field's fully-qualified name when the field's
/// ignore rule says always-ignore, and none otherwise.
pub open spec fn field_ignore_attrs(f: FieldInfo) -> Seq<(Seq<char>, Seq<char>)> {
    if field_is_ignored(f) {
        seq![(f.full_name@, ignore_attr_text())]
    } else {
        Seq::empty()
    }
}

/// The field directives Pass A registers for a message's fields, in order.
pub open spec fn fields_ignore_attrs(fields: Seq<FieldInfo>) -> Seq<(Seq<char>, Seq<char>)>
    decreases fields,
{
    if fields.len() == 0 {
        Seq::empty()
    } else {
        fields_ignore_attrs(fields.drop_last()) + field_ignore_attrs(fields.last())
    }
}

/// The directive Pass B registers for one oneof member.
pub open spec fn member_field_attr(oneof_full_name: Seq<char>, m: OneofMember) -> (
    Seq<char>,
    Seq<char>,
) {
    (member_key(oneof_full_name, m.name@), proto_name_attr_text(m.name@))
}

/// The member directives of one oneof, in member order.
pub open spec fn member_attrs_list(oneof_full_name: Seq<char>, members: Seq<OneofMember>) -> Seq<
    (Seq<char>, Seq<char>),
> {
    members.map_values(|m: OneofMember| member_field_attr(oneof_full_name, m))
}

/// The member directives of a message's oneofs, in order.
pub open spec fn oneofs_member_attrs(oneofs: Seq<OneofInfo>) -> Seq<(Seq<char>, Seq<char>)>
    decreases oneofs,
{
    if oneofs.len() == 0 {
        Seq::empty()
    } else {
        oneofs_member_attrs(oneofs.drop_last()) + member_attrs_list(
            oneofs.last().full_name@,
            oneofs.last().members@,
        )
    }
}

/// Whether a message's package is one of the target packages (exact match).
pub open spec fn in_target_packages(package: Seq<char>, packages: Seq<Seq<char>>) -> bool {
    packages.contains(package)
}

/// The field directives registered while one message is visited: Pass A's
/// ignore directives for every field and, for messages of a target package,
/// Pass B's directives for the members of every oneof.
pub open spec fn message_field_attrs(m: MessageInfo, in_target: bool) -> Seq<
    (Seq<char>, Seq<char>),
> {
    fields_ignore_attrs(m.fields@) + if in_target {
        oneofs_member_attrs(m.oneofs@)
    } else {
        Seq::empty()
    }
}

/// The message directives Pass B registers for one message: validation
/// always, value conversion when that feature is on, and nothing at all for
/// a message outside the target packages.
pub open spec fn message_message_attrs(
    m: MessageInfo,
    in_target: bool,
    convert_values: bool,
) -> Seq<(Seq<char>, Seq<char>)> {
    if !in_target {
        Seq::empty()
    } else {
        seq![(m.full_name@, validate_attr_text(m.full_name@))] + if convert_values {
            seq![(m.full_name@, conversion_derive_text())]
        } else {
            Seq::empty()
        }
    }
}

/// The type directives Pass B registers for one oneof: validation, the
/// wrapper derivation, and value conversion when that feature is on.
pub open spec fn oneof_type_attrs(o: OneofInfo, convert_values: bool) -> Seq<
    (Seq<char>, Seq<char>),
> {
    seq![
        (o.full_name@, validate_oneof_attr_text(o.full_name@)),
        (o.full_name@, oneof_derive_text()),
    ] + if convert_values {
        seq![(o.full_name@, oneof_conversion_derive_text())]
    } else {
        Seq::empty()
    }
}

/// The type directives of a message's oneofs, in order.
pub open spec fn oneofs_type_attrs(oneofs: Seq<OneofInfo>, convert_values: bool) -> Seq<
    (Seq<char>, Seq<char>),
>
    decreases oneofs,
{
    if oneofs.len() == 0 {
        Seq::empty()
    } else {
        oneofs_type_attrs(oneofs.drop_last(), convert_values) + oneof_type_attrs(
            oneofs.last(),
            convert_values,
        )
    }
}

/// The type directives registered while one message is visited.
pub open spec fn message_type_attrs(m: MessageInfo, in_target: bool, convert_values: bool) -> Seq<
    (Seq<char>, Seq<char>),
> {
    if in_target {
        oneofs_type_attrs(m.oneofs@, convert_values)
    } else {
        Seq::empty()
    }
}

/// All field directives of one invocation, message by message.
pub open spec fn messages_field_attrs(
    messages: Seq<MessageInfo>,
    packages: Seq<Seq<char>>,
) -> Seq<(Seq<char>, Seq<char>)>
    decreases messages,
{
    if messages.len() == 0 {
        Seq::empty()
    } else {
        messages_field_attrs(messages.drop_last(), packages) + message_field_attrs(
            messages.last(),
            in_target_packages(messages.last().package_name@, packages),
        )
    }
}

/// All message directives of one invocation, message by message.
pub open spec fn messages_message_attrs(
    messages: Seq<MessageInfo>,
    packages: Seq<Seq<char>>,
    convert_values: bool,
) -> Seq<(Seq<char>, Seq<char>)>
    decreases messages,
{
    if messages.len() == 0 {
        Seq::empty()
    } else {
        messages_message_attrs(messages.drop_last(), packages, convert_values)
            + message_message_attrs(
            messages.last(),
            in_target_packages(messages.last().package_name@, packages),
            convert_values,
        )
    }
}

/// All type directives of one invocation, message by message.
pub open spec fn messages_type_attrs(
    messages: Seq<MessageInfo>,
    packages: Seq<Seq<char>>,
    convert_values: bool,
) -> Seq<(Seq<char>, Seq<char>)>
    decreases messages,
{
    if messages.len() == 0 {
        Seq::empty()
    } else {
        messages_type_attrs(messages.drop_last(), packages, convert_values) + message_type_attrs(
            messages.last(),
            in_target_packages(messages.last().package_name@, packages),
            convert_values,
        )
    }
}

/// The two namespace remappings every invocation registers, exactly once,
/// after the per-message passes: the validation-rule namespace and the
/// well-known-types namespace are imported from a fixed external location.
pub open spec fn remap_pairs() -> Seq<(Seq<char>, Seq<char>)> {
    seq![
        (".buf.validate"@, "::protocheck::types::protovalidate"@),
        (".google.protobuf"@, "::protocheck::types"@),
    ]
}

fn validate_attr_string(name: &String) -> (r: String)
    ensures
        r@ == validate_attr_text(name@),
{
    let s = "#[::protocheck::macros::protobuf_validate(\"".to_owned();
    let s = s.concat(name.as_str());
    s.concat("\")]")
}

fn validate_oneof_attr_string(name: &String) -> (r: String)
    ensures
        r@ == validate_oneof_attr_text(name@),
{
    let s = "#[::protocheck::macros::protobuf_validate_oneof(\"".to_owned();
    let s = s.concat(name.as_str());
    s.concat("\")]")
}

fn proto_name_attr_string(name: &String) -> (r: String)
    ensures
        r@ == proto_name_attr_text(name@),
{
    let s = "#[protocheck(proto_name = \"".to_owned();
    let s = s.concat(name.as_str());
    s.concat("\")]")
}

fn member_key_string(oneof_full_name: &String, member_name: &String) -> (r: String)
    ensures
        r@ == member_key(oneof_full_name@, member_name@),
{
    let s = oneof_full_name.clone();
    let s = s.concat(".");
    s.concat(member_name.as_str())
}

/// Decides whether `package_name` is one of the target packages.
fn package_in_targets(packages: &Vec<String>, package_name: &String) -> (b: bool)
    ensures
        b == in_target_packages(package_name@, crate::str_views(packages@)),
{
    let mut i: usize = 0;
    while i < packages.len()
        invariant
            i <= packages.len(),
            forall|j: int| 0 <= j < i ==> (#[trigger] packages@[j])@ != package_name@,
        decreases packages.len() - i,
    {
        if packages[i].eq(package_name) {
            proof {
                assert(crate::str_views(packages@)[i as int] == package_name@);
            }
            return true;
        }
        i += 1;
    }
    proof {
        assert forall|j: int| 0 <= j < crate::str_views(packages@).len() implies crate::str_views(
            packages@,
        )[j] != package_name@ by {
            assert(crate::str_views(packages@)[j] == packages@[j]@);
        }
    }
    false
}

proof fn lemma_attr_pairs_push(s: Seq<Attr>, a: Attr)
    ensures
        attr_pairs(s.push(a)) == attr_pairs(s).push((a.path@, a.value@)),
{
    assert(attr_pairs(s.push(a)) =~= attr_pairs(s).push((a.path@, a.value@)));
}

proof fn lemma_fields_ignore_attrs_step(fields: Seq<FieldInfo>, i: int)
    requires
        0 <= i < fields.len(),
    ensures
        fields_ignore_attrs(fields.take(i + 1)) == fields_ignore_attrs(fields.take(i))
            + field_ignore_attrs(fields[i]),
{
    assert(fields.take(i + 1).drop_last() =~= fields.take(i));
    assert(fields.take(i + 1).last() == fields[i]);
}

proof fn lemma_oneofs_member_attrs_step(oneofs: Seq<OneofInfo>, i: int)
    requires
        0 <= i < oneofs.len(),
    ensures
        oneofs_member_attrs(oneofs.take(i + 1)) == oneofs_member_attrs(oneofs.take(i))
            + member_attrs_list(oneofs[i].full_name@, oneofs[i].members@),
{
    assert(oneofs.take(i + 1).drop_last() =~= oneofs.take(i));
    assert(oneofs.take(i + 1).last() == oneofs[i]);
}

proof fn lemma_oneofs_type_attrs_step(oneofs: Seq<OneofInfo>, convert_values: bool, i: int)
    requires
        0 <= i < oneofs.len(),
    ensures
        oneofs_type_attrs(oneofs.take(i + 1), convert_values) == oneofs_type_attrs(
            oneofs.take(i),
            convert_values,
        ) + oneof_type_attrs(oneofs[i], convert_values),
{
    assert(oneofs.take(i + 1).drop_last() =~= oneofs.take(i));
    assert(oneofs.take(i + 1).last() == oneofs[i]);
}

proof fn lemma_messages_field_attrs_step(messages: Seq<MessageInfo>, packages: Seq<Seq<char>>, i: int)
    requires
        0 <= i < messages.len(),
    ensures
        messages_field_attrs(messages.take(i + 1), packages) == messages_field_attrs(
            messages.take(i),
            packages,
        ) + message_field_attrs(
            messages[i],
            in_target_packages(messages[i].package_name@, packages),
        ),
{
    assert(messages.take(i + 1).drop_last() =~= messages.take(i));
    assert(messages.take(i + 1).last() == messages[i]);
}

proof fn lemma_messages_message_attrs_step(
    messages: Seq<MessageInfo>,
    packages: Seq<Seq<char>>,
    convert_values: bool,
    i: int,
)
    requires
        0 <= i < messages.len(),
    ensures
        messages_message_attrs(messages.take(i + 1), packages, convert_values)
            == messages_message_attrs(messages.take(i), packages, convert_values)
            + message_message_attrs(
            messages[i],
            in_target_packages(messages[i].package_name@, packages),
            convert_values,
        ),
{
    assert(messages.take(i + 1).drop_last() =~= messages.take(i));
    assert(messages.take(i + 1).last() == messages[i]);
}

proof fn lemma_messages_type_attrs_step(
    messages: Seq<MessageInfo>,
    packages: Seq<Seq<char>>,
    convert_values: bool,
    i: int,
)
    requires
        0 <= i < messages.len(),
    ensures
        messages_type_attrs(messages.take(i + 1), packages, convert_values) == messages_type_attrs(
            messages.take(i),
            packages,
            convert_values,
        ) + message_type_attrs(
            messages[i],
            in_target_packages(messages[i].package_name@, packages),
            convert_values,
        ),
{
    assert(messages.take(i + 1).drop_last() =~= messages.take(i));
    assert(messages.take(i + 1).last() == messages[i]);
}

/// Walks every message of the pool and returns every directive the two
/// passes register — Pass A's ignore directives for every message, Pass B's
/// annotations for messages of the target packages only — followed by the
/// two fixed namespace remappings and the request to compile well-known
/// types in place.
pub fn synthesize_directives(pool: &PoolModel, packages: &Vec<String>, convert_values: bool) -> (d:
    DirectiveSet)
    ensures
        attr_pairs(d.field_attrs@) == messages_field_attrs(
            pool.messages@,
            crate::str_views(packages@),
        ),
        attr_pairs(d.message_attrs@) == messages_message_attrs(
            pool.messages@,
            crate::str_views(packages@),
            convert_values,
        ),
        attr_pairs(d.type_attrs@) == messages_type_attrs(
            pool.messages@,
            crate::str_views(packages@),
            convert_values,
        ),
        remap_pairs_of(d.extern_paths@) == remap_pairs(),
        d.compile_well_known_types,
{
    let ghost pkgs = crate::str_views(packages@);
    let ghost msgs = pool.messages@;
    let mut field_attrs: Vec<Attr> = Vec::new();
    let mut message_attrs: Vec<Attr> = Vec::new();
    let mut type_attrs: Vec<Attr> = Vec::new();

    let mut mi: usize = 0;
    while mi < pool.messages.len()
        invariant
            mi <= pool.messages.len(),
            msgs == pool.messages@,
            pkgs == crate::str_views(packages@),
            attr_pairs(field_attrs@) == messages_field_attrs(msgs.take(mi as int), pkgs),
            attr_pairs(message_attrs@) == messages_message_attrs(
                msgs.take(mi as int),
                pkgs,
                convert_values,
            ),
            attr_pairs(type_attrs@) == messages_type_attrs(
                msgs.take(mi as int),
                pkgs,
                convert_values,
            ),
        decreases pool.messages.len() - mi,
    {
        let message = &pool.messages[mi];
        let in_target = package_in_targets(packages, &message.package_name);
        let ghost fa0 = attr_pairs(field_attrs@);
        let ghost ma0 = attr_pairs(message_attrs@);
        let ghost ta0 = attr_pairs(type_attrs@);

        // Pass A: an ignore directive for every always-ignored field.
        proof {
            assert(attr_pairs(field_attrs@) =~= fa0 + fields_ignore_attrs(
                message.fields@.take(0),
            ));
        }
        let mut fi: usize = 0;
        while fi < message.fields.len()
            invariant
                fi <= message.fields.len(),
                mi < msgs.len(),
                *message == msgs[mi as int],
                attr_pairs(field_attrs@) == fa0 + fields_ignore_attrs(
                    message.fields@.take(fi as int),
                ),
                attr_pairs(message_attrs@) == ma0,
                attr_pairs(type_attrs@) == ta0,
            decreases message.fields.len() - fi,
        {
            let field = &message.fields[fi];
            if is_field_ignored(field) {
                let attr = Attr {
                    path: field.full_name.clone(),
                    value: "#[protocheck(ignore_field)]".to_owned(),
                };
                proof {
                    lemma_attr_pairs_push(field_attrs@, attr);
                }
                field_attrs.push(attr);
            }
            proof {
                lemma_fields_ignore_attrs_step(message.fields@, fi as int);
                assert(attr_pairs(field_attrs@) =~= fa0 + fields_ignore_attrs(
                    message.fields@.take(fi as int + 1),
                ));
            }
            fi += 1;
        }
        proof {
            assert(message.fields@.take(message.fields@.len() as int) =~= message.fields@);
        }
        // Pass B: annotations for messages of the target packages.
        if in_target {
            let attr = Attr {
                path: message.full_name.clone(),
                value: validate_attr_string(&message.full_name),
            };
            proof {
                lemma_attr_pairs_push(message_attrs@, attr);
            }
            message_attrs.push(attr);
            if convert_values {
                let attr = Attr {
                    path: message.full_name.clone(),
                    value: "#[derive(::protocheck::macros::TryIntoCelValue)]".to_owned(),
                };
                proof {
                    lemma_attr_pairs_push(message_attrs@, attr);
                }
                message_attrs.push(attr);
            }
            proof {
                assert(attr_pairs(message_attrs@) =~= ma0 + message_message_attrs(
                    msgs[mi as int],
                    true,
                    convert_values,
                ));
                assert(attr_pairs(field_attrs@) =~= fa0 + fields_ignore_attrs(message.fields@)
                    + oneofs_member_attrs(message.oneofs@.take(0)));
                assert(attr_pairs(type_attrs@) =~= ta0 + oneofs_type_attrs(
                    message.oneofs@.take(0),
                    convert_values,
                ));
            }
            let mut oi: usize = 0;
            while oi < message.oneofs.len()
                invariant
                    oi <= message.oneofs.len(),
                    mi < msgs.len(),
                    *message == msgs[mi as int],
                    attr_pairs(field_attrs@) == fa0 + fields_ignore_attrs(message.fields@)
                        + oneofs_member_attrs(message.oneofs@.take(oi as int)),
                    attr_pairs(type_attrs@) == ta0 + oneofs_type_attrs(
                        message.oneofs@.take(oi as int),
                        convert_values,
                    ),
                    attr_pairs(message_attrs@) == ma0 + message_message_attrs(
                        msgs[mi as int],
                        true,
                        convert_values,
                    ),
                decreases message.oneofs.len() - oi,
            {
                let oneof = &message.oneofs[oi];
                let ghost fa1 = attr_pairs(field_attrs@);
                let ghost ta1 = attr_pairs(type_attrs@);
                let attr = Attr {
                    path: oneof.full_name.clone(),
                    value: validate_oneof_attr_string(&oneof.full_name),
                };
                proof {
                    lemma_attr_pairs_push(type_attrs@, attr);
                }
                type_attrs.push(attr);
                let attr = Attr {
                    path: oneof.full_name.clone(),
                    value: "#[derive(::protocheck::macros::Oneof)]".to_owned(),
                };
                proof {
                    lemma_attr_pairs_push(type_attrs@, attr);
                }
                type_attrs.push(attr);
                if convert_values {
                    let attr = Attr {
                        path: oneof.full_name.clone(),
                        value: "#[derive(::protocheck::macros::OneofTryIntoCelValue)]".to_owned(),
                    };
                    proof {
                        lemma_attr_pairs_push(type_attrs@, attr);
                    }
                    type_attrs.push(attr);
                }
                proof {
                    assert(attr_pairs(type_attrs@) =~= ta1 + oneof_type_attrs(
                        *oneof,
                        convert_values,
                    ));
                    lemma_oneofs_type_attrs_step(message.oneofs@, convert_values, oi as int);
                    assert(attr_pairs(type_attrs@) =~= ta0 + oneofs_type_attrs(
                        message.oneofs@.take(oi as int + 1),
                        convert_values,
                    ));
                    assert(attr_pairs(field_attrs@) =~= fa1 + member_attrs_list(
                        oneof.full_name@,
                        oneof.members@.take(0),
                    ));
                }
                let mut li: usize = 0;
                while li < oneof.members.len()
                    invariant
                        li <= oneof.members.len(),
                        mi < msgs.len(),
                        *message == msgs[mi as int],
                        oi < message.oneofs@.len(),
                        *oneof == message.oneofs@[oi as int],
                        attr_pairs(field_attrs@) == fa1 + member_attrs_list(
                            oneof.full_name@,
                            oneof.members@.take(li as int),
                        ),
                        attr_pairs(type_attrs@) == ta0 + oneofs_type_attrs(
                            message.oneofs@.take(oi as int + 1),
                            convert_values,
                        ),
                        attr_pairs(message_attrs@) == ma0 + message_message_attrs(
                            msgs[mi as int],
                            true,
                            convert_values,
                        ),
                    decreases oneof.members.len() - li,
                {
                    let member = &oneof.members[li];
                    let attr = Attr {
                        path: member_key_string(&oneof.full_name, &member.name),
                        value: proto_name_attr_string(&member.name),
                    };
                    proof {
                        lemma_attr_pairs_push(field_attrs@, attr);
                    }
                    field_attrs.push(attr);
                    proof {
                        assert(member_attrs_list(
                            oneof.full_name@,
                            oneof.members@.take(li as int + 1),
                        ) =~= member_attrs_list(
                            oneof.full_name@,
                            oneof.members@.take(li as int),
                        ).push(member_field_attr(oneof.full_name@, oneof.members@[li as int])));
                        assert(attr_pairs(field_attrs@) =~= fa1 + member_attrs_list(
                            oneof.full_name@,
                            oneof.members@.take(li as int + 1),
                        ));
                    }
                    li += 1;
                }
                proof {
                    assert(oneof.members@.take(oneof.members@.len() as int) =~= oneof.members@);
                    lemma_oneofs_member_attrs_step(message.oneofs@, oi as int);
                    assert(attr_pairs(field_attrs@) =~= fa0 + fields_ignore_attrs(message.fields@)
                        + oneofs_member_attrs(message.oneofs@.take(oi as int + 1)));
                }
                oi += 1;
            }
            proof {
                assert(message.oneofs@.take(message.oneofs@.len() as int) =~= message.oneofs@);
            }
        }
        proof {
            lemma_messages_field_attrs_step(msgs, pkgs, mi as int);
            lemma_messages_message_attrs_step(msgs, pkgs, convert_values, mi as int);
            lemma_messages_type_attrs_step(msgs, pkgs, convert_values, mi as int);
            assert(attr_pairs(field_attrs@) =~= messages_field_attrs(
                msgs.take(mi as int + 1),
                pkgs,
            ));
            assert(attr_pairs(message_attrs@) =~= messages_message_attrs(
                msgs.take(mi as int + 1),
                pkgs,
                convert_values,
            ));
            assert(attr_pairs(type_attrs@) =~= messages_type_attrs(
                msgs.take(mi as int + 1),
                pkgs,
                convert_values,
            ));
        }
        mi += 1;
    }
    proof {
        assert(msgs.take(msgs.len() as int) =~= msgs);
    }
    // The remappings follow the per-message passes, exactly once.
    let mut extern_paths: Vec<PathRemap> = Vec::new();
    extern_paths.push(
        PathRemap {
            proto_path: ".buf.validate".to_owned(),
            rust_path: "::protocheck::types::protovalidate".to_owned(),
        },
    );
    extern_paths.push(
        PathRemap {
            proto_path: ".google.protobuf".to_owned(),
            rust_path: "::protocheck::types".to_owned(),
        },
    );
    proof {
        assert(remap_pairs_of(extern_paths@) =~= remap_pairs());
    }
    DirectiveSet {
        field_attrs,
        message_attrs,
        type_attrs,
        extern_paths,
        compile_well_known_types: true,
    }
}

/// A field with no validation option present gets no ignore directive from
/// Pass A.
pub proof fn lemma_no_option_no_ignore(f: FieldInfo)
    requires
        f.validate is Absent,
    ensures
        field_ignore_attrs(f) == Seq::<(Seq<char>, Seq<char>)>::empty(),
{
}

/// A field whose decoded ignore rule carries the always-ignore ordinal gets
/// exactly one ignore directive from Pass A, keyed by the field's
/// fully-qualified name.
pub proof fn lemma_ignore_rule_always(f: FieldInfo)
    requires
        f.validate matches FieldValidation::Rules(members) && find_ignore_ordinal(members@)
            == Some(ALWAYS_IGNORE_ORDINAL),
    ensures
        field_ignore_attrs(f) == seq![(f.full_name@, ignore_attr_text())],
{
}

/// A field whose validation option does not resolve to the always-ignore
/// ordinal — whatever other ordinal, or no ordinal, its ignore rule carries
/// — gets no ignore directive from Pass A.
pub proof fn lemma_ignore_rule_not_always(f: FieldInfo)
    requires
        f.validate matches FieldValidation::Rules(members) ==> find_ignore_ordinal(members@)
            != Some(ALWAYS_IGNORE_ORDINAL),
    ensures
        field_ignore_attrs(f) == Seq::<(Seq<char>, Seq<char>)>::empty(),
{
}

/// How many member fields a message's oneofs have in all.
pub open spec fn total_member_count(oneofs: Seq<OneofInfo>) -> nat
    decreases oneofs,
{
    if oneofs.len() == 0 {
        0
    } else {
        total_member_count(oneofs.drop_last()) + oneofs.last().members@.len()
    }
}

proof fn lemma_oneofs_type_attrs_len(oneofs: Seq<OneofInfo>, convert_values: bool)
    ensures
        oneofs_type_attrs(oneofs, convert_values).len() == oneofs.len() * (
        2 + (if convert_values {
            1int
        } else {
            0int
        })),
    decreases oneofs.len(),
{
    let k: int = 2 + (if convert_values {
        1int
    } else {
        0int
    });
    if oneofs.len() > 0 {
        lemma_oneofs_type_attrs_len(oneofs.drop_last(), convert_values);
        assert(oneof_type_attrs(oneofs.last(), convert_values).len() == k);
        assert((oneofs.len() - 1) * k + k == oneofs.len() * k) by (nonlinear_arith);
    }
}

proof fn lemma_oneofs_member_attrs_len(oneofs: Seq<OneofInfo>)
    ensures
        oneofs_member_attrs(oneofs).len() == total_member_count(oneofs),
    decreases oneofs.len(),
{
    if oneofs.len() > 0 {
        lemma_oneofs_member_attrs_len(oneofs.drop_last());
    }
}

/// Pass B's directive count for a message in a target package with M oneofs
/// and F member fields across them: one message validation directive, plus
/// one conversion directive when that feature is on; for each of the M
/// oneofs a validation directive, a wrapper derivation, and a conversion
/// directive when the feature is on; and one directive per member field, F
/// in all.
pub proof fn lemma_target_message_directive_counts(m: MessageInfo, convert_values: bool)
    ensures
        message_message_attrs(m, true, convert_values).len() == 1 + (if convert_values {
            1int
        } else {
            0int
        }),
        message_type_attrs(m, true, convert_values).len() == m.oneofs@.len() * (
        2 + (if convert_values {
            1int
        } else {
            0int
        })),
        message_field_attrs(m, true).len() == fields_ignore_attrs(m.fields@).len()
            + total_member_count(m.oneofs@),
{
    lemma_oneofs_type_attrs_len(m.oneofs@, convert_values);
    lemma_oneofs_member_attrs_len(m.oneofs@);
}

/// A message outside every target package gets no Pass B directive at all,
/// while Pass A's ignore directives for its fields are unaffected.
pub proof fn lemma_non_target_message(m: MessageInfo, convert_values: bool)
    ensures
        message_message_attrs(m, false, convert_values) == Seq::<(Seq<char>, Seq<char>)>::empty(),
        message_type_attrs(m, false, convert_values) == Seq::<(Seq<char>, Seq<char>)>::empty(),
        message_field_attrs(m, false) == fields_ignore_attrs(m.fields@),
{
    assert(message_field_attrs(m, false) =~= fields_ignore_attrs(m.fields@));
}

/// The namespace remappings of an invocation form a fixed pair — they name
/// no message, so every invocation registers the same two, however many
/// messages the pool holds, none included.
pub proof fn lemma_remappings_fixed()
    ensures
        remap_pairs().len() == 2,
{
}

} // verus!
