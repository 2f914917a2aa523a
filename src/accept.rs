use vstd::prelude::*;
use crate::hint::has_hint;
use crate::schema::{has_key, index_of, is_nullable, keys_unique, Form, RootSchema, Schema, Type};
use crate::text::{lower_of, short_text, MAX_SEQ_LENGTH};
use crate::timestamp::{is_drawn_timestamp_text, is_timestamp_text};
use crate::value::Value;

verus! {

/// Whether a value of the `type` form `t` accepts `v`. Integer kinds take an
/// `Int` within the kind's range; the float kinds take any number.
pub open spec fn type_accepts(t: Type, v: Value) -> bool {
    match t {
        Type::Boolean => v is Bool,
        Type::Int8 => v matches Value::Int(i) && i8::MIN <= i <= i8::MAX,
        Type::Uint8 => v matches Value::Int(i) && 0 <= i <= u8::MAX,
        Type::Int16 => v matches Value::Int(i) && i16::MIN <= i <= i16::MAX,
        Type::Uint16 => v matches Value::Int(i) && 0 <= i <= u16::MAX,
        Type::Int32 => v matches Value::Int(i) && i32::MIN <= i <= i32::MAX,
        Type::Uint32 => v matches Value::Int(i) && 0 <= i <= u32::MAX,
        Type::Float32 | Type::Float64 => v is Int || v is Dyadic,
        Type::String => v is Str,
        Type::Timestamp => v matches Value::Str(t) && is_timestamp_text(t@),
    }
}

/// Whether the value `v` satisfies the node `s` of `root`, following `ref`s
/// through `root`'s definitions, with at most `fuel` nested nodes. `tag` is
/// the member that an enclosing discriminator owns, which the `properties`
/// node then does not treat as an extra member.
///
/// An object must have distinct member names; a `properties` object must hold
/// every required member, each member that the node names must satisfy its
/// schema, and other members occur only where the node allows additional
/// ones. A discriminator object holds its tag member, a string naming an entry
/// of the mapping, and the whole object satisfies that entry's node.
pub open spec fn conforms(
    root: RootSchema,
    s: Schema,
    v: Value,
    tag: Option<Seq<char>>,
    fuel: nat,
) -> bool
    decreases fuel, 1int,
{
    if fuel == 0 {
        false
    } else if v is Null && is_nullable(s.form) {
        true
    } else {
        match s.form {
            Form::Empty => true,
            Form::Ref { name, .. } => {
                &&& has_key(root.definitions@, name@)
                &&& conforms(root, root.definition(name@), v, None, (fuel - 1) as nat)
            },
            Form::Type { type_, .. } => type_accepts(type_, v),
            Form::Enum { values, .. } => {
                &&& v matches Value::Str(t)
                &&& exists|i: int| 0 <= i < values.len() && (#[trigger] values@[i])@ == t@
            },
            Form::Elements { elements, .. } => {
                &&& v matches Value::Array(items)
                &&& forall|i: int|
                    0 <= i < items.len() ==> conforms(
                        root,
                        *elements,
                        #[trigger] items@[i],
                        None,
                        (fuel - 1) as nat,
                    )
            },
            Form::Properties { required, optional, additional, .. } => {
                &&& v matches Value::Object(m)
                &&& keys_unique(m@)
                &&& forall|i: int|
                    0 <= i < required.len() ==> has_key(m@, (#[trigger] required@[i]).0@)
                &&& forall|j: int|
                    0 <= j < m.len() ==> member_conforms(
                        root,
                        required@,
                        optional@,
                        additional,
                        tag,
                        #[trigger] m@[j],
                        fuel,
                    )
            },
            Form::Values { values, .. } => {
                &&& v matches Value::Object(m)
                &&& keys_unique(m@)
                &&& forall|j: int|
                    0 <= j < m.len() ==> conforms(
                        root,
                        *values,
                        (#[trigger] m@[j]).1,
                        None,
                        (fuel - 1) as nat,
                    )
            },
            Form::Discriminator { tag: t, mapping, .. } => {
                &&& v matches Value::Object(m)
                &&& exists|j: int|
                    0 <= j < m.len() && (#[trigger] m@[j]).0@ == t@ && (m@[j].1 matches Value::Str(
                        x,
                    ) && has_key(mapping@, x@) && conforms(
                        root,
                        mapping@[index_of(mapping@, x@)].1,
                        v,
                        Some(t@),
                        (fuel - 1) as nat,
                    ))
            },
        }
    }
}

/// `v` satisfies the schema `root`.
pub open spec fn accepts(root: RootSchema, v: Value) -> bool {
    exists|fuel: nat| conforms(root, root.schema, v, None, fuel)
}

/// Whether one member `e` of an object fits a `properties` node with these
/// members, inside an object checked with `fuel`.
pub open spec fn member_conforms(
    root: RootSchema,
    required: Seq<(String, Schema)>,
    optional: Seq<(String, Schema)>,
    additional: bool,
    tag: Option<Seq<char>>,
    e: (String, Value),
    fuel: nat,
) -> bool
    decreases fuel, 0int,
{
    if fuel == 0 {
        false
    } else if has_key(required, e.0@) {
        conforms(root, required[index_of(required, e.0@)].1, e.1, None, (fuel - 1) as nat)
    } else if has_key(optional, e.0@) {
        conforms(root, optional[index_of(optional, e.0@)].1, e.1, None, (fuel - 1) as nat)
    } else {
        additional || tag == Some(e.0@)
    }
}

/// A value that the scalar outcomes of an empty schema give: null, a boolean,
/// a byte, a fraction with 53 random bits in `[0, 1)`, or a generic string.
pub open spec fn scalar_shape(v: Value) -> bool {
    match v {
        Value::Null => true,
        Value::Bool(_) => true,
        Value::Int(i) => 0 <= i <= u8::MAX,
        Value::Dyadic { mantissa, scale } => scale == 53 && mantissa < 0x20_0000_0000_0000u64,
        Value::Str(t) => short_text(t@),
        _ => false,
    }
}

/// A value that an empty schema gives: a scalar, or, for the outermost empty
/// node only, an array or object of at most `MAX_SEQ_LENGTH` scalars, the
/// object's names being generic strings.
pub open spec fn empty_shape(v: Value, outer: bool) -> bool {
    match v {
        Value::Array(items) => {
            &&& outer
            &&& items.len() <= MAX_SEQ_LENGTH
            &&& forall|i: int| 0 <= i < items.len() ==> scalar_shape(#[trigger] items@[i])
        },
        Value::Object(m) => {
            &&& outer
            &&& m.len() <= MAX_SEQ_LENGTH
            &&& keys_unique(m@)
            &&& forall|j: int|
                0 <= j < m.len() ==> short_text((#[trigger] m@[j]).0@) && scalar_shape(m@[j].1)
        },
        _ => scalar_shape(v),
    }
}

/// A string value of the generic string rule.
pub open spec fn short_string_value(v: Value) -> bool {
    match v {
        Value::Str(t) => short_text(t@),
        _ => false,
    }
}

/// A string value with at least one character.
pub open spec fn nonempty_string_value(v: Value) -> bool {
    match v {
        Value::Str(t) => t@.len() > 0,
        _ => false,
    }
}

/// A timestamp value as the generator draws it.
pub open spec fn drawn_timestamp_value(v: Value) -> bool {
    match v {
        Value::Str(t) => is_drawn_timestamp_text(t@),
        _ => false,
    }
}

/// The limits on a value of the `type` form `t`: a string follows the generic
/// string rule, or, on a node with a recognised fuzz hint, is non-empty text
/// of the hinted kind; a timestamp has an offset of at most
/// `MAX_OFFSET_SECONDS`.
pub open spec fn type_within_limits(t: Type, hinted: bool, v: Value) -> bool {
    match t {
        Type::String => if hinted {
            nonempty_string_value(v)
        } else {
            short_string_value(v)
        },
        Type::Timestamp => drawn_timestamp_value(v),
        _ => true,
    }
}

/// The case-folded names of a `properties` node's members.
pub open spec fn folded_names(
    required: Seq<(String, Schema)>,
    optional: Seq<(String, Schema)>,
) -> Seq<Seq<char>> {
    required.map_values(|e: (String, Schema)| lower_of(e.0@)) + optional.map_values(
        |e: (String, Schema)| lower_of(e.0@),
    )
}

/// An extra member of a `properties` object: a generic-string name whose case
/// folding differs from that of every member name, holding a value that an
/// empty schema below the outermost node gives.
pub open spec fn extra_member(
    required: Seq<(String, Schema)>,
    optional: Seq<(String, Schema)>,
    e: (String, Value),
) -> bool {
    &&& short_text(e.0@)
    &&& !folded_names(required, optional).contains(lower_of(e.0@))
    &&& empty_shape(e.1, false)
}

/// The member `e` of a `properties` object is neither named by the node nor
/// the enclosing discriminator's tag.
pub open spec fn is_extra(
    required: Seq<(String, Schema)>,
    optional: Seq<(String, Schema)>,
    tag: Option<Seq<char>>,
    e: (String, Value),
) -> bool {
    &&& !has_key(required, e.0@)
    &&& !has_key(optional, e.0@)
    &&& tag != Some(e.0@)
}

/// The extra members of `m` sit at no more than `MAX_SEQ_LENGTH` positions:
/// a `properties` object has at most that many extra members.
pub open spec fn extras_bounded(
    required: Seq<(String, Schema)>,
    optional: Seq<(String, Schema)>,
    tag: Option<Seq<char>>,
    m: Seq<(String, Value)>,
) -> bool {
    exists|slots: Set<int>|
        #![trigger slots.finite()]
        slots.finite() && slots.len() <= MAX_SEQ_LENGTH && forall|j: int|
            0 <= j < m.len() && is_extra(required, optional, tag, #[trigger] m[j]) ==> slots.contains(j)
}

/// Whether `v`, a value for the node `s`, keeps to the generator's size and
/// alphabet limits: generic strings, arrays and `values` objects have at most
/// `MAX_SEQ_LENGTH` characters, elements or members; generic strings and
/// generated member names are printable ASCII; values of empty schemas are as
/// `empty_shape` says; a `properties` object has at most `MAX_SEQ_LENGTH`
/// extra members, each as `extra_member` says; hinted strings are non-empty
/// and timestamps keep within `MAX_OFFSET_SECONDS` of UTC. `outer` marks the outermost node of a generation.
pub open spec fn within_limits(
    root: RootSchema,
    s: Schema,
    v: Value,
    tag: Option<Seq<char>>,
    outer: bool,
    fuel: nat,
) -> bool
    decreases fuel, 1int,
{
    if fuel == 0 {
        false
    } else if v is Null && is_nullable(s.form) {
        true
    } else {
        match s.form {
            Form::Empty => empty_shape(v, outer),
            Form::Ref { name, .. } => {
                &&& has_key(root.definitions@, name@)
                &&& within_limits(root, root.definition(name@), v, None, false, (fuel - 1) as nat)
            },
            Form::Type { type_, .. } => type_within_limits(type_, has_hint(s), v),
            Form::Enum { .. } => true,
            Form::Elements { elements, .. } => {
                &&& v matches Value::Array(items)
                &&& items.len() <= MAX_SEQ_LENGTH
                &&& forall|i: int|
                    0 <= i < items.len() ==> within_limits(
                        root,
                        *elements,
                        #[trigger] items@[i],
                        None,
                        false,
                        (fuel - 1) as nat,
                    )
            },
            Form::Properties { required, optional, .. } => {
                &&& v matches Value::Object(m)
                &&& extras_bounded(required@, optional@, tag, m@)
                &&& forall|j: int|
                    0 <= j < m.len() ==> member_within_limits(
                        root,
                        required@,
                        optional@,
                        tag,
                        #[trigger] m@[j],
                        fuel,
                    )
            },
            Form::Values { values, .. } => {
                &&& v matches Value::Object(m)
                &&& m.len() <= MAX_SEQ_LENGTH
                &&& forall|j: int|
                    0 <= j < m.len() ==> short_text((#[trigger] m@[j]).0@) && within_limits(
                        root,
                        *values,
                        m@[j].1,
                        None,
                        false,
                        (fuel - 1) as nat,
                    )
            },
            Form::Discriminator { tag: t, mapping, .. } => {
                &&& v matches Value::Object(m)
                &&& exists|j: int|
                    0 <= j < m.len() && (#[trigger] m@[j]).0@ == t@ && (m@[j].1 matches Value::Str(
                        x,
                    ) && has_key(mapping@, x@) && within_limits(
                        root,
                        mapping@[index_of(mapping@, x@)].1,
                        v,
                        Some(t@),
                        false,
                        (fuel - 1) as nat,
                    ))
            },
        }
    }
}

/// The limits on one member `e` of a `properties` object checked with `fuel`.
pub open spec fn member_within_limits(
    root: RootSchema,
    required: Seq<(String, Schema)>,
    optional: Seq<(String, Schema)>,
    tag: Option<Seq<char>>,
    e: (String, Value),
    fuel: nat,
) -> bool
    decreases fuel, 0int,
{
    if fuel == 0 {
        false
    } else if has_key(required, e.0@) {
        within_limits(
            root,
            required[index_of(required, e.0@)].1,
            e.1,
            None,
            false,
            (fuel - 1) as nat,
        )
    } else if has_key(optional, e.0@) {
        within_limits(
            root,
            optional[index_of(optional, e.0@)].1,
            e.1,
            None,
            false,
            (fuel - 1) as nat,
        )
    } else {
        tag == Some(e.0@) || extra_member(required, optional, e)
    }
}

/// The node `s` is at most `depth` nodes deep, counting the nodes that `ref`s
/// lead to: generation within `depth` levels then cannot run out of depth,
/// whatever is drawn. An outermost empty node may hold one level of
/// containers.
pub open spec fn fits(root: RootSchema, s: Schema, outer: bool, depth: nat) -> bool
    decreases depth,
{
    if depth == 0 {
        false
    } else {
        match s.form {
            Form::Empty => outer ==> depth >= 2,
            Form::Ref { name, .. } => {
                &&& has_key(root.definitions@, name@)
                &&& fits(root, root.definition(name@), false, (depth - 1) as nat)
            },
            Form::Type { .. } => true,
            Form::Enum { .. } => true,
            Form::Elements { elements, .. } => fits(root, *elements, false, (depth - 1) as nat),
            Form::Properties { required, optional, additional, .. } => {
                &&& forall|i: int|
                    0 <= i < required.len() ==> fits(
                        root,
                        (#[trigger] required@[i]).1,
                        false,
                        (depth - 1) as nat,
                    )
                &&& forall|i: int|
                    0 <= i < optional.len() ==> fits(
                        root,
                        (#[trigger] optional@[i]).1,
                        false,
                        (depth - 1) as nat,
                    )
                &&& additional ==> depth >= 2
            },
            Form::Values { values, .. } => fits(root, *values, false, (depth - 1) as nat),
            Form::Discriminator { mapping, .. } => forall|i: int|
                0 <= i < mapping.len() ==> fits(
                    root,
                    (#[trigger] mapping@[i]).1,
                    false,
                    (depth - 1) as nat,
                ),
        }
    }
}

} // verus!
