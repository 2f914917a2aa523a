use vstd::prelude::*;
use vstd::pervasive::unreached;
use crate::accept::{
    accepts, conforms, empty_shape, extra_member, fits, folded_names, member_conforms,
    member_within_limits, scalar_shape, extras_bounded, is_extra, type_accepts, type_within_limits, within_limits,
};
use crate::draw::{
    choose_index, draw_bool, draw_i16, draw_i32, draw_i32_below, draw_i8, draw_u16, draw_u32,
    draw_u64, draw_u8, draw_u8_in,
};
use crate::hint::{fake_text, has_hint, hint_of};
use crate::order::sorted_order;
use crate::schema::{
    has_key, index_of, keys_unique, lemma_index_of_unique, mapping_entry_wf, members_wf,
    node_wf, position_of, Form, RootSchema, Schema, Type,
};
use crate::text::{fuzz_string, lower_of, lowercase, short_text, MAX_SEQ_LENGTH};
use crate::timestamp::fuzz_timestamp;
use crate::value::{insert_member, lemma_object_insert, object_insert, Value};

verus! {

/// The most nested schema nodes, counting those that `ref`s lead to, that one
/// generation descends through before it gives up.
pub const MAX_DEPTH: u32 = 128;

/// Why a generation gave no value.
#[derive(Clone, Copy, Debug, PartialEq, Eq, Structural)]
pub enum FuzzError {
    /// The schema, through its `ref`s, led deeper than `MAX_DEPTH` nodes.
    DepthExceeded,
}

/// `v` is a value that generating the node `s` may give within `fuel` levels:
/// it satisfies `s` and keeps to the generator's limits.
pub open spec fn produced(root: RootSchema, s: Schema, v: Value, outer: bool, fuel: nat) -> bool {
    &&& conforms(root, s, v, None, fuel)
    &&& within_limits(root, s, v, None, outer, fuel)
}

/// Draws a fraction the way rand's standard `f32` distribution does: the top
/// 24 bits of a random `u32` over `2^24`.
fn fuzz_fraction24(rng: &mut rand_pcg::Pcg32) -> (r: Value)
    ensures
        r matches Value::Dyadic { mantissa, scale } && scale == 24 && mantissa < 0x100_0000,
{
    let w = draw_u32(rng);
    let m = w >> 8u32;
    assert(w >> 8u32 < 0x100_0000u32) by (bit_vector);
    Value::Dyadic { mantissa: m as u64, scale: 24 }
}

/// Draws a fraction the way rand's standard `f64` distribution does: the top
/// 53 bits of a random `u64` over `2^53`.
fn fuzz_fraction53(rng: &mut rand_pcg::Pcg32) -> (r: Value)
    ensures
        scalar_shape(r),
        r is Dyadic,
{
    let w = draw_u64(rng);
    let m = w >> 11u64;
    assert(w >> 11u64 < 0x20_0000_0000_0000u64) by (bit_vector);
    Value::Dyadic { mantissa: m, scale: 53 }
}

/// Draws a value of the `type` form `t` on the node `s`: full-range integers
/// of the kind, a boolean, a fraction, a timestamp, or a string; a string
/// node with a recognised fuzz hint gets text of the hinted kind, any other
/// the generic string rule.
fn fuzz_type(rng: &mut rand_pcg::Pcg32, t: Type, s: &Schema) -> (r: Value)
    ensures
        type_accepts(t, r),
        type_within_limits(t, has_hint(*s), r),
{
    match t {
        Type::Boolean => Value::Bool(draw_bool(rng)),
        Type::Float32 => fuzz_fraction24(rng),
        Type::Float64 => fuzz_fraction53(rng),
        Type::Int8 => Value::Int(draw_i8(rng) as i64),
        Type::Uint8 => Value::Int(draw_u8(rng) as i64),
        Type::Int16 => Value::Int(draw_i16(rng) as i64),
        Type::Uint16 => Value::Int(draw_u16(rng) as i64),
        Type::Int32 => Value::Int(draw_i32(rng) as i64),
        Type::Uint32 => Value::Int(draw_u32(rng) as i64),
        Type::String => match hint_of(s) {
            Some(h) => Value::Str(fake_text(rng, h)),
            None => Value::Str(fuzz_string(rng)),
        },
        Type::Timestamp => Value::Str(fuzz_timestamp(rng)),
    }
}

/// Generates a value for an empty node. One of five outcomes is drawn: null,
/// a boolean, a byte, a fraction, a generic string; the outermost empty node
/// of a generation draws from seven, the last two being an array and an
/// object whose elements are empty nodes that are not outermost.
fn fuzz_empty(root: &RootSchema, rng: &mut rand_pcg::Pcg32, outer: bool, depth: u32) -> (r: Result<
    Value,
    FuzzError,
>)
    requires
        depth >= 1,
        root.wf(),
    ensures
        r matches Ok(v) ==> empty_shape(v, outer),
        (outer ==> depth >= 2) ==> r is Ok,
    decreases depth, 1int,
{
    let outcomes: i32 = if outer {
        7
    } else {
        5
    };
    let k = draw_i32_below(rng, 0, outcomes);
    if k == 0 {
        Ok(Value::Null)
    } else if k == 1 {
        Ok(Value::Bool(draw_bool(rng)))
    } else if k == 2 {
        Ok(Value::Int(draw_u8(rng) as i64))
    } else if k == 3 {
        Ok(fuzz_fraction53(rng))
    } else if k == 4 {
        Ok(Value::Str(fuzz_string(rng)))
    } else {
        let empty = Schema { metadata: Vec::new(), form: Form::Empty };
        if k == 5 {
            match fuzz_elements(root, rng, &empty, depth) {
                Ok(items) => {
                    assert forall|i: int| 0 <= i < items.len() implies scalar_shape(
                        #[trigger] items@[i],
                    ) by {
                        assert(within_limits(*root, empty, items@[i], None, false, (depth - 1) as nat));
                    }
                    Ok(Value::Array(items))
                },
                Err(e) => Err(e),
            }
        } else {
            match fuzz_values(root, rng, &empty, depth) {
                Ok(m) => {
                    assert forall|j: int| 0 <= j < m.len() implies short_text(
                        (#[trigger] m@[j]).0@,
                    ) && scalar_shape(m@[j].1) by {
                        assert(within_limits(*root, empty, m@[j].1, None, false, (depth - 1) as nat));
                    }
                    Ok(Value::Object(m))
                },
                Err(e) => Err(e),
            }
        }
    }
}

/// Generates the elements of an array: a length in `0..=MAX_SEQ_LENGTH`, then
/// that many values of `elements`, in draw order.
fn fuzz_elements(
    root: &RootSchema,
    rng: &mut rand_pcg::Pcg32,
    elements: &Schema,
    depth: u32,
) -> (r: Result<Vec<Value>, FuzzError>)
    requires
        depth >= 1,
        root.wf(),
        node_wf(root.definitions@, *elements),
    ensures
        r matches Ok(items) ==> {
            &&& items.len() <= MAX_SEQ_LENGTH
            &&& forall|i: int|
                0 <= i < items.len() ==> produced(
                    *root,
                    *elements,
                    #[trigger] items@[i],
                    false,
                    (depth - 1) as nat,
                )
        },
        fits(*root, *elements, false, (depth - 1) as nat) ==> r is Ok,
    decreases depth, 0int,
{
    let n = draw_u8_in(rng, 0, MAX_SEQ_LENGTH);
    let mut items: Vec<Value> = Vec::new();
    let mut i: u8 = 0;
    while i < n
        invariant
            depth >= 1,
            root.wf(),
            node_wf(root.definitions@, *elements),
            i <= n <= MAX_SEQ_LENGTH,
            items.len() == i,
            forall|j: int|
                0 <= j < items.len() ==> produced(
                    *root,
                    *elements,
                    #[trigger] items@[j],
                    false,
                    (depth - 1) as nat,
                ),
        decreases n - i,
    {
        match fuzz_node(root, rng, elements, false, depth - 1) {
            Ok(v) => items.push(v),
            Err(e) => return Err(e),
        }
        i += 1;
    }
    Ok(items)
}

/// Generates the members of a `values` object: a count in
/// `0..=MAX_SEQ_LENGTH`, then for each a generic-string name and a value of
/// `values`, drawn in that order. A name drawn twice keeps its later value.
fn fuzz_values(root: &RootSchema, rng: &mut rand_pcg::Pcg32, values: &Schema, depth: u32) -> (r:
    Result<Vec<(String, Value)>, FuzzError>)
    requires
        depth >= 1,
        root.wf(),
        node_wf(root.definitions@, *values),
    ensures
        r matches Ok(m) ==> {
            &&& m.len() <= MAX_SEQ_LENGTH
            &&& keys_unique(m@)
            &&& forall|j: int|
                0 <= j < m.len() ==> short_text((#[trigger] m@[j]).0@) && produced(
                    *root,
                    *values,
                    m@[j].1,
                    false,
                    (depth - 1) as nat,
                )
        },
        fits(*root, *values, false, (depth - 1) as nat) ==> r is Ok,
    decreases depth, 0int,
{
    let n = draw_u8_in(rng, 0, MAX_SEQ_LENGTH);
    let mut m: Vec<(String, Value)> = Vec::new();
    let mut i: u8 = 0;
    while i < n
        invariant
            depth >= 1,
            root.wf(),
            node_wf(root.definitions@, *values),
            i <= n <= MAX_SEQ_LENGTH,
            m.len() <= i,
            keys_unique(m@),
            forall|j: int|
                0 <= j < m.len() ==> short_text((#[trigger] m@[j]).0@) && produced(
                    *root,
                    *values,
                    m@[j].1,
                    false,
                    (depth - 1) as nat,
                ),
        decreases n - i,
    {
        let key = fuzz_string(rng);
        match fuzz_node(root, rng, values, false, depth - 1) {
            Ok(v) => {
                proof {
                    lemma_object_insert(m@, key, v);
                }
                insert_member(&mut m, key, v);
            },
            Err(e) => return Err(e),
        }
        i += 1;
    }
    Ok(m)
}

/// The case-folded names of the members, required ones first.
fn fold_member_names(required: &Vec<(String, Schema)>, optional: &Vec<(String, Schema)>) -> (r: Vec<
    String,
>)
    ensures
        r.len() == folded_names(required@, optional@).len(),
        forall|i: int| 0 <= i < r.len() ==> (#[trigger] r@[i])@ == folded_names(required@, optional@)[i],
{
    let ghost f = folded_names(required@, optional@);
    let mut r: Vec<String> = Vec::new();
    let mut i: usize = 0;
    while i < required.len()
        invariant
            i <= required.len(),
            r.len() == i,
            forall|j: int| 0 <= j < i ==> (#[trigger] r@[j])@ == lower_of(required@[j].0@),
        decreases required.len() - i,
    {
        r.push(lowercase(required[i].0.as_str()));
        i += 1;
    }
    let mut i: usize = 0;
    while i < optional.len()
        invariant
            i <= optional.len(),
            r.len() == required.len() + i,
            forall|j: int|
                0 <= j < required.len() ==> (#[trigger] r@[j])@ == lower_of(required@[j].0@),
            forall|j: int|
                0 <= j < i ==> (#[trigger] r@[required.len() + j])@ == lower_of(optional@[j].0@),
        decreases optional.len() - i,
    {
        r.push(lowercase(optional[i].0.as_str()));
        i += 1;
    }
    assert forall|i: int| 0 <= i < r.len() implies (#[trigger] r@[i])@ == f[i] by {
        if i >= required.len() {
            assert(r@[required.len() + (i - required.len())] == r@[i]);
        }
    }
    r
}

/// Whether some string of `list` holds the same characters as `s`.
fn contains_text(list: &Vec<String>, s: &String) -> (r: bool)
    ensures
        r == exists|i: int| 0 <= i < list.len() && (#[trigger] list@[i])@ == s@,
{
    let mut i: usize = 0;
    while i < list.len()
        invariant
            i <= list.len(),
            forall|j: int| 0 <= j < i ==> (#[trigger] list@[j])@ != s@,
        decreases list.len() - i,
    {
        if list[i] == *s {
            return true;
        }
        i += 1;
    }
    false
}

/// Generates the members of a `properties` object. Each required member, in
/// name order, gets a value of its schema; then for each optional member, in
/// name order, a coin is flipped and the member is put in, with a value, when
/// it comes up true; then, where additional members are allowed, a count in
/// `0..=MAX_SEQ_LENGTH` is drawn and for each a generic-string name, which is
/// used, with a value of an empty node below the outermost, only if its case
/// folding differs from that of every member name. A name used twice keeps its
/// later value.
fn fuzz_members(
    root: &RootSchema,
    rng: &mut rand_pcg::Pcg32,
    required: &Vec<(String, Schema)>,
    optional: &Vec<(String, Schema)>,
    additional: bool,
    depth: u32,
) -> (r: Result<Vec<(String, Value)>, FuzzError>)
    requires
        depth >= 1,
        root.wf(),
        members_wf(required@, optional@),
        forall|i: int| 0 <= i < required.len() ==> node_wf(root.definitions@, (#[trigger] required@[i]).1),
        forall|i: int| 0 <= i < optional.len() ==> node_wf(root.definitions@, (#[trigger] optional@[i]).1),
    ensures
        r matches Ok(m) ==> {
            &&& keys_unique(m@)
            &&& forall|i: int| 0 <= i < required.len() ==> has_key(m@, (#[trigger] required@[i]).0@)
            &&& forall|j: int|
                0 <= j < m.len() ==> member_conforms(
                    *root,
                    required@,
                    optional@,
                    additional,
                    None,
                    #[trigger] m@[j],
                    depth as nat,
                ) && member_within_limits(*root, required@, optional@, None, m@[j], depth as nat)
            &&& extras_bounded(required@, optional@, None, m@)
            &&& m.len() <= required.len() + optional.len() + MAX_SEQ_LENGTH
        },
        ({
            &&& forall|i: int|
                0 <= i < required.len() ==> fits(*root, (#[trigger] required@[i]).1, false, (depth - 1) as nat)
            &&& forall|i: int|
                0 <= i < optional.len() ==> fits(*root, (#[trigger] optional@[i]).1, false, (depth - 1) as nat)
            &&& additional ==> depth >= 2
        }) ==> r is Ok,
    decreases depth, 0int,
{
    let ghost fuel = depth as nat;
    let mut members: Vec<(String, Value)> = Vec::new();

    let order = sorted_order(required);
    let mut t: usize = 0;
    while t < order.len()
        invariant
            depth >= 1,
            fuel == depth as nat,
            root.wf(),
            members_wf(required@, optional@),
            forall|i: int| 0 <= i < required.len() ==> node_wf(root.definitions@, (#[trigger] required@[i]).1),
            order.len() == required.len(),
            forall|p: int| 0 <= p < order.len() ==> order[p] < required.len(),
            forall|p: int, q: int| 0 <= p < q < order.len() ==> order[p] != order[q],
            t <= order.len(),
            members.len() == t,
            forall|p: int| 0 <= p < t ==> (#[trigger] members@[p]).0@ == required@[order[p] as int].0@,
            keys_unique(members@),
            forall|j: int|
                0 <= j < members.len() ==> member_conforms(
                    *root,
                    required@,
                    optional@,
                    additional,
                    None,
                    #[trigger] members@[j],
                    fuel,
                ) && member_within_limits(*root, required@, optional@, None, members@[j], fuel),
        decreases order.len() - t,
    {
        let k = order[t];
        match fuzz_node(root, rng, &required[k].1, false, depth - 1) {
            Ok(v) => {
                let name = required[k].0.clone();
                proof {
                    lemma_index_of_unique(required@, k as int);
                    assert forall|p: int| 0 <= p < t implies (#[trigger] members@[p]).0@ != name@ by {
                        assert(order[p] != order[t as int]);
                    }
                    assert(member_conforms(*root, required@, optional@, additional, None, (name, v), fuel));
                    assert(member_within_limits(*root, required@, optional@, None, (name, v), fuel));
                }
                members.push((name, v));
            },
            Err(e) => return Err(e),
        }
        t += 1;
    }
    assert forall|i: int| 0 <= i < required.len() implies has_key(
        members@,
        (#[trigger] required@[i]).0@,
    ) by {
        assert(order@.contains(i as usize));
        let p = choose|p: int| 0 <= p < order.len() && order@[p] == i as usize;
        assert(members@[p].0@ == required@[i].0@);
    }
    assert forall|j: int, q: int| 0 <= j < members.len() && 0 <= q < optional.len() implies (
    #[trigger] members@[j]).0@ != (#[trigger] optional@[q]).0@ by {
        let i = order[j] as int;
        assert(members@[j].0@ == required@[i].0@);
        if members@[j].0@ == optional@[q].0@ {
            assert(has_key(optional@, required@[i].0@));
        }
    }

    assert forall|j: int| 0 <= j < members.len() implies !is_extra(
        required@,
        optional@,
        None,
        #[trigger] members@[j],
    ) by {
        assert(members@[j].0@ == required@[order[j] as int].0@);
    }

    let order = sorted_order(optional);
    let mut t: usize = 0;
    while t < order.len()
        invariant
            depth >= 1,
            fuel == depth as nat,
            root.wf(),
            members_wf(required@, optional@),
            forall|i: int| 0 <= i < optional.len() ==> node_wf(root.definitions@, (#[trigger] optional@[i]).1),
            order.len() == optional.len(),
            forall|p: int| 0 <= p < order.len() ==> order[p] < optional.len(),
            forall|p: int, q: int| 0 <= p < q < order.len() ==> order[p] != order[q],
            t <= order.len(),
            members.len() <= required.len() + t,
            forall|j: int, p: int|
                0 <= j < members.len() && t <= p < order.len() ==> (#[trigger] members@[j]).0@
                    != optional@[(#[trigger] order[p]) as int].0@,
            keys_unique(members@),
            forall|i: int| 0 <= i < required.len() ==> has_key(members@, (#[trigger] required@[i]).0@),
            forall|j: int| 0 <= j < members.len() ==> !is_extra(required@, optional@, None, #[trigger] members@[j]),
            forall|j: int|
                0 <= j < members.len() ==> member_conforms(
                    *root,
                    required@,
                    optional@,
                    additional,
                    None,
                    #[trigger] members@[j],
                    fuel,
                ) && member_within_limits(*root, required@, optional@, None, members@[j], fuel),
        decreases order.len() - t,
    {
        let k = order[t];
        if draw_bool(rng) {
            match fuzz_node(root, rng, &optional[k].1, false, depth - 1) {
                Ok(v) => {
                    let name = optional[k].0.clone();
                    proof {
                        lemma_index_of_unique(optional@, k as int);
                        assert(!has_key(required@, name@)) by {
                            if has_key(required@, name@) {
                                let i = index_of(required@, name@);
                                assert(has_key(optional@, required@[i].0@));
                            }
                        }
                        assert forall|j: int| 0 <= j < members.len() implies (
                        #[trigger] members@[j]).0@ != name@ by {
                            assert(members@[j].0@ != optional@[order[t as int] as int].0@);
                        }
                        assert forall|p: int| t < p < order.len() implies name@ != optional@[(
                        #[trigger] order[p]) as int].0@ by {
                            assert(order[p] != order[t as int]);
                        }
                        assert(member_conforms(*root, required@, optional@, additional, None, (name, v), fuel));
                        assert(member_within_limits(*root, required@, optional@, None, (name, v), fuel));
                        let ghost old_members = members@;
                        assert(forall|i: int|
                            0 <= i < required.len() ==> has_key(
                                old_members.push((name, v)),
                                (#[trigger] required@[i]).0@,
                            )) by {
                            assert forall|i: int| 0 <= i < required.len() implies has_key(
                                old_members.push((name, v)),
                                (#[trigger] required@[i]).0@,
                            ) by {
                                let q = index_of(old_members, required@[i].0@);
                                assert(old_members.push((name, v))[q] == old_members[q]);
                            }
                        }
                    }
                    members.push((name, v));
                },
                Err(e) => return Err(e),
            }
        }
        t += 1;
    }

    let ghost mut slots: Set<int> = Set::empty();
    if additional {
        let folded = fold_member_names(required, optional);
        let ghost fixed = members.len();
        let n = draw_u8_in(rng, 0, MAX_SEQ_LENGTH);
        let mut i: u8 = 0;
        while i < n
            invariant
                depth >= 1,
                fuel == depth as nat,
                root.wf(),
                additional,
                members_wf(required@, optional@),
                fixed <= required.len() + optional.len(),
                i <= n <= MAX_SEQ_LENGTH,
                members.len() <= fixed + i,
                slots.finite(),
                slots.len() <= i,
                forall|j: int|
                    0 <= j < members.len() && is_extra(required@, optional@, None, #[trigger] members@[j])
                        ==> slots.contains(j),
                folded.len() == folded_names(required@, optional@).len(),
                forall|q: int|
                    0 <= q < folded.len() ==> (#[trigger] folded@[q])@ == folded_names(
                        required@,
                        optional@,
                    )[q],
                keys_unique(members@),
                forall|r: int| 0 <= r < required.len() ==> has_key(members@, (#[trigger] required@[r]).0@),
                forall|j: int|
                    0 <= j < members.len() ==> member_conforms(
                        *root,
                        required@,
                        optional@,
                        additional,
                        None,
                        #[trigger] members@[j],
                        fuel,
                    ) && member_within_limits(*root, required@, optional@, None, members@[j], fuel),
            decreases n - i,
        {
            let key = fuzz_string(rng);
            let lowered = lowercase(key.as_str());
            if !contains_text(&folded, &lowered) {
                if depth < 2 {
                    return Err(FuzzError::DepthExceeded);
                }
                match fuzz_empty(root, rng, false, depth - 1) {
                    Ok(v) => {
                        proof {
                            let f = folded_names(required@, optional@);
                            assert(!f.contains(lower_of(key@))) by {
                                if f.contains(lower_of(key@)) {
                                    let q = choose|q: int| 0 <= q < f.len() && f[q] == lower_of(key@);
                                    assert(folded@[q]@ == lowered@);
                                }
                            }
                            assert(!has_key(required@, key@)) by {
                                if has_key(required@, key@) {
                                    let q = index_of(required@, key@);
                                    assert(f[q] == lower_of(key@));
                                }
                            }
                            assert(!has_key(optional@, key@)) by {
                                if has_key(optional@, key@) {
                                    let q = index_of(optional@, key@);
                                    assert(f[required.len() + q] == lower_of(key@));
                                }
                            }
                            assert(extra_member(required@, optional@, (key, v)));
                            assert(member_conforms(*root, required@, optional@, additional, None, (key, v), fuel));
                            assert(member_within_limits(*root, required@, optional@, None, (key, v), fuel));
                            lemma_object_insert(members@, key, v);
                            let ghost after = object_insert(members@, key, v);
                            assert forall|r: int| 0 <= r < required.len() implies has_key(
                                after,
                                (#[trigger] required@[r]).0@,
                            ) by {
                                let q = index_of(members@, required@[r].0@);
                                assert(after[q].0@ == members@[q].0@);
                            }
                            let idx = index_of(after, key@);
                            assert forall|j: int|
                                0 <= j < after.len() && is_extra(required@, optional@, None, #[trigger] after[j])
                                implies slots.insert(idx).contains(j) by {
                                if after[j] == (key, v) {
                                    lemma_index_of_unique(after, j);
                                } else {
                                    assert(after[j] == members@[j]);
                                }
                            }
                            slots = slots.insert(idx);
                            assert forall|j: int| 0 <= j < after.len() implies member_conforms(
                                *root,
                                required@,
                                optional@,
                                additional,
                                None,
                                #[trigger] after[j],
                                fuel,
                            ) && member_within_limits(*root, required@, optional@, None, after[j], fuel) by {
                                if after[j] != (key, v) {
                                    assert(after[j] == members@[j]);
                                }
                            }
                        }
                        insert_member(&mut members, key, v);
                    },
                    Err(e) => return Err(e),
                }
            }
            i += 1;
        }
    }
    assert(extras_bounded(required@, optional@, None, members@)) by {
        assert(slots.finite());
    }
    Ok(members)
}

/// Puts the discriminator member into an object generated for one mapping
/// entry: the object keeps its members and their limits, and now also
/// satisfies the entry with the tag member exempt from the extra-member rule.
proof fn lemma_tag_member(
    root: RootSchema,
    required: Seq<(String, Schema)>,
    optional: Seq<(String, Schema)>,
    additional: bool,
    m: Seq<(String, Value)>,
    tag: String,
    x: String,
    fuel: nat,
)
    requires
        fuel > 0,
        keys_unique(m),
        !has_key(required, tag@),
        !has_key(optional, tag@),
        forall|i: int| 0 <= i < required.len() ==> has_key(m, (#[trigger] required[i]).0@),
        forall|j: int|
            0 <= j < m.len() ==> member_conforms(root, required, optional, additional, None, #[trigger] m[j], fuel)
                && member_within_limits(root, required, optional, None, m[j], fuel),
        extras_bounded(required, optional, None, m),
    ensures
        ({
            let m2 = object_insert(m, tag, Value::Str(x));
            &&& keys_unique(m2)
            &&& has_key(m2, tag@)
            &&& m2[index_of(m2, tag@)] == (tag, Value::Str(x))
            &&& forall|i: int| 0 <= i < required.len() ==> has_key(m2, (#[trigger] required[i]).0@)
            &&& extras_bounded(required, optional, Some(tag@), m2)
            &&& forall|j: int|
                0 <= j < m2.len() ==> member_conforms(
                    root,
                    required,
                    optional,
                    additional,
                    Some(tag@),
                    #[trigger] m2[j],
                    fuel,
                ) && member_within_limits(root, required, optional, Some(tag@), m2[j], fuel)
        }),
{
    let m2 = object_insert(m, tag, Value::Str(x));
    lemma_object_insert(m, tag, Value::Str(x));
    let k = index_of(m2, tag@);
    assert(m2[k].0@ == tag@);
    assert forall|i: int| 0 <= i < required.len() implies has_key(m2, (#[trigger] required[i]).0@) by {
        let q = index_of(m, required[i].0@);
        assert(m2[q].0@ == m[q].0@);
    }
    assert forall|j: int| 0 <= j < m2.len() implies member_conforms(
        root,
        required,
        optional,
        additional,
        Some(tag@),
        #[trigger] m2[j],
        fuel,
    ) && member_within_limits(root, required, optional, Some(tag@), m2[j], fuel) by {
        if m2[j] != (tag, Value::Str(x)) {
            assert(m2[j] == m[j]);
        }
    }
    let slots = choose|slots: Set<int>|
        #![trigger slots.finite()]
        slots.finite() && slots.len() <= MAX_SEQ_LENGTH && forall|j: int|
            0 <= j < m.len() && is_extra(required, optional, None, #[trigger] m[j]) ==> slots.contains(j);
    assert forall|j: int|
        0 <= j < m2.len() && is_extra(required, optional, Some(tag@), #[trigger] m2[j]) implies slots.contains(j) by {
        assert(m2[j] == m[j]);
    }
    assert(slots.finite());
}

/// Generates a value for the node `s` of `root` within `depth` nested nodes;
/// `s` is the outermost node of the generation when `outer` holds. The value
/// satisfies `s` and keeps to the generator's limits, for every node, not only
/// the top-level one. A nullable node first flips a coin and gives
/// `null` on heads, drawing nothing more.
pub fn fuzz_node(root: &RootSchema, rng: &mut rand_pcg::Pcg32, s: &Schema, outer: bool, depth: u32) -> (r:
    Result<Value, FuzzError>)
    requires
        root.wf(),
        node_wf(root.definitions@, *s),
    ensures
        r matches Ok(v) ==> produced(*root, *s, v, outer, depth as nat),
        fits(*root, *s, outer, depth as nat) ==> r is Ok,
    decreases depth, 2int,
{
    if depth == 0 {
        return Err(FuzzError::DepthExceeded);
    }
    if s.nullable() && draw_bool(rng) {
        return Ok(Value::Null);
    }
    match &s.form {
        Form::Empty => fuzz_empty(root, rng, outer, depth),
        Form::Ref { name, .. } => {
            let k = position_of(&root.definitions, name);
            fuzz_node(root, rng, &root.definitions[k].1, false, depth - 1)
        },
        Form::Type { type_, .. } => Ok(fuzz_type(rng, *type_, s)),
        Form::Enum { values, .. } => {
            let k = choose_index(rng, values.len()).unwrap();
            Ok(Value::Str(values[k].clone()))
        },
        Form::Elements { elements, .. } => match fuzz_elements(root, rng, elements, depth) {
            Ok(items) => Ok(Value::Array(items)),
            Err(e) => Err(e),
        },
        Form::Properties { required, optional, additional, .. } => {
            match fuzz_members(root, rng, required, optional, *additional, depth) {
                Ok(m) => Ok(Value::Object(m)),
                Err(e) => Err(e),
            }
        },
        Form::Values { values, .. } => match fuzz_values(root, rng, values, depth) {
            Ok(m) => Ok(Value::Object(m)),
            Err(e) => Err(e),
        },
        Form::Discriminator { tag, mapping, .. } => {
            let k = choose_index(rng, mapping.len()).unwrap();
            proof {
                assert(mapping_entry_wf(tag@, mapping@[k as int].1));
                assert(node_wf(root.definitions@, mapping@[k as int].1));
            }
            if depth < 2 {
                assert(!fits(*root, mapping@[k as int].1, false, (depth - 1) as nat));
                return Err(FuzzError::DepthExceeded);
            }
            match &mapping[k].1.form {
                Form::Properties { required, optional, additional, .. } => {
                    proof {
                        if fits(*root, *s, outer, depth as nat) {
                            assert(fits(*root, mapping@[k as int].1, false, (depth - 1) as nat));
                        }
                    }
                    match fuzz_members(root, rng, required, optional, *additional, depth - 1) {
                        Ok(mut members) => {
                            let x = mapping[k].0.clone();
                            let t = tag.clone();
                            proof {
                                lemma_index_of_unique(mapping@, k as int);
                                lemma_tag_member(
                                    *root,
                                    required@,
                                    optional@,
                                    *additional,
                                    members@,
                                    t,
                                    x,
                                    (depth - 1) as nat,
                                );
                            }
                            insert_member(&mut members, t, Value::Str(x));
                            proof {
                                let v = Value::Object(members);
                                let j = index_of(members@, tag@);
                                assert(members@[j].0@ == tag@);
                                assert(conforms(*root, mapping@[k as int].1, v, Some(tag@), (depth - 1) as nat));
                                assert(within_limits(*root, mapping@[k as int].1, v, Some(tag@), false, (depth - 1) as nat));
                            }
                            Ok(Value::Object(members))
                        },
                        Err(e) => Err(e),
                    }
                },
                _ => unreached(),
            }
        },
    }
}

/// Generates one value that satisfies the schema `root`, drawing from `rng`.
///
/// The value depends only on the schema and on what `rng` gives. Generation
/// gives up only when it would descend through more than `MAX_DEPTH` nested
/// nodes, counting those that `ref`s lead to; that cannot happen where the
/// schema, with its `ref`s followed, `fits` within `MAX_DEPTH` levels.
pub fn fuzz(root: &RootSchema, rng: &mut rand_pcg::Pcg32) -> (r: Result<Value, FuzzError>)
    requires
        root.wf(),
    ensures
        r matches Ok(v) ==> {
            &&& accepts(*root, v)
            &&& conforms(*root, root.schema, v, None, MAX_DEPTH as nat)
            &&& within_limits(*root, root.schema, v, None, true, MAX_DEPTH as nat)
        },
        fits(*root, root.schema, true, MAX_DEPTH as nat) ==> r is Ok,
{
    fuzz_node(root, rng, &root.schema, true, MAX_DEPTH)
}

} // verus!
