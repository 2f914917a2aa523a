use vstd::prelude::*;
use crate::schema::{has_key, index_of, keys_unique};

verus! {

/// A JSON value.
///
/// Numbers are either integers or dyadic fractions: `Dyadic { mantissa, scale }`
/// stands for `mantissa / 2^scale`, which a binary floating-point number holds
/// exactly when `mantissa` fits its precision. An object lists its members in
/// insertion order.
pub enum Value {
    Null,
    Bool(bool),
    Int(i64),
    Dyadic { mantissa: u64, scale: u8 },
    Str(String),
    Array(Vec<Value>),
    Object(Vec<(String, Value)>),
}

/// The members after `insert_member` puts `(key, value)` in: an entry with the
/// same name is replaced in place, otherwise the pair is appended.
pub open spec fn object_insert(
    members: Seq<(String, Value)>,
    key: String,
    value: Value,
) -> Seq<(String, Value)> {
    if has_key(members, key@) {
        members.update(index_of(members, key@), (key, value))
    } else {
        members.push((key, value))
    }
}

/// Inserting keeps the names distinct, keeps every name, adds `key`, and
/// leaves every entry of another name where it was.
pub proof fn lemma_object_insert(members: Seq<(String, Value)>, key: String, value: Value)
    requires
        keys_unique(members),
    ensures
        keys_unique(object_insert(members, key, value)),
        members.len() <= object_insert(members, key, value).len() <= members.len() + 1,
        forall|i: int|
            0 <= i < members.len() ==> (#[trigger] object_insert(members, key, value)[i]).0@
                == members[i].0@,
        forall|i: int|
            0 <= i < members.len() && members[i].0@ != key@ ==> #[trigger] object_insert(
                members,
                key,
                value,
            )[i] == members[i],
        forall|i: int|
            0 <= i < object_insert(members, key, value).len() ==> {
                let e = #[trigger] object_insert(members, key, value)[i];
                (i < members.len() && e == members[i] && e.0@ != key@) || e == (key, value)
            },
        has_key(object_insert(members, key, value), key@),
{
    let r = object_insert(members, key, value);
    if has_key(members, key@) {
        let k = index_of(members, key@);
        assert(r[k] == (key, value));
    } else {
        assert(r[members.len() as int] == (key, value));
    }
}

/// Puts `(key, value)` into `members`, replacing the value of an entry with
/// the same name.
pub fn insert_member(members: &mut Vec<(String, Value)>, key: String, value: Value)
    requires
        keys_unique(old(members)@),
    ensures
        final(members)@ == object_insert(old(members)@, key, value),
{
    let n = members.len();
    let mut i: usize = 0;
    while i < n
        invariant
            n == members.len(),
            members@ == old(members)@,
            keys_unique(members@),
            i <= n,
            forall|j: int| 0 <= j < i ==> (#[trigger] members@[j]).0@ != key@,
        decreases n - i,
    {
        if members[i].0 == key {
            proof {
                assert(has_key(members@, key@));
                let k = index_of(members@, key@);
                assert(k == i);
            }
            members.set(i, (key, value));
            return;
        }
        i += 1;
    }
    assert(!has_key(members@, key@));
    members.push((key, value));
}

} // verus!
