use vstd::prelude::*;
use vstd::pervasive::unreached;

verus! {

/// The primitive kinds of the `type` form.
#[derive(Clone, Copy, Debug, PartialEq, Eq, Structural)]
pub enum Type {
    Boolean,
    Int8,
    Uint8,
    Int16,
    Uint16,
    Int32,
    Uint32,
    Float32,
    Float64,
    String,
    Timestamp,
}

/// One schema node: the metadata entries whose values are strings, and its form.
pub struct Schema {
    pub metadata: Vec<(String, String)>,
    pub form: Form,
}

/// The eight mutually exclusive forms of a schema node.
///
/// The `required`, `optional` and `mapping` lists are mappings: each name
/// occurs at most once in them (see `node_wf`).
pub enum Form {
    Empty,
    Ref { nullable: bool, name: String },
    Type { nullable: bool, type_: Type },
    Enum { nullable: bool, values: Vec<String> },
    Elements { nullable: bool, elements: Box<Schema> },
    Properties {
        nullable: bool,
        required: Vec<(String, Schema)>,
        optional: Vec<(String, Schema)>,
        additional: bool,
    },
    Values { nullable: bool, values: Box<Schema> },
    Discriminator { nullable: bool, tag: String, mapping: Vec<(String, Schema)> },
}

/// A top-level schema together with the named definitions that `ref` nodes
/// anywhere in it (including inside definitions) point to.
pub struct RootSchema {
    pub definitions: Vec<(String, Schema)>,
    pub schema: Schema,
}

/// Some entry of `entries` is named `k`.
pub open spec fn has_key<T>(entries: Seq<(String, T)>, k: Seq<char>) -> bool {
    exists|i: int| 0 <= i < entries.len() && (#[trigger] entries[i]).0@ == k
}

/// The position of the entry named `k` (meaningful when `has_key` holds).
pub open spec fn index_of<T>(entries: Seq<(String, T)>, k: Seq<char>) -> int {
    choose|i: int| 0 <= i < entries.len() && (#[trigger] entries[i]).0@ == k
}

/// No two entries of `entries` share a name.
pub open spec fn keys_unique<T>(entries: Seq<(String, T)>) -> bool {
    forall|i: int, j: int|
        0 <= i < entries.len() && 0 <= j < entries.len() && i != j ==> (#[trigger] entries[i]).0@
            != (#[trigger] entries[j]).0@
}

/// Under unique names, the entry at `i` is the one that `index_of` finds.
pub proof fn lemma_index_of_unique<T>(entries: Seq<(String, T)>, i: int)
    requires
        keys_unique(entries),
        0 <= i < entries.len(),
    ensures
        has_key(entries, entries[i].0@),
        index_of(entries, entries[i].0@) == i,
{
    assert(has_key(entries, entries[i].0@));
}

/// Whether a node of this form accepts `null` in place of its own value.
pub open spec fn is_nullable(f: Form) -> bool {
    match f {
        Form::Empty => false,
        Form::Ref { nullable, .. } => nullable,
        Form::Type { nullable, .. } => nullable,
        Form::Enum { nullable, .. } => nullable,
        Form::Elements { nullable, .. } => nullable,
        Form::Properties { nullable, .. } => nullable,
        Form::Values { nullable, .. } => nullable,
        Form::Discriminator { nullable, .. } => nullable,
    }
}

/// The member names of a `properties` node are distinct, and no name is both
/// required and optional.
pub open spec fn members_wf(required: Seq<(String, Schema)>, optional: Seq<(String, Schema)>) -> bool {
    &&& keys_unique(required)
    &&& keys_unique(optional)
    &&& forall|i: int| 0 <= i < required.len() ==> !has_key(optional, (#[trigger] required[i]).0@)
}

/// A node of a discriminator's mapping: a non-nullable `properties` node that
/// does not itself name the tag member.
pub open spec fn mapping_entry_wf(tag: Seq<char>, s: Schema) -> bool {
    match s.form {
        Form::Properties { nullable, required, optional, .. } => {
            &&& !nullable
            &&& !has_key(required@, tag)
            &&& !has_key(optional@, tag)
        },
        _ => false,
    }
}

/// The node `s` is well formed against the definitions `defs`: every `ref`
/// names a definition, every mapping has distinct names, every `enum` and
/// every discriminator mapping is non-empty, and each mapping entry of a
/// discriminator is a `properties` node as `mapping_entry_wf` says.
pub open spec fn node_wf(defs: Seq<(String, Schema)>, s: Schema) -> bool
    decreases s,
{
    match s.form {
        Form::Empty => true,
        Form::Ref { name, .. } => has_key(defs, name@),
        Form::Type { .. } => true,
        Form::Enum { values, .. } => values.len() > 0,
        Form::Elements { elements, .. } => node_wf(defs, *elements),
        Form::Properties { required, optional, .. } => {
            &&& members_wf(required@, optional@)
            &&& forall|i: int|
                0 <= i < required.len() ==> {
                    proof {
                        assert(decreases_to!(required => required[i]));
                    }
                    node_wf(defs, (#[trigger] required[i]).1)
                }
            &&& forall|i: int|
                0 <= i < optional.len() ==> {
                    proof {
                        assert(decreases_to!(optional => optional[i]));
                    }
                    node_wf(defs, (#[trigger] optional[i]).1)
                }
        },
        Form::Values { values, .. } => node_wf(defs, *values),
        Form::Discriminator { tag, mapping, .. } => {
            &&& mapping.len() > 0
            &&& keys_unique(mapping@)
            &&& forall|i: int|
                0 <= i < mapping.len() ==> {
                    proof {
                        assert(decreases_to!(mapping => mapping[i]));
                    }
                    &&& mapping_entry_wf(tag@, (#[trigger] mapping[i]).1)
                    &&& node_wf(defs, mapping[i].1)
                }
        },
    }
}

impl Schema {
    /// Whether this node accepts `null` in place of its own value.
    pub fn nullable(&self) -> (r: bool)
        ensures
            r == is_nullable(self.form),
    {
        match &self.form {
            Form::Empty => false,
            Form::Ref { nullable, .. } => *nullable,
            Form::Type { nullable, .. } => *nullable,
            Form::Enum { nullable, .. } => *nullable,
            Form::Elements { nullable, .. } => *nullable,
            Form::Properties { nullable, .. } => *nullable,
            Form::Values { nullable, .. } => *nullable,
            Form::Discriminator { nullable, .. } => *nullable,
        }
    }
}

/// The position of the entry named `name`, which is there.
pub fn position_of<T>(entries: &Vec<(String, T)>, name: &String) -> (r: usize)
    requires
        keys_unique(entries@),
        has_key(entries@, name@),
    ensures
        r < entries.len(),
        r == index_of(entries@, name@),
{
    let n = entries.len();
    let mut i: usize = 0;
    while i < n
        invariant
            n == entries.len(),
            i <= n,
            keys_unique(entries@),
            has_key(entries@, name@),
            forall|j: int| 0 <= j < i ==> (#[trigger] entries@[j]).0@ != name@,
        decreases n - i,
    {
        if entries[i].0 == *name {
            proof {
                lemma_index_of_unique(entries@, i as int);
            }
            return i;
        }
        i += 1;
    }
    proof {
        let k = index_of(entries@, name@);
        assert(entries@[k].0@ == name@);
    }
    unreached()
}

impl RootSchema {
    /// The definitions have distinct names, and they and the top-level node
    /// are well formed against them.
    pub open spec fn wf(self) -> bool {
        &&& keys_unique(self.definitions@)
        &&& forall|i: int|
            0 <= i < self.definitions.len() ==> node_wf(
                self.definitions@,
                (#[trigger] self.definitions@[i]).1,
            )
        &&& node_wf(self.definitions@, self.schema)
    }

    /// The definition that a `ref` to `name` resolves to.
    pub open spec fn definition(self, name: Seq<char>) -> Schema {
        self.definitions@[index_of(self.definitions@, name)].1
    }
}

/// Whether some entry of `entries` is named `name`.
pub fn contains_key<T>(entries: &Vec<(String, T)>, name: &String) -> (r: bool)
    ensures
        r == has_key(entries@, name@),
{
    let n = entries.len();
    let mut i: usize = 0;
    while i < n
        invariant
            n == entries.len(),
            i <= n,
            forall|j: int| 0 <= j < i ==> (#[trigger] entries@[j]).0@ != name@,
        decreases n - i,
    {
        if entries[i].0 == *name {
            return true;
        }
        i += 1;
    }
    false
}

/// Whether the entries of `entries` have distinct names.
pub fn distinct_keys<T>(entries: &Vec<(String, T)>) -> (r: bool)
    ensures
        r == keys_unique(entries@),
{
    let n = entries.len();
    let mut i: usize = 0;
    while i < n
        invariant
            n == entries.len(),
            i <= n,
            forall|a: int, b: int|
                0 <= a < i && 0 <= b < n && a != b ==> (#[trigger] entries@[a]).0@
                    != (#[trigger] entries@[b]).0@,
        decreases n - i,
    {
        let mut j: usize = 0;
        while j < n
            invariant
                n == entries.len(),
                i < n,
                j <= n,
                forall|a: int, b: int|
                    0 <= a < i && 0 <= b < n && a != b ==> (#[trigger] entries@[a]).0@
                        != (#[trigger] entries@[b]).0@,
                forall|b: int| 0 <= b < j && b != i ==> (#[trigger] entries@[b]).0@ != entries@[i as int].0@,
            decreases n - j,
        {
            if j != i && entries[j].0 == entries[i].0 {
                assert(!keys_unique(entries@)) by {
                    assert(entries@[i as int].0@ == entries@[j as int].0@);
                }
                return false;
            }
            j += 1;
        }
        i += 1;
    }
    true
}

/// Whether the members of a `properties` node are as `members_wf` says.
fn members_are_wf(required: &Vec<(String, Schema)>, optional: &Vec<(String, Schema)>) -> (r: bool)
    ensures
        r == members_wf(required@, optional@),
{
    if !distinct_keys(required) || !distinct_keys(optional) {
        return false;
    }
    let mut i: usize = 0;
    while i < required.len()
        invariant
            i <= required.len(),
            forall|j: int| 0 <= j < i ==> !has_key(optional@, (#[trigger] required@[j]).0@),
        decreases required.len() - i,
    {
        if contains_key(optional, &required[i].0) {
            return false;
        }
        i += 1;
    }
    true
}

/// Whether `s` is a node that a discriminator's mapping may hold.
fn is_mapping_entry(tag: &String, s: &Schema) -> (r: bool)
    ensures
        r == mapping_entry_wf(tag@, *s),
{
    match &s.form {
        Form::Properties { nullable, required, optional, .. } => {
            !*nullable && !contains_key(required, tag) && !contains_key(optional, tag)
        },
        _ => false,
    }
}

/// Whether every node of `entries` is well formed against `defs`.
fn nodes_are_wf(defs: &Vec<(String, Schema)>, entries: &Vec<(String, Schema)>) -> (r: bool)
    ensures
        r == forall|i: int| 0 <= i < entries.len() ==> node_wf(defs@, (#[trigger] entries@[i]).1),
    decreases entries, 0int,
{
    let mut i: usize = 0;
    while i < entries.len()
        invariant
            i <= entries.len(),
            forall|j: int| 0 <= j < i ==> node_wf(defs@, (#[trigger] entries@[j]).1),
        decreases entries.len() - i,
    {
        proof {
            assert(decreases_to!(entries => entries@[i as int]));
        }
        if !node_is_wf(defs, &entries[i].1) {
            return false;
        }
        i += 1;
    }
    true
}

/// Whether the node `s` is well formed against `defs`, as `node_wf` says.
pub fn node_is_wf(defs: &Vec<(String, Schema)>, s: &Schema) -> (r: bool)
    ensures
        r == node_wf(defs@, *s),
    decreases s, 1int,
{
    match &s.form {
        Form::Empty => true,
        Form::Ref { name, .. } => contains_key(defs, name),
        Form::Type { .. } => true,
        Form::Enum { values, .. } => values.len() > 0,
        Form::Elements { elements, .. } => node_is_wf(defs, elements),
        Form::Properties { required, optional, .. } => {
            members_are_wf(required, optional) && nodes_are_wf(defs, required) && nodes_are_wf(
                defs,
                optional,
            )
        },
        Form::Values { values, .. } => node_is_wf(defs, values),
        Form::Discriminator { tag, mapping, .. } => {
            if mapping.len() == 0 || !distinct_keys(mapping) {
                return false;
            }
            let mut i: usize = 0;
            while i < mapping.len()
                invariant
                    s.form is Discriminator,
                    s.form->tag == *tag,
                    s.form->mapping == *mapping,
                    i <= mapping.len(),
                    forall|j: int|
                        0 <= j < i ==> mapping_entry_wf(tag@, (#[trigger] mapping@[j]).1),
                decreases mapping.len() - i,
            {
                if !is_mapping_entry(tag, &mapping[i].1) {
                    proof {
                        assert(!mapping_entry_wf(tag@, mapping[i as int].1));
                    }
                    return false;
                }
                i += 1;
            }
            nodes_are_wf(defs, mapping)
        },
    }
}

impl RootSchema {
    /// Whether the schema is well formed, as `wf` says.
    pub fn is_well_formed(&self) -> (r: bool)
        ensures
            r == self.wf(),
    {
        distinct_keys(&self.definitions) && nodes_are_wf(&self.definitions, &self.definitions)
            && node_is_wf(&self.definitions, &self.schema)
    }
}

} // verus!
