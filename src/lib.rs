//! Generates random JSON values that satisfy a JSON Type Definition schema.
//!
//! [`fuzz`] walks a [`RootSchema`] depth first and draws every random choice
//! from a seeded PCG32 generator, so a seed reproduces its value. Each value
//! it returns satisfies the schema (`accept::conforms`) and keeps to the size
//! and alphabet limits of `accept::within_limits`.
pub mod accept;
pub mod draw;
pub mod generate;
pub mod hint;
pub mod order;
pub mod schema;
pub mod text;
pub mod timestamp;
pub mod value;

pub use generate::{fuzz, FuzzError, MAX_DEPTH};
pub use hint::{fake_text, hint_of, FuzzHint, FUZZ_HINT_KEY};
pub use order::{name_less, sorted_order};
pub use schema::{contains_key, distinct_keys, node_is_wf, position_of, Form, RootSchema, Schema, Type};
pub use text::{fuzz_string, str_eq, MAX_SEQ_LENGTH, PRINTABLE_FIRST, PRINTABLE_LAST};
pub use timestamp::{fuzz_timestamp, MAX_OFFSET_SECONDS};
pub use value::{insert_member, Value};
