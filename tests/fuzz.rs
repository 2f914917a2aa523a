use jtd_fuzz::{fuzz, Form, FuzzError, RootSchema, Schema, Type, Value};
use rand::SeedableRng;

fn convert_type(t: &jtd::Type) -> Type {
    match t {
        jtd::Type::Boolean => Type::Boolean,
        jtd::Type::Int8 => Type::Int8,
        jtd::Type::Uint8 => Type::Uint8,
        jtd::Type::Int16 => Type::Int16,
        jtd::Type::Uint16 => Type::Uint16,
        jtd::Type::Int32 => Type::Int32,
        jtd::Type::Uint32 => Type::Uint32,
        jtd::Type::Float32 => Type::Float32,
        jtd::Type::Float64 => Type::Float64,
        jtd::Type::String => Type::String,
        jtd::Type::Timestamp => Type::Timestamp,
    }
}

fn convert_entries(entries: &std::collections::BTreeMap<String, jtd::Schema>) -> Vec<(String, Schema)> {
    entries.iter().map(|(k, v)| (k.clone(), convert_node(v))).collect()
}

fn convert_node(s: &jtd::Schema) -> Schema {
    let metadata = s
        .metadata()
        .iter()
        .filter_map(|(k, v)| v.as_str().map(|t| (k.clone(), t.to_owned())))
        .collect();
    let form = match s {
        jtd::Schema::Empty { .. } => Form::Empty,
        jtd::Schema::Ref { nullable, ref_, .. } => Form::Ref { nullable: *nullable, name: ref_.clone() },
        jtd::Schema::Type { nullable, type_, .. } => {
            Form::Type { nullable: *nullable, type_: convert_type(type_) }
        }
        jtd::Schema::Enum { nullable, enum_, .. } => {
            Form::Enum { nullable: *nullable, values: enum_.iter().cloned().collect() }
        }
        jtd::Schema::Elements { nullable, elements, .. } => {
            Form::Elements { nullable: *nullable, elements: Box::new(convert_node(elements)) }
        }
        jtd::Schema::Properties {
            nullable,
            properties,
            optional_properties,
            additional_properties,
            ..
        } => Form::Properties {
            nullable: *nullable,
            required: convert_entries(properties),
            optional: convert_entries(optional_properties),
            additional: *additional_properties,
        },
        jtd::Schema::Values { nullable, values, .. } => {
            Form::Values { nullable: *nullable, values: Box::new(convert_node(values)) }
        }
        jtd::Schema::Discriminator { nullable, discriminator, mapping, .. } => Form::Discriminator {
            nullable: *nullable,
            tag: discriminator.clone(),
            mapping: convert_entries(mapping),
        },
    };
    Schema { metadata, form }
}

fn parse(text: &str) -> (jtd::Schema, RootSchema) {
    let serde_schema: jtd::SerdeSchema = serde_json::from_str(text).unwrap();
    let schema = jtd::Schema::from_serde_schema(serde_schema).unwrap();
    schema.validate().unwrap();
    let root = RootSchema { definitions: convert_entries(schema.definitions()), schema: convert_node(&schema) };
    assert!(root.is_well_formed());
    (schema, root)
}

fn to_json(v: &Value) -> serde_json::Value {
    match v {
        Value::Null => serde_json::Value::Null,
        Value::Bool(b) => serde_json::Value::from(*b),
        Value::Int(i) => serde_json::Value::from(*i),
        Value::Dyadic { mantissa, scale } => {
            serde_json::Value::from(*mantissa as f64 / 2f64.powi(*scale as i32))
        }
        Value::Str(s) => serde_json::Value::from(s.clone()),
        Value::Array(items) => serde_json::Value::Array(items.iter().map(to_json).collect()),
        Value::Object(m) => serde_json::Value::Object(
            m.iter().map(|(k, v)| (k.clone(), to_json(v))).collect(),
        ),
    }
}

fn seeded() -> rand_pcg::Pcg32 {
    rand_pcg::Pcg32::seed_from_u64(8927)
}

fn assert_valid_fuzz(text: &str) {
    let mut rng = seeded();
    let (schema, root) = parse(text);
    for _ in 0..1000 {
        let instance = to_json(&fuzz(&root, &mut rng).unwrap());
        let errors = jtd::validate(&schema, &instance, Default::default()).unwrap();
        assert!(errors.is_empty(), "{}", instance);
    }
}

#[test]
fn test_fuzz_empty() {
    assert_valid_fuzz(r#"{}"#);
}

#[test]
fn test_fuzz_ref() {
    assert_valid_fuzz(
        r#"{
            "definitions": {
                "a": { "type": "timestamp" },
                "b": { "type": "timestamp", "nullable": true },
                "c": { "ref": "b" }
            },
            "properties": {
                "a": { "ref": "a" },
                "b": { "ref": "b" },
                "c": { "ref": "c" }
            }
        }"#,
    );
}

#[test]
fn test_fuzz_type() {
    assert_valid_fuzz(r#"{ "type": "boolean" }"#);
    assert_valid_fuzz(r#"{ "type": "boolean", "nullable": true }"#);
    assert_valid_fuzz(r#"{ "type": "float32" }"#);
    assert_valid_fuzz(r#"{ "type": "float32", "nullable": true }"#);
    assert_valid_fuzz(r#"{ "type": "float64" }"#);
    assert_valid_fuzz(r#"{ "type": "float64", "nullable": true }"#);
    assert_valid_fuzz(r#"{ "type": "int8" }"#);
    assert_valid_fuzz(r#"{ "type": "int8", "nullable": true }"#);
    assert_valid_fuzz(r#"{ "type": "uint8" }"#);
    assert_valid_fuzz(r#"{ "type": "uint8", "nullable": true }"#);
    assert_valid_fuzz(r#"{ "type": "uint16" }"#);
    assert_valid_fuzz(r#"{ "type": "uint16", "nullable": true }"#);
    assert_valid_fuzz(r#"{ "type": "uint32" }"#);
    assert_valid_fuzz(r#"{ "type": "uint32", "nullable": true }"#);
    assert_valid_fuzz(r#"{ "type": "string" }"#);
    assert_valid_fuzz(r#"{ "type": "string", "nullable": true }"#);
    assert_valid_fuzz(r#"{ "type": "timestamp" }"#);
    assert_valid_fuzz(r#"{ "type": "timestamp", "nullable": true }"#);
}

#[test]
fn test_fuzz_enum() {
    assert_valid_fuzz(r#"{ "enum": ["a", "b", "c" ]}"#);
    assert_valid_fuzz(r#"{ "enum": ["a", "b", "c" ], "nullable": true }"#);
}

#[test]
fn test_fuzz_elements() {
    assert_valid_fuzz(r#"{ "elements": { "type": "uint8" }}"#);
    assert_valid_fuzz(r#"{ "elements": { "type": "uint8" }, "nullable": true }"#);
}

#[test]
fn test_fuzz_properties() {
    assert_valid_fuzz(
        r#"{
            "properties": {
                "a": { "type": "uint8" },
                "b": { "type": "string" }
            },
            "optionalProperties": {
                "c": { "type": "uint32" },
                "d": { "type": "timestamp" }
            },
            "additionalProperties": true,
            "nullable": true
        }"#,
    );
}

#[test]
fn test_fuzz_values() {
    assert_valid_fuzz(r#"{ "values": { "type": "uint8" }}"#);
    assert_valid_fuzz(r#"{ "values": { "type": "uint8" }, "nullable": true }"#);
}

#[test]
fn test_fuzz_discriminator() {
    assert_valid_fuzz(
        r#"{
            "discriminator": "version",
            "mapping": {
                "v1": {
                    "properties": {
                        "foo": { "type": "string" },
                        "bar": { "type": "timestamp" }
                    }
                },
                "v2": {
                    "properties": {
                        "foo": { "type": "uint8" },
                        "bar": { "type": "float32" }
                    }
                }
            },
            "nullable": true
        }"#,
    );
}

#[test]
fn same_seed_gives_same_values() {
    let (_, root) = parse(
        r#"{
            "properties": {
                "name": { "type": "string" },
                "when": { "type": "timestamp" },
                "tags": { "elements": { "type": "string" } },
                "extra": {}
            },
            "optionalProperties": { "note": { "type": "string", "metadata": { "fuzzHint": "lorem/sentence" } } },
            "additionalProperties": true
        }"#,
    );
    let mut a = seeded();
    let mut b = seeded();
    for _ in 0..200 {
        let x = to_json(&fuzz(&root, &mut a).unwrap()).to_string();
        let y = to_json(&fuzz(&root, &mut b).unwrap()).to_string();
        assert_eq!(x, y);
    }
}

#[test]
fn uint8_values_stay_in_range_and_repeat_after_reseeding() {
    let (schema, root) = parse(r#"{"type":"uint8"}"#);
    let mut rng = seeded();
    let first: Vec<i64> = (0..1000)
        .map(|_| match fuzz(&root, &mut rng).unwrap() {
            Value::Int(i) => i,
            _ => panic!("not an integer"),
        })
        .collect();
    assert!(first.iter().all(|i| (0..=255).contains(i)));
    let mut rng = seeded();
    for expected in &first {
        let v = fuzz(&root, &mut rng).unwrap();
        let json = to_json(&v);
        assert!(jtd::validate(&schema, &json, Default::default()).unwrap().is_empty());
        assert!(matches!(v, Value::Int(i) if i == *expected));
    }
}

fn printable(s: &str) -> bool {
    s.chars().all(|c| (' '..='~').contains(&c))
}

#[test]
fn generated_sizes_stay_bounded() {
    let (_, root) = parse(
        r#"{
            "properties": {
                "s": { "type": "string" },
                "e": { "elements": { "type": "uint8" } },
                "v": { "values": { "type": "boolean" } }
            }
        }"#,
    );
    let mut rng = seeded();
    let (mut longest_s, mut longest_e, mut longest_v) = (0, 0, 0);
    for _ in 0..2000 {
        let json = to_json(&fuzz(&root, &mut rng).unwrap());
        let s = json["s"].as_str().unwrap();
        assert!(printable(s));
        longest_s = longest_s.max(s.chars().count());
        longest_e = longest_e.max(json["e"].as_array().unwrap().len());
        longest_v = longest_v.max(json["v"].as_object().unwrap().len());
    }
    assert_eq!(longest_s, 8);
    assert_eq!(longest_e, 8);
    assert!(longest_v <= 8);
    assert!(longest_v >= 6);
}

#[test]
fn required_members_always_present() {
    let (_, root) = parse(
        r#"{
            "properties": { "a": { "type": "boolean" }, "b": { "type": "int16" } },
            "optionalProperties": { "c": { "type": "uint16" } }
        }"#,
    );
    let mut rng = seeded();
    let mut with_c = 0;
    for _ in 0..500 {
        let json = to_json(&fuzz(&root, &mut rng).unwrap());
        let obj = json.as_object().unwrap();
        assert!(obj["a"].is_boolean());
        assert!(obj["b"].is_i64());
        assert!(obj.keys().all(|k| k == "a" || k == "b" || k == "c"));
        if obj.contains_key("c") {
            with_c += 1;
        }
    }
    assert!(with_c > 0 && with_c < 500);
}

#[test]
fn extra_members_avoid_member_names_in_any_case() {
    let letters: Vec<String> = ('A'..='Z').map(|c| format!("\"{}\": {{}}", c)).collect();
    let text = format!(
        r#"{{ "optionalProperties": {{ {} }}, "additionalProperties": true }}"#,
        letters.join(", ")
    );
    let (schema, root) = parse(&text);
    let mut rng = seeded();
    let mut extras = 0;
    for _ in 0..1000 {
        let json = to_json(&fuzz(&root, &mut rng).unwrap());
        assert!(jtd::validate(&schema, &json, Default::default()).unwrap().is_empty());
        for k in json.as_object().unwrap().keys() {
            let is_member = k.len() == 1 && k.chars().all(|c| c.is_ascii_uppercase());
            if !is_member {
                extras += 1;
                assert!(printable(k));
                assert!(k.chars().count() <= 8);
                assert!(!is_container(&json[k.as_str()]));
                let folded = k.to_lowercase();
                assert!(!('a'..='z').any(|c| folded == c.to_string()), "{}", k);
            }
        }
    }
    assert!(extras > 0);
}

#[test]
fn discriminator_member_names_the_branch() {
    let text = r#"{
        "discriminator": "kind",
        "mapping": {
            "num": { "properties": { "n": { "type": "uint8" } } },
            "txt": { "properties": { "t": { "type": "string" } }, "additionalProperties": true }
        }
    }"#;
    let (schema, root) = parse(text);
    let mut rng = seeded();
    let mut seen = std::collections::BTreeSet::new();
    for _ in 0..500 {
        let json = to_json(&fuzz(&root, &mut rng).unwrap());
        assert!(jtd::validate(&schema, &json, Default::default()).unwrap().is_empty());
        let kind = json["kind"].as_str().unwrap().to_owned();
        match kind.as_str() {
            "num" => assert!(json["n"].is_u64()),
            "txt" => assert!(json["t"].is_string()),
            other => panic!("unexpected tag {}", other),
        }
        seen.insert(kind);
    }
    assert_eq!(seen.len(), 2);
}

#[test]
fn hinted_strings_use_the_hinted_generator() {
    let (_, root) = parse(
        r#"{ "type": "string", "metadata": { "fuzzHint": "en_us/internet/email" } }"#,
    );
    let mut rng = seeded();
    for _ in 0..100 {
        match fuzz(&root, &mut rng).unwrap() {
            Value::Str(s) => assert!(!s.is_empty() && s.contains('@'), "{}", s),
            _ => panic!("not a string"),
        }
    }
}

#[test]
fn unknown_hints_fall_back_to_generic_strings() {
    let (_, root) = parse(r#"{ "type": "string", "metadata": { "fuzzHint": "no/such/hint" } }"#);
    let mut rng = seeded();
    for _ in 0..200 {
        match fuzz(&root, &mut rng).unwrap() {
            Value::Str(s) => assert!(s.chars().count() <= 8 && printable(&s)),
            _ => panic!("not a string"),
        }
    }
}

#[test]
fn timestamps_parse_with_bounded_offsets() {
    let (_, root) = parse(r#"{ "type": "timestamp" }"#);
    let mut rng = seeded();
    for _ in 0..500 {
        match fuzz(&root, &mut rng).unwrap() {
            Value::Str(s) => {
                let t = chrono::DateTime::parse_from_rfc3339(&s).unwrap();
                assert!(t.offset().local_minus_utc().abs() <= 14 * 3600);
            }
            _ => panic!("not a string"),
        }
    }
}

#[test]
fn endless_references_exceed_the_depth() {
    let (_, root) = parse(r#"{ "definitions": { "loop": { "ref": "loop" } }, "ref": "loop" }"#);
    let mut rng = seeded();
    assert!(matches!(fuzz(&root, &mut rng), Err(FuzzError::DepthExceeded)));
}

#[test]
fn empty_discriminator_mapping_is_not_well_formed() {
    let root = RootSchema {
        definitions: vec![],
        schema: Schema {
            metadata: vec![],
            form: Form::Discriminator { nullable: false, tag: "k".to_owned(), mapping: vec![] },
        },
    };
    assert!(!root.is_well_formed());
}

#[test]
fn dangling_reference_is_not_well_formed() {
    let root = RootSchema {
        definitions: vec![],
        schema: Schema { metadata: vec![], form: Form::Ref { nullable: true, name: "x".to_owned() } },
    };
    assert!(!root.is_well_formed());
}

#[test]
fn repeated_member_is_not_well_formed() {
    let leaf = || Schema { metadata: vec![], form: Form::Empty };
    let root = RootSchema {
        definitions: vec![],
        schema: Schema {
            metadata: vec![],
            form: Form::Properties {
                nullable: false,
                required: vec![("a".to_owned(), leaf())],
                optional: vec![("a".to_owned(), leaf())],
                additional: false,
            },
        },
    };
    assert!(!root.is_well_formed());
}

fn is_container(v: &serde_json::Value) -> bool {
    v.is_array() || v.is_object()
}

#[test]
fn empty_schema_nests_containers_only_once() {
    let (_, root) = parse(r#"{}"#);
    let mut rng = seeded();
    let mut kinds = std::collections::BTreeSet::new();
    for _ in 0..3000 {
        let json = to_json(&fuzz(&root, &mut rng).unwrap());
        let kind = match &json {
            serde_json::Value::Null => "null",
            serde_json::Value::Bool(_) => "bool",
            serde_json::Value::Number(n) if n.is_u64() => "byte",
            serde_json::Value::Number(_) => "fraction",
            serde_json::Value::String(_) => "string",
            serde_json::Value::Array(items) => {
                assert!(items.len() <= 8 && !items.iter().any(is_container));
                "array"
            }
            serde_json::Value::Object(m) => {
                assert!(m.len() <= 8 && !m.values().any(is_container));
                "object"
            }
        };
        kinds.insert(kind);
    }
    assert_eq!(kinds.len(), 7);
    let (_, inner) = parse(r#"{ "elements": {} }"#);
    for _ in 0..500 {
        let json = to_json(&fuzz(&inner, &mut rng).unwrap());
        assert!(!json.as_array().unwrap().iter().any(is_container));
    }
}

#[test]
fn inner_nodes_generate_on_their_own() {
    let (_, root) = parse(
        r#"{ "definitions": { "n": { "type": "int8" } }, "elements": { "ref": "n" } }"#,
    );
    let inner = match &root.schema.form {
        Form::Elements { elements, .. } => elements,
        _ => panic!("not an elements node"),
    };
    let mut rng = seeded();
    for _ in 0..200 {
        match jtd_fuzz::generate::fuzz_node(&root, &mut rng, inner, false, jtd_fuzz::MAX_DEPTH) {
            Ok(Value::Int(i)) => assert!((-128..=127).contains(&i)),
            _ => panic!("not an int8"),
        }
    }
    assert!(matches!(
        jtd_fuzz::generate::fuzz_node(&root, &mut rng, inner, false, 1),
        Err(FuzzError::DepthExceeded)
    ));
}
