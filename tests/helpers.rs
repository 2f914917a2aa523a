use jtd_fuzz::{
    fuzz_string, insert_member, name_less, sorted_order, str_eq, FuzzHint, Schema, Form, Value,
};
use rand::SeedableRng;

#[test]
fn generic_strings_are_short_printable_ascii() {
    let mut rng = rand_pcg::Pcg32::seed_from_u64(1);
    let mut lengths = std::collections::BTreeSet::new();
    for _ in 0..2000 {
        let s = fuzz_string(&mut rng);
        assert!(s.chars().all(|c| (' '..='~').contains(&c)));
        lengths.insert(s.chars().count());
    }
    assert_eq!(lengths, (0..=8).collect());
}

#[test]
fn names_compare_lexicographically() {
    assert!(name_less("a", "b"));
    assert!(name_less("", "a"));
    assert!(name_less("ab", "abc"));
    assert!(name_less("B", "a"));
    assert!(!name_less("b", "a"));
    assert!(!name_less("a", "a"));
}

#[test]
fn sorted_order_sorts_by_name() {
    let leaf = || Schema { metadata: vec![], form: Form::Empty };
    let entries = vec![
        ("delta".to_owned(), leaf()),
        ("alpha".to_owned(), leaf()),
        ("charlie".to_owned(), leaf()),
        ("bravo".to_owned(), leaf()),
    ];
    assert_eq!(sorted_order(&entries), vec![1, 3, 2, 0]);
}

#[test]
fn insert_member_replaces_or_appends() {
    let mut m = vec![("a".to_owned(), Value::Int(1)), ("b".to_owned(), Value::Int(2))];
    insert_member(&mut m, "a".to_owned(), Value::Int(3));
    insert_member(&mut m, "c".to_owned(), Value::Null);
    let keys: Vec<&str> = m.iter().map(|(k, _)| k.as_str()).collect();
    assert_eq!(keys, vec!["a", "b", "c"]);
    assert!(matches!(m[0].1, Value::Int(3)));
    assert!(matches!(m[2].1, Value::Null));
}

#[test]
fn str_eq_compares_characters() {
    assert!(str_eq("fuzzHint", "fuzzHint"));
    assert!(!str_eq("fuzzHint", "fuzzhint"));
    assert!(!str_eq("ab", "abc"));
    assert!(str_eq("", ""));
}

#[test]
fn hint_tags_round_trip() {
    assert_eq!(FuzzHint::from_tag("lorem/word"), Some(FuzzHint::LoremWord));
    assert_eq!(FuzzHint::from_tag("fr_fr/phones/phone_number"), Some(FuzzHint::FrFrPhoneNumber));
    assert_eq!(FuzzHint::from_tag("en_us/addresses/division_abbreviation"), Some(FuzzHint::EnUsDivisionAbbreviation));
    assert_eq!(FuzzHint::from_tag("lorem/words"), None);
    assert_eq!(FuzzHint::EnUsEmail.tag(), "en_us/internet/email");
}

#[test]
fn hint_is_read_from_metadata() {
    let s = Schema {
        metadata: vec![
            ("other".to_owned(), "lorem/word".to_owned()),
            ("fuzzHint".to_owned(), "en_us/names/first_name".to_owned()),
        ],
        form: Form::Type { nullable: false, type_: jtd_fuzz::Type::String },
    };
    assert_eq!(jtd_fuzz::hint_of(&s), Some(FuzzHint::EnUsFirstName));
    let plain = Schema { metadata: vec![], form: Form::Empty };
    assert_eq!(jtd_fuzz::hint_of(&plain), None);
}
