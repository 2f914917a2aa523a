use vstd::prelude::*;
use rand::Rng;
use crate::schema::Schema;
use crate::text::str_eq;

verus! {

/// The metadata key whose value, on a string-typed node, picks a generator of
/// realistic text instead of the generic string rule.
pub const FUZZ_HINT_KEY: &'static str = "fuzzHint";

/// The recognised values of the fuzz hint, one per kind of text.
#[derive(Clone, Copy, Debug, PartialEq, Eq, Structural)]
pub enum FuzzHint {
    EnUsAddress,
    EnUsCityName,
    EnUsDivision,
    EnUsDivisionAbbreviation,
    EnUsPostalCode,
    EnUsSecondaryAddress,
    EnUsStreetAddress,
    EnUsStreetName,
    EnUsCompanyName,
    EnUsSlogan,
    EnUsDomain,
    EnUsEmail,
    EnUsUsername,
    EnUsFirstName,
    EnUsFullName,
    EnUsLastName,
    EnUsNamePrefix,
    EnUsNameSuffix,
    EnUsPhoneNumber,
    FrFrAddress,
    FrFrCityName,
    FrFrDivision,
    FrFrPostalCode,
    FrFrSecondaryAddress,
    FrFrStreetAddress,
    FrFrStreetName,
    FrFrCompanyName,
    FrFrDomain,
    FrFrEmail,
    FrFrUsername,
    FrFrFirstName,
    FrFrFullName,
    FrFrLastName,
    FrFrNamePrefix,
    FrFrPhoneNumber,
    LoremWord,
    LoremSentence,
    LoremParagraph,
    LoremParagraphs,
}

impl FuzzHint {
    /// The hint value that selects this kind of text.
    pub open spec fn tag_view(self) -> Seq<char> {
        match self {
            FuzzHint::EnUsAddress => "en_us/addresses/address"@,
            FuzzHint::EnUsCityName => "en_us/addresses/city_name"@,
            FuzzHint::EnUsDivision => "en_us/addresses/division"@,
            FuzzHint::EnUsDivisionAbbreviation => "en_us/addresses/division_abbreviation"@,
            FuzzHint::EnUsPostalCode => "en_us/addresses/postal_code"@,
            FuzzHint::EnUsSecondaryAddress => "en_us/addresses/secondary_address"@,
            FuzzHint::EnUsStreetAddress => "en_us/addresses/street_address"@,
            FuzzHint::EnUsStreetName => "en_us/addresses/street_name"@,
            FuzzHint::EnUsCompanyName => "en_us/company/company_name"@,
            FuzzHint::EnUsSlogan => "en_us/company/slogan"@,
            FuzzHint::EnUsDomain => "en_us/internet/domain"@,
            FuzzHint::EnUsEmail => "en_us/internet/email"@,
            FuzzHint::EnUsUsername => "en_us/internet/username"@,
            FuzzHint::EnUsFirstName => "en_us/names/first_name"@,
            FuzzHint::EnUsFullName => "en_us/names/full_name"@,
            FuzzHint::EnUsLastName => "en_us/names/last_name"@,
            FuzzHint::EnUsNamePrefix => "en_us/names/name_prefix"@,
            FuzzHint::EnUsNameSuffix => "en_us/names/name_suffix"@,
            FuzzHint::EnUsPhoneNumber => "en_us/phones/phone_number"@,
            FuzzHint::FrFrAddress => "fr_fr/addresses/address"@,
            FuzzHint::FrFrCityName => "fr_fr/addresses/city_name"@,
            FuzzHint::FrFrDivision => "fr_fr/addresses/division"@,
            FuzzHint::FrFrPostalCode => "fr_fr/addresses/postal_code"@,
            FuzzHint::FrFrSecondaryAddress => "fr_fr/addresses/secondary_address"@,
            FuzzHint::FrFrStreetAddress => "fr_fr/addresses/street_address"@,
            FuzzHint::FrFrStreetName => "fr_fr/addresses/street_name"@,
            FuzzHint::FrFrCompanyName => "fr_fr/company/company_name"@,
            FuzzHint::FrFrDomain => "fr_fr/internet/domain"@,
            FuzzHint::FrFrEmail => "fr_fr/internet/email"@,
            FuzzHint::FrFrUsername => "fr_fr/internet/username"@,
            FuzzHint::FrFrFirstName => "fr_fr/names/first_name"@,
            FuzzHint::FrFrFullName => "fr_fr/names/full_name"@,
            FuzzHint::FrFrLastName => "fr_fr/names/last_name"@,
            FuzzHint::FrFrNamePrefix => "fr_fr/names/name_prefix"@,
            FuzzHint::FrFrPhoneNumber => "fr_fr/phones/phone_number"@,
            FuzzHint::LoremWord => "lorem/word"@,
            FuzzHint::LoremSentence => "lorem/sentence"@,
            FuzzHint::LoremParagraph => "lorem/paragraph"@,
            FuzzHint::LoremParagraphs => "lorem/paragraphs"@,
        }
    }

    /// The hint value that selects this kind of text.
    pub fn tag(&self) -> (r: &'static str)
        ensures
            r@ == self.tag_view(),
    {
        match self {
            FuzzHint::EnUsAddress => "en_us/addresses/address",
            FuzzHint::EnUsCityName => "en_us/addresses/city_name",
            FuzzHint::EnUsDivision => "en_us/addresses/division",
            FuzzHint::EnUsDivisionAbbreviation => "en_us/addresses/division_abbreviation",
            FuzzHint::EnUsPostalCode => "en_us/addresses/postal_code",
            FuzzHint::EnUsSecondaryAddress => "en_us/addresses/secondary_address",
            FuzzHint::EnUsStreetAddress => "en_us/addresses/street_address",
            FuzzHint::EnUsStreetName => "en_us/addresses/street_name",
            FuzzHint::EnUsCompanyName => "en_us/company/company_name",
            FuzzHint::EnUsSlogan => "en_us/company/slogan",
            FuzzHint::EnUsDomain => "en_us/internet/domain",
            FuzzHint::EnUsEmail => "en_us/internet/email",
            FuzzHint::EnUsUsername => "en_us/internet/username",
            FuzzHint::EnUsFirstName => "en_us/names/first_name",
            FuzzHint::EnUsFullName => "en_us/names/full_name",
            FuzzHint::EnUsLastName => "en_us/names/last_name",
            FuzzHint::EnUsNamePrefix => "en_us/names/name_prefix",
            FuzzHint::EnUsNameSuffix => "en_us/names/name_suffix",
            FuzzHint::EnUsPhoneNumber => "en_us/phones/phone_number",
            FuzzHint::FrFrAddress => "fr_fr/addresses/address",
            FuzzHint::FrFrCityName => "fr_fr/addresses/city_name",
            FuzzHint::FrFrDivision => "fr_fr/addresses/division",
            FuzzHint::FrFrPostalCode => "fr_fr/addresses/postal_code",
            FuzzHint::FrFrSecondaryAddress => "fr_fr/addresses/secondary_address",
            FuzzHint::FrFrStreetAddress => "fr_fr/addresses/street_address",
            FuzzHint::FrFrStreetName => "fr_fr/addresses/street_name",
            FuzzHint::FrFrCompanyName => "fr_fr/company/company_name",
            FuzzHint::FrFrDomain => "fr_fr/internet/domain",
            FuzzHint::FrFrEmail => "fr_fr/internet/email",
            FuzzHint::FrFrUsername => "fr_fr/internet/username",
            FuzzHint::FrFrFirstName => "fr_fr/names/first_name",
            FuzzHint::FrFrFullName => "fr_fr/names/full_name",
            FuzzHint::FrFrLastName => "fr_fr/names/last_name",
            FuzzHint::FrFrNamePrefix => "fr_fr/names/name_prefix",
            FuzzHint::FrFrPhoneNumber => "fr_fr/phones/phone_number",
            FuzzHint::LoremWord => "lorem/word",
            FuzzHint::LoremSentence => "lorem/sentence",
            FuzzHint::LoremParagraph => "lorem/paragraph",
            FuzzHint::LoremParagraphs => "lorem/paragraphs",
        }
    }

    /// The kind of text that the hint value `t` selects, if `t` is recognised.
    pub fn from_tag(t: &str) -> (r: Option<FuzzHint>)
        ensures
            r matches Some(h) ==> h.tag_view() == t@,
            r is None ==> forall|h: FuzzHint| #[trigger] h.tag_view() != t@,
    {
        if str_eq(t, "en_us/addresses/address") {
            return Some(FuzzHint::EnUsAddress);
        }
        if str_eq(t, "en_us/addresses/city_name") {
            return Some(FuzzHint::EnUsCityName);
        }
        if str_eq(t, "en_us/addresses/division") {
            return Some(FuzzHint::EnUsDivision);
        }
        if str_eq(t, "en_us/addresses/division_abbreviation") {
            return Some(FuzzHint::EnUsDivisionAbbreviation);
        }
        if str_eq(t, "en_us/addresses/postal_code") {
            return Some(FuzzHint::EnUsPostalCode);
        }
        if str_eq(t, "en_us/addresses/secondary_address") {
            return Some(FuzzHint::EnUsSecondaryAddress);
        }
        if str_eq(t, "en_us/addresses/street_address") {
            return Some(FuzzHint::EnUsStreetAddress);
        }
        if str_eq(t, "en_us/addresses/street_name") {
            return Some(FuzzHint::EnUsStreetName);
        }
        if str_eq(t, "en_us/company/company_name") {
            return Some(FuzzHint::EnUsCompanyName);
        }
        if str_eq(t, "en_us/company/slogan") {
            return Some(FuzzHint::EnUsSlogan);
        }
        if str_eq(t, "en_us/internet/domain") {
            return Some(FuzzHint::EnUsDomain);
        }
        if str_eq(t, "en_us/internet/email") {
            return Some(FuzzHint::EnUsEmail);
        }
        if str_eq(t, "en_us/internet/username") {
            return Some(FuzzHint::EnUsUsername);
        }
        if str_eq(t, "en_us/names/first_name") {
            return Some(FuzzHint::EnUsFirstName);
        }
        if str_eq(t, "en_us/names/full_name") {
            return Some(FuzzHint::EnUsFullName);
        }
        if str_eq(t, "en_us/names/last_name") {
            return Some(FuzzHint::EnUsLastName);
        }
        if str_eq(t, "en_us/names/name_prefix") {
            return Some(FuzzHint::EnUsNamePrefix);
        }
        if str_eq(t, "en_us/names/name_suffix") {
            return Some(FuzzHint::EnUsNameSuffix);
        }
        if str_eq(t, "en_us/phones/phone_number") {
            return Some(FuzzHint::EnUsPhoneNumber);
        }
        if str_eq(t, "fr_fr/addresses/address") {
            return Some(FuzzHint::FrFrAddress);
        }
        if str_eq(t, "fr_fr/addresses/city_name") {
            return Some(FuzzHint::FrFrCityName);
        }
        if str_eq(t, "fr_fr/addresses/division") {
            return Some(FuzzHint::FrFrDivision);
        }
        if str_eq(t, "fr_fr/addresses/postal_code") {
            return Some(FuzzHint::FrFrPostalCode);
        }
        if str_eq(t, "fr_fr/addresses/secondary_address") {
            return Some(FuzzHint::FrFrSecondaryAddress);
        }
        if str_eq(t, "fr_fr/addresses/street_address") {
            return Some(FuzzHint::FrFrStreetAddress);
        }
        if str_eq(t, "fr_fr/addresses/street_name") {
            return Some(FuzzHint::FrFrStreetName);
        }
        if str_eq(t, "fr_fr/company/company_name") {
            return Some(FuzzHint::FrFrCompanyName);
        }
        if str_eq(t, "fr_fr/internet/domain") {
            return Some(FuzzHint::FrFrDomain);
        }
        if str_eq(t, "fr_fr/internet/email") {
            return Some(FuzzHint::FrFrEmail);
        }
        if str_eq(t, "fr_fr/internet/username") {
            return Some(FuzzHint::FrFrUsername);
        }
        if str_eq(t, "fr_fr/names/first_name") {
            return Some(FuzzHint::FrFrFirstName);
        }
        if str_eq(t, "fr_fr/names/full_name") {
            return Some(FuzzHint::FrFrFullName);
        }
        if str_eq(t, "fr_fr/names/last_name") {
            return Some(FuzzHint::FrFrLastName);
        }
        if str_eq(t, "fr_fr/names/name_prefix") {
            return Some(FuzzHint::FrFrNamePrefix);
        }
        if str_eq(t, "fr_fr/phones/phone_number") {
            return Some(FuzzHint::FrFrPhoneNumber);
        }
        if str_eq(t, "lorem/word") {
            return Some(FuzzHint::LoremWord);
        }
        if str_eq(t, "lorem/sentence") {
            return Some(FuzzHint::LoremSentence);
        }
        if str_eq(t, "lorem/paragraph") {
            return Some(FuzzHint::LoremParagraph);
        }
        if str_eq(t, "lorem/paragraphs") {
            return Some(FuzzHint::LoremParagraphs);
        }
        None
    }
}

/// The value of the first metadata entry named by the fuzz hint key.
pub open spec fn hint_value(metadata: Seq<(String, String)>) -> Option<Seq<char>>
    decreases metadata.len(),
{
    if metadata.len() == 0 {
        None
    } else if metadata[0].0@ == FUZZ_HINT_KEY@ {
        Some(metadata[0].1@)
    } else {
        hint_value(metadata.drop_first())
    }
}

/// The node carries a recognised fuzz hint.
pub open spec fn has_hint(s: Schema) -> bool {
    hint_value(s.metadata@) matches Some(t) && exists|h: FuzzHint| #[trigger] h.tag_view() == t
}

/// The fuzz hint that the node `s` carries, if its value is recognised.
pub fn hint_of(s: &Schema) -> (r: Option<FuzzHint>)
    ensures
        r is None <==> !has_hint(*s),
        r matches Some(h) ==> hint_value(s.metadata@) == Some(h.tag_view()),
{
    let n = s.metadata.len();
    let mut i: usize = 0;
    assert(s.metadata@.skip(0) =~= s.metadata@);
    while i < n
        invariant
            n == s.metadata.len(),
            i <= n,
            hint_value(s.metadata@) == hint_value(s.metadata@.skip(i as int)),
        decreases n - i,
    {
        let ghost rest = s.metadata@.skip(i as int);
        assert(rest.drop_first() =~= s.metadata@.skip(i + 1));
        assert(rest[0] == s.metadata@[i as int]);
        if str_eq(s.metadata[i].0.as_str(), FUZZ_HINT_KEY) {
            return FuzzHint::from_tag(s.metadata[i].1.as_str());
        }
        i += 1;
    }
    None
}

/// Draws a text of the kind that `hint` names.
pub fn fake_text(rng: &mut rand_pcg::Pcg32, hint: FuzzHint) -> (r: String)
    ensures
        r@.len() > 0,
{
    match hint {
        FuzzHint::EnUsAddress => fake_en_us_address(rng),
        FuzzHint::EnUsCityName => fake_en_us_city_name(rng),
        FuzzHint::EnUsDivision => fake_en_us_division(rng),
        FuzzHint::EnUsDivisionAbbreviation => fake_en_us_division_abbreviation(rng),
        FuzzHint::EnUsPostalCode => fake_en_us_postal_code(rng),
        FuzzHint::EnUsSecondaryAddress => fake_en_us_secondary_address(rng),
        FuzzHint::EnUsStreetAddress => fake_en_us_street_address(rng),
        FuzzHint::EnUsStreetName => fake_en_us_street_name(rng),
        FuzzHint::EnUsCompanyName => fake_en_us_company_name(rng),
        FuzzHint::EnUsSlogan => fake_en_us_slogan(rng),
        FuzzHint::EnUsDomain => fake_en_us_domain(rng),
        FuzzHint::EnUsEmail => fake_en_us_email(rng),
        FuzzHint::EnUsUsername => fake_en_us_username(rng),
        FuzzHint::EnUsFirstName => fake_en_us_first_name(rng),
        FuzzHint::EnUsFullName => fake_en_us_full_name(rng),
        FuzzHint::EnUsLastName => fake_en_us_last_name(rng),
        FuzzHint::EnUsNamePrefix => fake_en_us_name_prefix(rng),
        FuzzHint::EnUsNameSuffix => fake_en_us_name_suffix(rng),
        FuzzHint::EnUsPhoneNumber => fake_en_us_phone_number(rng),
        FuzzHint::FrFrAddress => fake_fr_fr_address(rng),
        FuzzHint::FrFrCityName => fake_fr_fr_city_name(rng),
        FuzzHint::FrFrDivision => fake_fr_fr_division(rng),
        FuzzHint::FrFrPostalCode => fake_fr_fr_postal_code(rng),
        FuzzHint::FrFrSecondaryAddress => fake_fr_fr_secondary_address(rng),
        FuzzHint::FrFrStreetAddress => fake_fr_fr_street_address(rng),
        FuzzHint::FrFrStreetName => fake_fr_fr_street_name(rng),
        FuzzHint::FrFrCompanyName => fake_fr_fr_company_name(rng),
        FuzzHint::FrFrDomain => fake_fr_fr_domain(rng),
        FuzzHint::FrFrEmail => fake_fr_fr_email(rng),
        FuzzHint::FrFrUsername => fake_fr_fr_username(rng),
        FuzzHint::FrFrFirstName => fake_fr_fr_first_name(rng),
        FuzzHint::FrFrFullName => fake_fr_fr_full_name(rng),
        FuzzHint::FrFrLastName => fake_fr_fr_last_name(rng),
        FuzzHint::FrFrNamePrefix => fake_fr_fr_name_prefix(rng),
        FuzzHint::FrFrPhoneNumber => fake_fr_fr_phone_number(rng),
        FuzzHint::LoremWord => fake_lorem_word(rng),
        FuzzHint::LoremSentence => fake_lorem_sentence(rng),
        FuzzHint::LoremParagraph => fake_lorem_paragraph(rng),
        FuzzHint::LoremParagraphs => fake_lorem_paragraphs(rng),
    }
}

/// Relies on faker_rand's `en_us::addresses::Address` drawn through
/// `Rng::gen`: a non-empty text, being a whole line of its data file or a
/// template filled with such lines.
#[verifier::external_body]
fn fake_en_us_address(rng: &mut rand_pcg::Pcg32) -> (r: String)
    ensures
        r@.len() > 0,
{
    rng.gen::<faker_rand::en_us::addresses::Address>().to_string()
}

/// Relies on faker_rand's `en_us::addresses::CityName` drawn through
/// `Rng::gen`: a non-empty text, being a whole line of its data file or a
/// template filled with such lines.
#[verifier::external_body]
fn fake_en_us_city_name(rng: &mut rand_pcg::Pcg32) -> (r: String)
    ensures
        r@.len() > 0,
{
    rng.gen::<faker_rand::en_us::addresses::CityName>().to_string()
}

/// Relies on faker_rand's `en_us::addresses::Division` drawn through
/// `Rng::gen`: a non-empty text, being a whole line of its data file or a
/// template filled with such lines.
#[verifier::external_body]
fn fake_en_us_division(rng: &mut rand_pcg::Pcg32) -> (r: String)
    ensures
        r@.len() > 0,
{
    rng.gen::<faker_rand::en_us::addresses::Division>().to_string()
}

/// Relies on faker_rand's `en_us::addresses::DivisionAbbreviation` drawn through
/// `Rng::gen`: a non-empty text, being a whole line of its data file or a
/// template filled with such lines.
#[verifier::external_body]
fn fake_en_us_division_abbreviation(rng: &mut rand_pcg::Pcg32) -> (r: String)
    ensures
        r@.len() > 0,
{
    rng.gen::<faker_rand::en_us::addresses::DivisionAbbreviation>().to_string()
}

/// Relies on faker_rand's `en_us::addresses::PostalCode` drawn through
/// `Rng::gen`: a non-empty text, being a whole line of its data file or a
/// template filled with such lines.
#[verifier::external_body]
fn fake_en_us_postal_code(rng: &mut rand_pcg::Pcg32) -> (r: String)
    ensures
        r@.len() > 0,
{
    rng.gen::<faker_rand::en_us::addresses::PostalCode>().to_string()
}

/// Relies on faker_rand's `en_us::addresses::SecondaryAddress` drawn through
/// `Rng::gen`: a non-empty text, being a whole line of its data file or a
/// template filled with such lines.
#[verifier::external_body]
fn fake_en_us_secondary_address(rng: &mut rand_pcg::Pcg32) -> (r: String)
    ensures
        r@.len() > 0,
{
    rng.gen::<faker_rand::en_us::addresses::SecondaryAddress>().to_string()
}

/// Relies on faker_rand's `en_us::addresses::StreetAddress` drawn through
/// `Rng::gen`: a non-empty text, being a whole line of its data file or a
/// template filled with such lines.
#[verifier::external_body]
fn fake_en_us_street_address(rng: &mut rand_pcg::Pcg32) -> (r: String)
    ensures
        r@.len() > 0,
{
    rng.gen::<faker_rand::en_us::addresses::StreetAddress>().to_string()
}

/// Relies on faker_rand's `en_us::addresses::StreetName` drawn through
/// `Rng::gen`: a non-empty text, being a whole line of its data file or a
/// template filled with such lines.
#[verifier::external_body]
fn fake_en_us_street_name(rng: &mut rand_pcg::Pcg32) -> (r: String)
    ensures
        r@.len() > 0,
{
    rng.gen::<faker_rand::en_us::addresses::StreetName>().to_string()
}

/// Relies on faker_rand's `en_us::company::CompanyName` drawn through
/// `Rng::gen`: a non-empty text, being a whole line of its data file or a
/// template filled with such lines.
#[verifier::external_body]
fn fake_en_us_company_name(rng: &mut rand_pcg::Pcg32) -> (r: String)
    ensures
        r@.len() > 0,
{
    rng.gen::<faker_rand::en_us::company::CompanyName>().to_string()
}

/// Relies on faker_rand's `en_us::company::Slogan` drawn through
/// `Rng::gen`: a non-empty text, being a whole line of its data file or a
/// template filled with such lines.
#[verifier::external_body]
fn fake_en_us_slogan(rng: &mut rand_pcg::Pcg32) -> (r: String)
    ensures
        r@.len() > 0,
{
    rng.gen::<faker_rand::en_us::company::Slogan>().to_string()
}

/// Relies on faker_rand's `en_us::internet::Domain` drawn through
/// `Rng::gen`: a non-empty text, being a whole line of its data file or a
/// template filled with such lines.
#[verifier::external_body]
fn fake_en_us_domain(rng: &mut rand_pcg::Pcg32) -> (r: String)
    ensures
        r@.len() > 0,
{
    rng.gen::<faker_rand::en_us::internet::Domain>().to_string()
}

/// Relies on faker_rand's `en_us::internet::Email` drawn through
/// `Rng::gen`: a non-empty text, being a whole line of its data file or a
/// template filled with such lines.
#[verifier::external_body]
fn fake_en_us_email(rng: &mut rand_pcg::Pcg32) -> (r: String)
    ensures
        r@.len() > 0,
{
    rng.gen::<faker_rand::en_us::internet::Email>().to_string()
}

/// Relies on faker_rand's `en_us::internet::Username` drawn through
/// `Rng::gen`: a non-empty text, being a whole line of its data file or a
/// template filled with such lines.
#[verifier::external_body]
fn fake_en_us_username(rng: &mut rand_pcg::Pcg32) -> (r: String)
    ensures
        r@.len() > 0,
{
    rng.gen::<faker_rand::en_us::internet::Username>().to_string()
}

/// Relies on faker_rand's `en_us::names::FirstName` drawn through
/// `Rng::gen`: a non-empty text, being a whole line of its data file or a
/// template filled with such lines.
#[verifier::external_body]
fn fake_en_us_first_name(rng: &mut rand_pcg::Pcg32) -> (r: String)
    ensures
        r@.len() > 0,
{
    rng.gen::<faker_rand::en_us::names::FirstName>().to_string()
}

/// Relies on faker_rand's `en_us::names::FullName` drawn through
/// `Rng::gen`: a non-empty text, being a whole line of its data file or a
/// template filled with such lines.
#[verifier::external_body]
fn fake_en_us_full_name(rng: &mut rand_pcg::Pcg32) -> (r: String)
    ensures
        r@.len() > 0,
{
    rng.gen::<faker_rand::en_us::names::FullName>().to_string()
}

/// Relies on faker_rand's `en_us::names::LastName` drawn through
/// `Rng::gen`: a non-empty text, being a whole line of its data file or a
/// template filled with such lines.
#[verifier::external_body]
fn fake_en_us_last_name(rng: &mut rand_pcg::Pcg32) -> (r: String)
    ensures
        r@.len() > 0,
{
    rng.gen::<faker_rand::en_us::names::LastName>().to_string()
}

/// Relies on faker_rand's `en_us::names::NamePrefix` drawn through
/// `Rng::gen`: a non-empty text, being a whole line of its data file or a
/// template filled with such lines.
#[verifier::external_body]
fn fake_en_us_name_prefix(rng: &mut rand_pcg::Pcg32) -> (r: String)
    ensures
        r@.len() > 0,
{
    rng.gen::<faker_rand::en_us::names::NamePrefix>().to_string()
}

/// Relies on faker_rand's `en_us::names::NameSuffix` drawn through
/// `Rng::gen`: a non-empty text, being a whole line of its data file or a
/// template filled with such lines.
#[verifier::external_body]
fn fake_en_us_name_suffix(rng: &mut rand_pcg::Pcg32) -> (r: String)
    ensures
        r@.len() > 0,
{
    rng.gen::<faker_rand::en_us::names::NameSuffix>().to_string()
}

/// Relies on faker_rand's `en_us::phones::PhoneNumber` drawn through
/// `Rng::gen`: a non-empty text, being a whole line of its data file or a
/// template filled with such lines.
#[verifier::external_body]
fn fake_en_us_phone_number(rng: &mut rand_pcg::Pcg32) -> (r: String)
    ensures
        r@.len() > 0,
{
    rng.gen::<faker_rand::en_us::phones::PhoneNumber>().to_string()
}

/// Relies on faker_rand's `fr_fr::addresses::Address` drawn through
/// `Rng::gen`: a non-empty text, being a whole line of its data file or a
/// template filled with such lines.
#[verifier::external_body]
fn fake_fr_fr_address(rng: &mut rand_pcg::Pcg32) -> (r: String)
    ensures
        r@.len() > 0,
{
    rng.gen::<faker_rand::fr_fr::addresses::Address>().to_string()
}

/// Relies on faker_rand's `fr_fr::addresses::CityName` drawn through
/// `Rng::gen`: a non-empty text, being a whole line of its data file or a
/// template filled with such lines.
#[verifier::external_body]
fn fake_fr_fr_city_name(rng: &mut rand_pcg::Pcg32) -> (r: String)
    ensures
        r@.len() > 0,
{
    rng.gen::<faker_rand::fr_fr::addresses::CityName>().to_string()
}

/// Relies on faker_rand's `fr_fr::addresses::Division` drawn through
/// `Rng::gen`: a non-empty text, being a whole line of its data file or a
/// template filled with such lines.
#[verifier::external_body]
fn fake_fr_fr_division(rng: &mut rand_pcg::Pcg32) -> (r: String)
    ensures
        r@.len() > 0,
{
    rng.gen::<faker_rand::fr_fr::addresses::Division>().to_string()
}

/// Relies on faker_rand's `fr_fr::addresses::PostalCode` drawn through
/// `Rng::gen`: a non-empty text, being a whole line of its data file or a
/// template filled with such lines.
#[verifier::external_body]
fn fake_fr_fr_postal_code(rng: &mut rand_pcg::Pcg32) -> (r: String)
    ensures
        r@.len() > 0,
{
    rng.gen::<faker_rand::fr_fr::addresses::PostalCode>().to_string()
}

/// Relies on faker_rand's `fr_fr::addresses::SecondaryAddress` drawn through
/// `Rng::gen`: a non-empty text, being a whole line of its data file or a
/// template filled with such lines.
#[verifier::external_body]
fn fake_fr_fr_secondary_address(rng: &mut rand_pcg::Pcg32) -> (r: String)
    ensures
        r@.len() > 0,
{
    rng.gen::<faker_rand::fr_fr::addresses::SecondaryAddress>().to_string()
}

/// Relies on faker_rand's `fr_fr::addresses::StreetAddress` drawn through
/// `Rng::gen`: a non-empty text, being a whole line of its data file or a
/// template filled with such lines.
#[verifier::external_body]
fn fake_fr_fr_street_address(rng: &mut rand_pcg::Pcg32) -> (r: String)
    ensures
        r@.len() > 0,
{
    rng.gen::<faker_rand::fr_fr::addresses::StreetAddress>().to_string()
}

/// Relies on faker_rand's `fr_fr::addresses::StreetName` drawn through
/// `Rng::gen`: a non-empty text, being a whole line of its data file or a
/// template filled with such lines.
#[verifier::external_body]
fn fake_fr_fr_street_name(rng: &mut rand_pcg::Pcg32) -> (r: String)
    ensures
        r@.len() > 0,
{
    rng.gen::<faker_rand::fr_fr::addresses::StreetName>().to_string()
}

/// Relies on faker_rand's `fr_fr::company::CompanyName` drawn through
/// `Rng::gen`: a non-empty text, being a whole line of its data file or a
/// template filled with such lines.
#[verifier::external_body]
fn fake_fr_fr_company_name(rng: &mut rand_pcg::Pcg32) -> (r: String)
    ensures
        r@.len() > 0,
{
    rng.gen::<faker_rand::fr_fr::company::CompanyName>().to_string()
}

/// Relies on faker_rand's `fr_fr::internet::Domain` drawn through
/// `Rng::gen`: a non-empty text, being a whole line of its data file or a
/// template filled with such lines.
#[verifier::external_body]
fn fake_fr_fr_domain(rng: &mut rand_pcg::Pcg32) -> (r: String)
    ensures
        r@.len() > 0,
{
    rng.gen::<faker_rand::fr_fr::internet::Domain>().to_string()
}

/// Relies on faker_rand's `fr_fr::internet::Email` drawn through
/// `Rng::gen`: a non-empty text, being a whole line of its data file or a
/// template filled with such lines.
#[verifier::external_body]
fn fake_fr_fr_email(rng: &mut rand_pcg::Pcg32) -> (r: String)
    ensures
        r@.len() > 0,
{
    rng.gen::<faker_rand::fr_fr::internet::Email>().to_string()
}

/// Relies on faker_rand's `fr_fr::internet::Username` drawn through
/// `Rng::gen`: a non-empty text, being a whole line of its data file or a
/// template filled with such lines.
#[verifier::external_body]
fn fake_fr_fr_username(rng: &mut rand_pcg::Pcg32) -> (r: String)
    ensures
        r@.len() > 0,
{
    rng.gen::<faker_rand::fr_fr::internet::Username>().to_string()
}

/// Relies on faker_rand's `fr_fr::names::FirstName` drawn through
/// `Rng::gen`: a non-empty text, being a whole line of its data file or a
/// template filled with such lines.
#[verifier::external_body]
fn fake_fr_fr_first_name(rng: &mut rand_pcg::Pcg32) -> (r: String)
    ensures
        r@.len() > 0,
{
    rng.gen::<faker_rand::fr_fr::names::FirstName>().to_string()
}

/// Relies on faker_rand's `fr_fr::names::FullName` drawn through
/// `Rng::gen`: a non-empty text, being a whole line of its data file or a
/// template filled with such lines.
#[verifier::external_body]
fn fake_fr_fr_full_name(rng: &mut rand_pcg::Pcg32) -> (r: String)
    ensures
        r@.len() > 0,
{
    rng.gen::<faker_rand::fr_fr::names::FullName>().to_string()
}

/// Relies on faker_rand's `fr_fr::names::LastName` drawn through
/// `Rng::gen`: a non-empty text, being a whole line of its data file or a
/// template filled with such lines.
#[verifier::external_body]
fn fake_fr_fr_last_name(rng: &mut rand_pcg::Pcg32) -> (r: String)
    ensures
        r@.len() > 0,
{
    rng.gen::<faker_rand::fr_fr::names::LastName>().to_string()
}

/// Relies on faker_rand's `fr_fr::names::NamePrefix` drawn through
/// `Rng::gen`: a non-empty text, being a whole line of its data file or a
/// template filled with such lines.
#[verifier::external_body]
fn fake_fr_fr_name_prefix(rng: &mut rand_pcg::Pcg32) -> (r: String)
    ensures
        r@.len() > 0,
{
    rng.gen::<faker_rand::fr_fr::names::NamePrefix>().to_string()
}

/// Relies on faker_rand's `fr_fr::phones::PhoneNumber` drawn through
/// `Rng::gen`: a non-empty text, being a whole line of its data file or a
/// template filled with such lines.
#[verifier::external_body]
fn fake_fr_fr_phone_number(rng: &mut rand_pcg::Pcg32) -> (r: String)
    ensures
        r@.len() > 0,
{
    rng.gen::<faker_rand::fr_fr::phones::PhoneNumber>().to_string()
}

/// Relies on faker_rand's `lorem::Word` drawn through
/// `Rng::gen`: a non-empty text, being a whole line of its data file or a
/// template filled with such lines.
#[verifier::external_body]
fn fake_lorem_word(rng: &mut rand_pcg::Pcg32) -> (r: String)
    ensures
        r@.len() > 0,
{
    rng.gen::<faker_rand::lorem::Word>().to_string()
}

/// Relies on faker_rand's `lorem::Sentence` drawn through
/// `Rng::gen`: a non-empty text, being a whole line of its data file or a
/// template filled with such lines.
#[verifier::external_body]
fn fake_lorem_sentence(rng: &mut rand_pcg::Pcg32) -> (r: String)
    ensures
        r@.len() > 0,
{
    rng.gen::<faker_rand::lorem::Sentence>().to_string()
}

/// Relies on faker_rand's `lorem::Paragraph` drawn through
/// `Rng::gen`: a non-empty text, being a whole line of its data file or a
/// template filled with such lines.
#[verifier::external_body]
fn fake_lorem_paragraph(rng: &mut rand_pcg::Pcg32) -> (r: String)
    ensures
        r@.len() > 0,
{
    rng.gen::<faker_rand::lorem::Paragraph>().to_string()
}

/// Relies on faker_rand's `lorem::Paragraphs` drawn through
/// `Rng::gen`: a non-empty text, being a whole line of its data file or a
/// template filled with such lines.
#[verifier::external_body]
fn fake_lorem_paragraphs(rng: &mut rand_pcg::Pcg32) -> (r: String)
    ensures
        r@.len() > 0,
{
    rng.gen::<faker_rand::lorem::Paragraphs>().to_string()
}

} // verus!
