//! Creating a Link token: the request, its parts and the reply.

use vstd::prelude::*;
use vstd::string::StringExecFns;
use crate::error::PlaidError;
use crate::json::finished;
use crate::json::has_optional;
use crate::json::has_required;
use crate::json::object_members;
use crate::json::optional_is;
use crate::json::quote;
use crate::json::quoted;
use crate::json::required_is;
use crate::json::with_member;
use crate::json::with_nullable;
use crate::json::with_optional;
use crate::json::FromJson;
use crate::json::JsonObject;
use crate::json::ObjectWriter;
use crate::json::StringMap;
use crate::json::ToJson;
use crate::model::common::Product;
use crate::pattern::is_match;
use crate::pattern::regex_match;
use crate::time::Timestamp;
use crate::PlaidResult;

verus! {

/// The language Link is shown in. English unless said otherwise.
#[derive(Debug, Copy, Clone, PartialEq, Eq, PartialOrd, Ord, Structural)]
pub enum Language {
    Danish,
    Dutch,
    English,
    Estonian,
    French,
    German,
    Italian,
    Latvian,
    Lithuanian,
    Norwegian,
    Polish,
    Portuguese,
    Romanian,
    Spanish,
    Swedish,
}

impl Language {
    /// The name of each language on the wire.
    pub open spec fn wire(self) -> Seq<char> {
        match self {
            Language::Danish => "da"@,
            Language::Dutch => "nl"@,
            Language::English => "en"@,
            Language::Estonian => "et"@,
            Language::French => "fr"@,
            Language::German => "de"@,
            Language::Italian => "it"@,
            Language::Latvian => "lv"@,
            Language::Lithuanian => "lt"@,
            Language::Norwegian => "no"@,
            Language::Polish => "pl"@,
            Language::Portuguese => "pt"@,
            Language::Romanian => "ro"@,
            Language::Spanish => "es"@,
            Language::Swedish => "sv"@,
        }
    }

    pub fn wire_name(&self) -> (name: &'static str)
        ensures
            name@ == self.wire(),
    {
        match self {
            Language::Danish => "da",
            Language::Dutch => "nl",
            Language::English => "en",
            Language::Estonian => "et",
            Language::French => "fr",
            Language::German => "de",
            Language::Italian => "it",
            Language::Latvian => "lv",
            Language::Lithuanian => "lt",
            Language::Norwegian => "no",
            Language::Polish => "pl",
            Language::Portuguese => "pt",
            Language::Romanian => "ro",
            Language::Spanish => "es",
            Language::Swedish => "sv",
        }
    }
}

impl Default for Language {
    fn default() -> (value: Language)
        ensures
            value == Language::English,
    {
        Language::English
    }
}

impl ToJson for Language {
    open spec fn json(&self) -> Option<Seq<char>> {
        quoted(self.wire())
    }

    fn to_json(&self) -> (text: Option<String>) {
        quote(self.wire_name())
    }
}

/// A country whose institutions Link offers. The United States unless said
/// otherwise.
#[derive(Debug, Copy, Clone, PartialEq, Eq, PartialOrd, Ord, Structural)]
pub enum CountryCode {
    Be,
    Ca,
    De,
    Dk,
    Ee,
    Es,
    Fr,
    Ie,
    It,
    Lt,
    Lv,
    Nl,
    No,
    Pl,
    Pt,
    Se,
    Gb,
    Us,
}

impl CountryCode {
    /// The name of each country on the wire.
    pub open spec fn wire(self) -> Seq<char> {
        match self {
            CountryCode::Be => "BE"@,
            CountryCode::Ca => "CA"@,
            CountryCode::De => "DE"@,
            CountryCode::Dk => "DK"@,
            CountryCode::Ee => "EE"@,
            CountryCode::Es => "ES"@,
            CountryCode::Fr => "FR"@,
            CountryCode::Ie => "IE"@,
            CountryCode::It => "IT"@,
            CountryCode::Lt => "LT"@,
            CountryCode::Lv => "LV"@,
            CountryCode::Nl => "NL"@,
            CountryCode::No => "NO"@,
            CountryCode::Pl => "PL"@,
            CountryCode::Pt => "PT"@,
            CountryCode::Se => "SE"@,
            CountryCode::Gb => "GB"@,
            CountryCode::Us => "US"@,
        }
    }

    pub fn wire_name(&self) -> (name: &'static str)
        ensures
            name@ == self.wire(),
    {
        match self {
            CountryCode::Be => "BE",
            CountryCode::Ca => "CA",
            CountryCode::De => "DE",
            CountryCode::Dk => "DK",
            CountryCode::Ee => "EE",
            CountryCode::Es => "ES",
            CountryCode::Fr => "FR",
            CountryCode::Ie => "IE",
            CountryCode::It => "IT",
            CountryCode::Lt => "LT",
            CountryCode::Lv => "LV",
            CountryCode::Nl => "NL",
            CountryCode::No => "NO",
            CountryCode::Pl => "PL",
            CountryCode::Pt => "PT",
            CountryCode::Se => "SE",
            CountryCode::Gb => "GB",
            CountryCode::Us => "US",
        }
    }
}

impl Default for CountryCode {
    fn default() -> (value: CountryCode)
        ensures
            value == CountryCode::Us,
    {
        CountryCode::Us
    }
}

impl ToJson for CountryCode {
    open spec fn json(&self) -> Option<Seq<char>> {
        quoted(self.wire())
    }

    fn to_json(&self) -> (text: Option<String>) {
        quote(self.wire_name())
    }
}

/// The user's name in two parts.
#[derive(Debug, Clone, PartialEq, Eq)]
pub struct UserName {
    pub given_name: String,
    pub family_name: String,
}

impl ToJson for UserName {
    open spec fn json(&self) -> Option<Seq<char>> {
        let members = Some(Seq::<(Seq<char>, Seq<char>)>::empty());
        let members = with_member(members, "given_name"@, self.given_name.json());
        let members = with_member(members, "family_name"@, self.family_name.json());
        finished(members)
    }

    fn to_json(&self) -> (text: Option<String>) {
        let writer = ObjectWriter::new();
        let writer = writer.field("given_name", &self.given_name);
        let writer = writer.field("family_name", &self.family_name);
        writer.finish()
    }
}

/// The pattern of an E.164 phone number: a plus sign, a digit from 1 to 9, then
/// one to fourteen digits, and nothing before or after.
pub const E164_PATTERN: &'static str = "^\\+[1-9]\\d{1,14}$";

/// The pattern of a date of birth: `YYYY-MM-DD` in digits. Only the form is
/// asked for; the thirteenth month passes.
pub const DOB_PATTERN: &'static str = "^\\d{4}-\\d{2}-\\d{2}$";

/// The texts that are E.164 phone numbers.
pub open spec fn is_e164(text: Seq<char>) -> bool {
    regex_match(E164_PATTERN@, text) == Some(true)
}

/// The texts that have the form of a date of birth.
pub open spec fn is_dob(text: Seq<char>) -> bool {
    regex_match(DOB_PATTERN@, text) == Some(true)
}

/// A phone number in E.164 form. Every value of this type holds a text that
/// satisfies [`is_e164`]; there is no way to change it afterwards.
#[derive(Debug, PartialEq, Eq)]
pub struct E164PhoneNumber(String);

impl View for E164PhoneNumber {
    type V = Seq<char>;

    closed spec fn view(&self) -> Seq<char> {
        self.0@
    }
}

impl Clone for E164PhoneNumber {
    fn clone(&self) -> (copy: Self)
        ensures
            copy@ == self@,
    {
        proof {
            use_type_invariant(self);
        }
        E164PhoneNumber(self.0.clone())
    }
}

impl E164PhoneNumber {
    #[verifier::type_invariant]
    spec fn well_formed(&self) -> bool {
        is_e164(self.0@)
    }

    /// Accepts exactly the texts that match [`E164_PATTERN`], and keeps the
    /// text as it was given.
    pub fn new(phone_number: &str) -> (res: PlaidResult<E164PhoneNumber>)
        ensures
            res is Ok <==> is_e164(phone_number@),
            res matches Ok(number) ==> number@ == phone_number@ && number.json() == quoted(
                phone_number@,
            ),
            res matches Err(e) ==> (e matches PlaidError::InvalidPhoneNumber(raw) && raw@
                == phone_number@),
    {
        let verdict = is_match(E164_PATTERN, phone_number);
        E164PhoneNumber::from_verdict(phone_number, verdict)
    }

    /// Decides on a text from the verdict of the pattern match: only a plain
    /// "matches" makes a phone number. A favourable verdict may be passed for
    /// no other text than one that earned it.
    pub fn from_verdict(phone_number: &str, verdict: Option<bool>) -> (res: PlaidResult<
        E164PhoneNumber,
    >)
        requires
            verdict == Some(true) ==> is_e164(phone_number@),
        ensures
            res is Ok <==> verdict == Some(true),
            res matches Ok(number) ==> number@ == phone_number@,
            res matches Err(e) ==> (e matches PlaidError::InvalidPhoneNumber(raw) && raw@
                == phone_number@),
    {
        match verdict {
            Some(true) => Ok(E164PhoneNumber(String::from_str(phone_number))),
            _ => Err(PlaidError::InvalidPhoneNumber(String::from_str(phone_number))),
        }
    }

    /// The number as it was given to [`E164PhoneNumber::new`].
    pub fn as_str(&self) -> (text: &str)
        ensures
            text@ == self@,
            is_e164(text@),
    {
        proof {
            use_type_invariant(self);
        }
        self.0.as_str()
    }

    pub fn to_string(&self) -> (text: String)
        ensures
            text@ == self@,
    {
        self.0.clone()
    }
}

/// A date of birth in the form `YYYY-MM-DD`. Every value of this type holds a
/// text that satisfies [`is_dob`]; whether such a day exists is not asked.
#[derive(Debug, PartialEq, Eq)]
pub struct Dob(String);

impl View for Dob {
    type V = Seq<char>;

    closed spec fn view(&self) -> Seq<char> {
        self.0@
    }
}

impl Clone for Dob {
    fn clone(&self) -> (copy: Self)
        ensures
            copy@ == self@,
    {
        proof {
            use_type_invariant(self);
        }
        Dob(self.0.clone())
    }
}

impl Dob {
    #[verifier::type_invariant]
    spec fn well_formed(&self) -> bool {
        is_dob(self.0@)
    }

    /// Accepts exactly the texts that match [`DOB_PATTERN`], and keeps the
    /// text as it was given.
    pub fn new(date_of_birth: &str) -> (res: PlaidResult<Dob>)
        ensures
            res is Ok <==> is_dob(date_of_birth@),
            res matches Ok(date) ==> date@ == date_of_birth@ && date.json() == quoted(
                date_of_birth@,
            ),
            res matches Err(e) ==> (e matches PlaidError::InvalidDateOfBirth(raw) && raw@
                == date_of_birth@),
    {
        let verdict = is_match(DOB_PATTERN, date_of_birth);
        Dob::from_verdict(date_of_birth, verdict)
    }

    /// Decides on a text from the verdict of the pattern match: only a plain
    /// "matches" makes a date. A favourable verdict may be passed for no other
    /// text than one that earned it.
    pub fn from_verdict(date_of_birth: &str, verdict: Option<bool>) -> (res: PlaidResult<Dob>)
        requires
            verdict == Some(true) ==> is_dob(date_of_birth@),
        ensures
            res is Ok <==> verdict == Some(true),
            res matches Ok(date) ==> date@ == date_of_birth@,
            res matches Err(e) ==> (e matches PlaidError::InvalidDateOfBirth(raw) && raw@
                == date_of_birth@),
    {
        match verdict {
            Some(true) => Ok(Dob(String::from_str(date_of_birth))),
            _ => Err(PlaidError::InvalidDateOfBirth(String::from_str(date_of_birth))),
        }
    }

    /// The date as it was given to [`Dob::new`].
    pub fn as_str(&self) -> (text: &str)
        ensures
            text@ == self@,
            is_dob(text@),
    {
        proof {
            use_type_invariant(self);
        }
        self.0.as_str()
    }

    pub fn to_string(&self) -> (text: String)
        ensures
            text@ == self@,
    {
        self.0.clone()
    }
}

impl ToJson for E164PhoneNumber {
    open spec fn json(&self) -> Option<Seq<char>> {
        quoted(self@)
    }

    fn to_json(&self) -> (text: Option<String>) {
        quote(self.as_str())
    }
}

impl ToJson for Dob {
    open spec fn json(&self) -> Option<Seq<char>> {
        quoted(self@)
    }

    fn to_json(&self) -> (text: Option<String>) {
        quote(self.as_str())
    }
}

/// Who the Link session is for.
#[derive(Debug, Clone, PartialEq, Eq)]
pub struct User {
    pub client_user_id: String,
    pub legal_name: Option<String>,
    pub name: Option<UserName>,
    pub phone_number: Option<E164PhoneNumber>,
}

impl ToJson for User {
    open spec fn json(&self) -> Option<Seq<char>> {
        let members = Some(Seq::<(Seq<char>, Seq<char>)>::empty());
        let members = with_member(members, "client_user_id"@, self.client_user_id.json());
        let members = with_optional(members, "legal_name"@, self.legal_name);
        let members = with_optional(members, "name"@, self.name);
        let members = with_optional(members, "phone_number"@, self.phone_number);
        finished(members)
    }

    fn to_json(&self) -> (text: Option<String>) {
        let writer = ObjectWriter::new();
        let writer = writer.field("client_user_id", &self.client_user_id);
        let writer = writer.optional("legal_name", &self.legal_name);
        let writer = writer.optional("name", &self.name);
        let writer = writer.optional("phone_number", &self.phone_number);
        writer.finish()
    }
}

impl Default for User {
    fn default() -> (user: User)
        ensures
            user.client_user_id@ == Seq::<char>::empty(),
            user.legal_name is None,
            user.name is None,
            user.phone_number is None,
    {
        User { client_user_id: String::new(), legal_name: None, name: None, phone_number: None }
    }
}

/// A postal address, as far as it is known.
#[derive(Debug, Clone, PartialEq, Eq)]
pub struct Address {
    pub city: Option<String>,
    pub region: Option<String>,
    pub postal_code: Option<String>,
    pub country: CountryCode,
}

impl ToJson for Address {
    open spec fn json(&self) -> Option<Seq<char>> {
        let members = Some(Seq::<(Seq<char>, Seq<char>)>::empty());
        let members = with_optional(members, "city"@, self.city);
        let members = with_optional(members, "region"@, self.region);
        let members = with_optional(members, "postal_code"@, self.postal_code);
        let members = with_member(members, "country"@, self.country.json());
        finished(members)
    }

    fn to_json(&self) -> (text: Option<String>) {
        let writer = ObjectWriter::new();
        let writer = writer.optional("city", &self.city);
        let writer = writer.optional("region", &self.region);
        let writer = writer.optional("postal_code", &self.postal_code);
        let writer = writer.field("country", &self.country);
        writer.finish()
    }
}

/// The kind of an identity document. A United States social security number
/// unless said otherwise.
#[derive(Debug, Copy, Clone, PartialEq, Eq, Structural)]
pub enum IdType {
    ArDni,
    AuDriversLicense,
    AuPassport,
    BrCpf,
    CaSin,
    ClRun,
    CnResidentCard,
    CoNit,
    DkCpr,
    EgNationalId,
    EsDni,
    EsNie,
    HkHkid,
    InPan,
    ItCf,
    JoCivilId,
    JpMyNumber,
    KeHudumaNamba,
    KwCivilId,
    MxCurp,
    MxRfc,
    MyNric,
    NgNin,
    NzDriversLicense,
    OmCivilId,
    PhPsn,
    PlPesel,
    RoCnp,
    SaNationalId,
    SePin,
    SgNric,
    TrTcKimlik,
    UsSsn,
    UsSsnLast4,
    ZaSmartId,
}

impl IdType {
    /// The name of each kind of document on the wire.
    pub open spec fn wire(self) -> Seq<char> {
        match self {
            IdType::ArDni => "ar_dni"@,
            IdType::AuDriversLicense => "au_drivers_license"@,
            IdType::AuPassport => "au_passport"@,
            IdType::BrCpf => "br_cpf"@,
            IdType::CaSin => "ca_sin"@,
            IdType::ClRun => "cl_run"@,
            IdType::CnResidentCard => "cn_resident_card"@,
            IdType::CoNit => "co_nit"@,
            IdType::DkCpr => "dk_cpr"@,
            IdType::EgNationalId => "eg_national_id"@,
            IdType::EsDni => "es_dni"@,
            IdType::EsNie => "es_nie"@,
            IdType::HkHkid => "hk_hkid"@,
            IdType::InPan => "in_pan"@,
            IdType::ItCf => "it_cf"@,
            IdType::JoCivilId => "jo_civil_id"@,
            IdType::JpMyNumber => "jp_my_number"@,
            IdType::KeHudumaNamba => "ke_hudum_namba"@,
            IdType::KwCivilId => "kw_civil_id"@,
            IdType::MxCurp => "mx_curp"@,
            IdType::MxRfc => "mx_rfc"@,
            IdType::MyNric => "my_nric"@,
            IdType::NgNin => "ng_nin"@,
            IdType::NzDriversLicense => "nz_drivers_license"@,
            IdType::OmCivilId => "om_civil_id"@,
            IdType::PhPsn => "ph_psn"@,
            IdType::PlPesel => "pl_pesel"@,
            IdType::RoCnp => "ro_cnp"@,
            IdType::SaNationalId => "sa_national_id"@,
            IdType::SePin => "se_pin"@,
            IdType::SgNric => "sg_nric"@,
            IdType::TrTcKimlik => "tr_tc_kimlik"@,
            IdType::UsSsn => "us_ssn"@,
            IdType::UsSsnLast4 => "us_ssn_last_4"@,
            IdType::ZaSmartId => "za_smart_id"@,
        }
    }

    pub fn wire_name(&self) -> (name: &'static str)
        ensures
            name@ == self.wire(),
    {
        match self {
            IdType::ArDni => "ar_dni",
            IdType::AuDriversLicense => "au_drivers_license",
            IdType::AuPassport => "au_passport",
            IdType::BrCpf => "br_cpf",
            IdType::CaSin => "ca_sin",
            IdType::ClRun => "cl_run",
            IdType::CnResidentCard => "cn_resident_card",
            IdType::CoNit => "co_nit",
            IdType::DkCpr => "dk_cpr",
            IdType::EgNationalId => "eg_national_id",
            IdType::EsDni => "es_dni",
            IdType::EsNie => "es_nie",
            IdType::HkHkid => "hk_hkid",
            IdType::InPan => "in_pan",
            IdType::ItCf => "it_cf",
            IdType::JoCivilId => "jo_civil_id",
            IdType::JpMyNumber => "jp_my_number",
            IdType::KeHudumaNamba => "ke_hudum_namba",
            IdType::KwCivilId => "kw_civil_id",
            IdType::MxCurp => "mx_curp",
            IdType::MxRfc => "mx_rfc",
            IdType::MyNric => "my_nric",
            IdType::NgNin => "ng_nin",
            IdType::NzDriversLicense => "nz_drivers_license",
            IdType::OmCivilId => "om_civil_id",
            IdType::PhPsn => "ph_psn",
            IdType::PlPesel => "pl_pesel",
            IdType::RoCnp => "ro_cnp",
            IdType::SaNationalId => "sa_national_id",
            IdType::SePin => "se_pin",
            IdType::SgNric => "sg_nric",
            IdType::TrTcKimlik => "tr_tc_kimlik",
            IdType::UsSsn => "us_ssn",
            IdType::UsSsnLast4 => "us_ssn_last_4",
            IdType::ZaSmartId => "za_smart_id",
        }
    }
}

impl Default for IdType {
    fn default() -> (value: IdType)
        ensures
            value == IdType::UsSsn,
    {
        IdType::UsSsn
    }
}

impl ToJson for IdType {
    open spec fn json(&self) -> Option<Seq<char>> {
        quoted(self.wire())
    }

    fn to_json(&self) -> (text: Option<String>) {
        quote(self.wire_name())
    }
}

/// The number of an identity document and its kind.
#[derive(Debug, Clone, PartialEq, Eq)]
pub struct IdNumber {
    pub value: String,
    pub type_: IdType,
}

impl ToJson for IdNumber {
    open spec fn json(&self) -> Option<Seq<char>> {
        let members = Some(Seq::<(Seq<char>, Seq<char>)>::empty());
        let members = with_member(members, "value"@, self.value.json());
        let members = with_member(members, "type"@, self.type_.json());
        finished(members)
    }

    fn to_json(&self) -> (text: Option<String>) {
        let writer = ObjectWriter::new();
        let writer = writer.field("value", &self.value);
        let writer = writer.field("type", &self.type_);
        writer.finish()
    }
}

impl Default for IdNumber {
    fn default() -> (number: IdNumber)
        ensures
            number.value@ == Seq::<char>::empty(),
            number.type_ == IdType::UsSsn,
    {
        IdNumber { value: String::new(), type_: IdType::UsSsn }
    }
}

/// Which accounts Link shows. Nothing can be asked for yet.
#[derive(Debug, Clone, PartialEq, Eq)]
pub struct AccountFilters {}

impl ToJson for AccountFilters {
    open spec fn json(&self) -> Option<Seq<char>> {
        let members = Some(Seq::<(Seq<char>, Seq<char>)>::empty());
        finished(members)
    }

    fn to_json(&self) -> (text: Option<String>) {
        let writer = ObjectWriter::new();
        writer.finish()
    }
}

/// What is sent to open a Link session. The caller fills in the client id and
/// the secret; a member without a value is left out of what is sent.
#[derive(Debug, Clone, PartialEq, Eq)]
pub struct LinkTokenCreateRequest {
    pub client_id: String,
    pub secret: String,
    pub client_name: String,
    pub language: Language,
    pub country_codes: Vec<CountryCode>,
    pub user: User,
    pub products: Vec<Product>,
    pub required_if_supported_products: Option<Vec<Product>>,
    pub optional_products: Option<Vec<Product>>,
    pub additional_consented_products: Option<Vec<Product>>,
    pub webhook: Option<String>,
    pub access_token: Option<String>,
    pub link_customization_name: Option<String>,
    pub redirect_uri: Option<String>,
    pub android_package_name: Option<String>,
    pub institution_data: Option<StringMap>,
    pub account_filters: Option<AccountFilters>,
}

impl ToJson for LinkTokenCreateRequest {
    open spec fn json(&self) -> Option<Seq<char>> {
        let members = Some(Seq::<(Seq<char>, Seq<char>)>::empty());
        let members = with_member(members, "client_id"@, self.client_id.json());
        let members = with_member(members, "secret"@, self.secret.json());
        let members = with_member(members, "client_name"@, self.client_name.json());
        let members = with_member(members, "language"@, self.language.json());
        let members = with_member(members, "country_codes"@, self.country_codes.json());
        let members = with_member(members, "user"@, self.user.json());
        let members = with_member(members, "products"@, self.products.json());
        let members = with_optional(
            members,
            "required_if_supported_products"@,
            self.required_if_supported_products,
        );
        let members = with_optional(members, "optional_products"@, self.optional_products);
        let members = with_optional(
            members,
            "additional_consented_products"@,
            self.additional_consented_products,
        );
        let members = with_optional(members, "webhook"@, self.webhook);
        let members = with_optional(members, "access_token"@, self.access_token);
        let members = with_optional(
            members,
            "link_customization_name"@,
            self.link_customization_name,
        );
        let members = with_optional(members, "redirect_uri"@, self.redirect_uri);
        let members = with_optional(members, "android_package_name"@, self.android_package_name);
        let members = with_optional(members, "institution_data"@, self.institution_data);
        let members = with_optional(members, "account_filters"@, self.account_filters);
        finished(members)
    }

    fn to_json(&self) -> (text: Option<String>) {
        let writer = ObjectWriter::new();
        let writer = writer.field("client_id", &self.client_id);
        let writer = writer.field("secret", &self.secret);
        let writer = writer.field("client_name", &self.client_name);
        let writer = writer.field("language", &self.language);
        let writer = writer.field("country_codes", &self.country_codes);
        let writer = writer.field("user", &self.user);
        let writer = writer.field("products", &self.products);
        let writer = writer
            .optional("required_if_supported_products", &self.required_if_supported_products);
        let writer = writer.optional("optional_products", &self.optional_products);
        let writer = writer
            .optional("additional_consented_products", &self.additional_consented_products);
        let writer = writer.optional("webhook", &self.webhook);
        let writer = writer.optional("access_token", &self.access_token);
        let writer = writer.optional("link_customization_name", &self.link_customization_name);
        let writer = writer.optional("redirect_uri", &self.redirect_uri);
        let writer = writer.optional("android_package_name", &self.android_package_name);
        let writer = writer.optional("institution_data", &self.institution_data);
        let writer = writer.optional("account_filters", &self.account_filters);
        writer.finish()
    }
}

impl Default for LinkTokenCreateRequest {
    fn default() -> (request: LinkTokenCreateRequest)
        ensures
            request.client_id@ == Seq::<char>::empty(),
            request.secret@ == Seq::<char>::empty(),
            request.client_name@ == Seq::<char>::empty(),
            request.language == Language::English,
            request.country_codes@ == Seq::<CountryCode>::empty(),
            request.user.client_user_id@ == Seq::<char>::empty(),
            request.user.legal_name is None,
            request.user.name is None,
            request.user.phone_number is None,
            request.products@ == Seq::<Product>::empty(),
            request.required_if_supported_products is None,
            request.optional_products is None,
            request.additional_consented_products is None,
            request.webhook is None,
            request.access_token is None,
            request.link_customization_name is None,
            request.redirect_uri is None,
            request.android_package_name is None,
            request.institution_data is None,
            request.account_filters is None,
    {
        LinkTokenCreateRequest {
            client_id: String::new(),
            secret: String::new(),
            client_name: String::new(),
            language: Language::English,
            country_codes: Vec::new(),
            user: User::default(),
            products: Vec::new(),
            required_if_supported_products: None,
            optional_products: None,
            additional_consented_products: None,
            webhook: None,
            access_token: None,
            link_customization_name: None,
            redirect_uri: None,
            android_package_name: None,
            institution_data: None,
            account_filters: None,
        }
    }
}

/// What Plaid answers: the token that opens Link, and until when it is good.
#[derive(Debug, Clone, PartialEq, Eq)]
pub struct LinkTokenCreateResponse {
    pub expiration: Timestamp,
    pub link_token: String,
    pub request_id: String,
    pub hosted_link_url: Option<String>,
}

impl ToJson for LinkTokenCreateResponse {
    open spec fn json(&self) -> Option<Seq<char>> {
        let members = Some(Seq::<(Seq<char>, Seq<char>)>::empty());
        let members = with_member(members, "expiration"@, self.expiration.json());
        let members = with_member(members, "link_token"@, self.link_token.json());
        let members = with_member(members, "request_id"@, self.request_id.json());
        let members = with_nullable(members, "hosted_link_url"@, self.hosted_link_url);
        finished(members)
    }

    fn to_json(&self) -> (text: Option<String>) {
        let writer = ObjectWriter::new();
        let writer = writer.field("expiration", &self.expiration);
        let writer = writer.field("link_token", &self.link_token);
        let writer = writer.field("request_id", &self.request_id);
        let writer = writer.nullable("hosted_link_url", &self.hosted_link_url);
        writer.finish()
    }
}

impl FromJson for LinkTokenCreateResponse {
    open spec fn decodable(text: Seq<char>) -> bool {
        &&& object_members(text) matches Some(members)
        &&& has_required::<Timestamp>(members, "expiration"@)
        &&& has_required::<String>(members, "link_token"@)
        &&& has_required::<String>(members, "request_id"@)
        &&& has_optional::<String>(members, "hosted_link_url"@)
    }

    open spec fn decodes(text: Seq<char>, value: LinkTokenCreateResponse) -> bool {
        &&& object_members(text) matches Some(members)
        &&& required_is::<Timestamp>(members, "expiration"@, value.expiration)
        &&& required_is::<String>(members, "link_token"@, value.link_token)
        &&& required_is::<String>(members, "request_id"@, value.request_id)
        &&& optional_is::<String>(members, "hosted_link_url"@, value.hosted_link_url)
    }

    fn from_json(text: &str) -> (value: Option<LinkTokenCreateResponse>) {
        let object = JsonObject::parse(text)?;
        let expiration = object.required::<Timestamp>("expiration")?;
        let link_token = object.required::<String>("link_token")?;
        let request_id = object.required::<String>("request_id")?;
        let hosted_link_url = object.optional::<String>("hosted_link_url")?;
        Some(LinkTokenCreateResponse { expiration, link_token, request_id, hosted_link_url })
    }
}

} // verus!
