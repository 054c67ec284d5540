//! Reading the balances of the accounts of an item.

use vstd::prelude::*;
use crate::json::finished;
use crate::json::has_optional;
use crate::json::has_required;
use crate::json::object_members;
use crate::json::optional_is;
use crate::json::quote;
use crate::json::quoted;
use crate::json::read_string;
use crate::json::required_is;
use crate::json::string_value;
use crate::json::with_member;
use crate::json::with_nullable;
use crate::json::with_optional;
use crate::json::FromJson;
use crate::json::JsonNumber;
use crate::json::JsonObject;
use crate::json::ObjectWriter;
use crate::json::ToJson;
use crate::model::common::Product;
use crate::model::error::PlaidErrorResponse;
use crate::text::str_eq;
use crate::time::Timestamp;

verus! {

/// Which accounts of the item to answer for.
#[derive(Debug, Clone, PartialEq, Eq)]
pub struct AccountBalanceGetRequestOptions {
    pub account_ids: Vec<String>,
}

impl ToJson for AccountBalanceGetRequestOptions {
    open spec fn json(&self) -> Option<Seq<char>> {
        let members = Some(Seq::<(Seq<char>, Seq<char>)>::empty());
        let members = with_member(members, "account_ids"@, self.account_ids.json());
        finished(members)
    }

    fn to_json(&self) -> (text: Option<String>) {
        let writer = ObjectWriter::new();
        let writer = writer.field("account_ids", &self.account_ids);
        writer.finish()
    }
}

impl Default for AccountBalanceGetRequestOptions {
    fn default() -> (options: AccountBalanceGetRequestOptions)
        ensures
            options.account_ids@ == Seq::<String>::empty(),
    {
        AccountBalanceGetRequestOptions { account_ids: Vec::new() }
    }
}

/// What is sent to read balances. The caller fills in the client id and the
/// secret; options without a value are left out of what is sent.
#[derive(Debug, Clone, PartialEq, Eq)]
pub struct AccountsBalanceGetRequest {
    pub client_id: String,
    pub secret: String,
    pub access_token: String,
    pub options: Option<AccountBalanceGetRequestOptions>,
}

impl ToJson for AccountsBalanceGetRequest {
    open spec fn json(&self) -> Option<Seq<char>> {
        let members = Some(Seq::<(Seq<char>, Seq<char>)>::empty());
        let members = with_member(members, "client_id"@, self.client_id.json());
        let members = with_member(members, "secret"@, self.secret.json());
        let members = with_member(members, "access_token"@, self.access_token.json());
        let members = with_optional(members, "options"@, self.options);
        finished(members)
    }

    fn to_json(&self) -> (text: Option<String>) {
        let writer = ObjectWriter::new();
        let writer = writer.field("client_id", &self.client_id);
        let writer = writer.field("secret", &self.secret);
        let writer = writer.field("access_token", &self.access_token);
        let writer = writer.optional("options", &self.options);
        writer.finish()
    }
}

impl Default for AccountsBalanceGetRequest {
    fn default() -> (request: AccountsBalanceGetRequest)
        ensures
            request.client_id@ == Seq::<char>::empty(),
            request.secret@ == Seq::<char>::empty(),
            request.access_token@ == Seq::<char>::empty(),
            request.options is None,
    {
        AccountsBalanceGetRequest {
            client_id: String::new(),
            secret: String::new(),
            access_token: String::new(),
            options: None,
        }
    }
}

/// The broad kind of an account.
#[derive(Debug, Copy, Clone, PartialEq, Eq, Structural)]
pub enum AccountType {
    Depository,
    Credit,
    Loan,
    Investment,
    Other,
}

impl AccountType {
    /// The name of each kind of account on the wire.
    pub open spec fn wire(self) -> Seq<char> {
        match self {
            AccountType::Depository => "depository"@,
            AccountType::Credit => "credit"@,
            AccountType::Loan => "loan"@,
            AccountType::Investment => "investment"@,
            AccountType::Other => "other"@,
        }
    }

    /// The kind of account that a wire name stands for, if it stands for one.
    pub open spec fn named(name: Seq<char>) -> Option<AccountType> {
        if name == "depository"@ {
            Some(AccountType::Depository)
        }         else if name == "credit"@ {
            Some(AccountType::Credit)
        }         else if name == "loan"@ {
            Some(AccountType::Loan)
        }         else if name == "investment"@ {
            Some(AccountType::Investment)
        }         else if name == "other"@ {
            Some(AccountType::Other)
        } else {
            None
        }
    }

    pub fn wire_name(&self) -> (name: &'static str)
        ensures
            name@ == self.wire(),
    {
        match self {
            AccountType::Depository => "depository",
            AccountType::Credit => "credit",
            AccountType::Loan => "loan",
            AccountType::Investment => "investment",
            AccountType::Other => "other",
        }
    }

    pub fn from_wire_name(name: &str) -> (found: Option<AccountType>)
        ensures
            found == AccountType::named(name@),
    {
        if str_eq(name, "depository") {
            return Some(AccountType::Depository);
        }
        if str_eq(name, "credit") {
            return Some(AccountType::Credit);
        }
        if str_eq(name, "loan") {
            return Some(AccountType::Loan);
        }
        if str_eq(name, "investment") {
            return Some(AccountType::Investment);
        }
        if str_eq(name, "other") {
            return Some(AccountType::Other);
        }
        None
    }

    /// A name that stands for a kind of account is the name that
    /// it is written as.
    pub proof fn lemma_named_is_wire(name: Seq<char>)
        ensures
            AccountType::named(name) matches Some(found) ==> found.wire() == name,
    {
    }

    /// Every kind of account is found again by the name it is
    /// written as: no two of them share a name.
    pub proof fn lemma_wire_is_named(self)
        ensures
            AccountType::named(self.wire()) == Some(self),
    {
        // Each name has a length of its own, or differs from the other names of its
        // length in the places shown.
        reveal_strlit("depository");
        assert("depository"@.len() == 10 && "depository"@[0] == 'd');
        reveal_strlit("credit");
        assert("credit"@.len() == 6);
        reveal_strlit("loan");
        assert("loan"@.len() == 4);
        reveal_strlit("investment");
        assert("investment"@.len() == 10 && "investment"@[0] == 'i');
        reveal_strlit("other");
        assert("other"@.len() == 5);
    }
}

impl ToJson for AccountType {
    open spec fn json(&self) -> Option<Seq<char>> {
        quoted(self.wire())
    }

    fn to_json(&self) -> (text: Option<String>) {
        quote(self.wire_name())
    }
}

impl FromJson for AccountType {
    open spec fn decodable(text: Seq<char>) -> bool {
        &&& string_value(text) matches Some(name)
        &&& AccountType::named(name) is Some
    }

    open spec fn decodes(text: Seq<char>, value: AccountType) -> bool {
        &&& string_value(text) matches Some(name)
        &&& AccountType::named(name) == Some(value)
    }

    fn from_json(text: &str) -> (value: Option<AccountType>) {
        match read_string(text) {
            Some(name) => AccountType::from_wire_name(name.as_str()),
            None => None,
        }
    }
}

/// How far the verification of an account has come.
#[derive(Debug, Copy, Clone, PartialEq, Eq, Structural)]
pub enum AccountVerificationStatus {
    AutomaticallyVerified,
    PendingAutomaticVerification,
    PendingManualVerification,
    ManuallyVerified,
    VerificationExpired,
    VerificationFailed,
    DatabaseMatched,
    DatabaseInsightsPass,
    DatabaseInsightsPassWithCaution,
    DatabaseInsightsFail,
}

impl AccountVerificationStatus {
    /// The name of each verification status on the wire.
    pub open spec fn wire(self) -> Seq<char> {
        match self {
            AccountVerificationStatus::AutomaticallyVerified => "automatically_verified"@,
            AccountVerificationStatus::PendingAutomaticVerification => {
                "pending_automatic_verification"@
            },
            AccountVerificationStatus::PendingManualVerification => "pending_manual_verification"@,
            AccountVerificationStatus::ManuallyVerified => "manually_verified"@,
            AccountVerificationStatus::VerificationExpired => "verification_expired"@,
            AccountVerificationStatus::VerificationFailed => "verification_failed"@,
            AccountVerificationStatus::DatabaseMatched => "database_matched"@,
            AccountVerificationStatus::DatabaseInsightsPass => "database_insights_pass"@,
            AccountVerificationStatus::DatabaseInsightsPassWithCaution => {
                "database_insights_pass_with_caution"@
            },
            AccountVerificationStatus::DatabaseInsightsFail => "database_insights_fail"@,
        }
    }

    /// The verification status that a wire name stands for, if it stands for one.
    pub open spec fn named(name: Seq<char>) -> Option<AccountVerificationStatus> {
        if name == "automatically_verified"@ {
            Some(AccountVerificationStatus::AutomaticallyVerified)
        }         else if name == "pending_automatic_verification"@ {
            Some(AccountVerificationStatus::PendingAutomaticVerification)
        }         else if name == "pending_manual_verification"@ {
            Some(AccountVerificationStatus::PendingManualVerification)
        }         else if name == "manually_verified"@ {
            Some(AccountVerificationStatus::ManuallyVerified)
        }         else if name == "verification_expired"@ {
            Some(AccountVerificationStatus::VerificationExpired)
        }         else if name == "verification_failed"@ {
            Some(AccountVerificationStatus::VerificationFailed)
        }         else if name == "database_matched"@ {
            Some(AccountVerificationStatus::DatabaseMatched)
        }         else if name == "database_insights_pass"@ {
            Some(AccountVerificationStatus::DatabaseInsightsPass)
        }         else if name == "database_insights_pass_with_caution"@ {
            Some(AccountVerificationStatus::DatabaseInsightsPassWithCaution)
        }         else if name == "database_insights_fail"@ {
            Some(AccountVerificationStatus::DatabaseInsightsFail)
        } else {
            None
        }
    }

    pub fn wire_name(&self) -> (name: &'static str)
        ensures
            name@ == self.wire(),
    {
        match self {
            AccountVerificationStatus::AutomaticallyVerified => "automatically_verified",
            AccountVerificationStatus::PendingAutomaticVerification => {
                "pending_automatic_verification"
            },
            AccountVerificationStatus::PendingManualVerification => "pending_manual_verification",
            AccountVerificationStatus::ManuallyVerified => "manually_verified",
            AccountVerificationStatus::VerificationExpired => "verification_expired",
            AccountVerificationStatus::VerificationFailed => "verification_failed",
            AccountVerificationStatus::DatabaseMatched => "database_matched",
            AccountVerificationStatus::DatabaseInsightsPass => "database_insights_pass",
            AccountVerificationStatus::DatabaseInsightsPassWithCaution => {
                "database_insights_pass_with_caution"
            },
            AccountVerificationStatus::DatabaseInsightsFail => "database_insights_fail",
        }
    }

    pub fn from_wire_name(name: &str) -> (found: Option<AccountVerificationStatus>)
        ensures
            found == AccountVerificationStatus::named(name@),
    {
        if str_eq(name, "automatically_verified") {
            return Some(AccountVerificationStatus::AutomaticallyVerified);
        }
        if str_eq(name, "pending_automatic_verification") {
            return Some(AccountVerificationStatus::PendingAutomaticVerification);
        }
        if str_eq(name, "pending_manual_verification") {
            return Some(AccountVerificationStatus::PendingManualVerification);
        }
        if str_eq(name, "manually_verified") {
            return Some(AccountVerificationStatus::ManuallyVerified);
        }
        if str_eq(name, "verification_expired") {
            return Some(AccountVerificationStatus::VerificationExpired);
        }
        if str_eq(name, "verification_failed") {
            return Some(AccountVerificationStatus::VerificationFailed);
        }
        if str_eq(name, "database_matched") {
            return Some(AccountVerificationStatus::DatabaseMatched);
        }
        if str_eq(name, "database_insights_pass") {
            return Some(AccountVerificationStatus::DatabaseInsightsPass);
        }
        if str_eq(name, "database_insights_pass_with_caution") {
            return Some(AccountVerificationStatus::DatabaseInsightsPassWithCaution);
        }
        if str_eq(name, "database_insights_fail") {
            return Some(AccountVerificationStatus::DatabaseInsightsFail);
        }
        None
    }

    /// A name that stands for a verification status is the name that
    /// it is written as.
    pub proof fn lemma_named_is_wire(name: Seq<char>)
        ensures
            AccountVerificationStatus::named(name) matches Some(found) ==> found.wire() == name,
    {
    }

    /// Every verification status is found again by the name it is
    /// written as: no two of them share a name.
    pub proof fn lemma_wire_is_named(self)
        ensures
            AccountVerificationStatus::named(self.wire()) == Some(self),
    {
        // Each name has a length of its own, or differs from the other names of its
        // length in the places shown.
        reveal_strlit("automatically_verified");
        assert("automatically_verified"@.len() == 22 && "automatically_verified"@[20] == 'e');
        reveal_strlit("pending_automatic_verification");
        assert("pending_automatic_verification"@.len() == 30);
        reveal_strlit("pending_manual_verification");
        assert("pending_manual_verification"@.len() == 27);
        reveal_strlit("manually_verified");
        assert("manually_verified"@.len() == 17);
        reveal_strlit("verification_expired");
        assert("verification_expired"@.len() == 20);
        reveal_strlit("verification_failed");
        assert("verification_failed"@.len() == 19);
        reveal_strlit("database_matched");
        assert("database_matched"@.len() == 16);
        reveal_strlit("database_insights_pass");
        assert("database_insights_pass"@.len() == 22 && "database_insights_pass"@[20] == 's');
        reveal_strlit("database_insights_pass_with_caution");
        assert("database_insights_pass_with_caution"@.len() == 35);
        reveal_strlit("database_insights_fail");
        assert("database_insights_fail"@.len() == 22 && "database_insights_fail"@[20] == 'i');
    }
}

impl ToJson for AccountVerificationStatus {
    open spec fn json(&self) -> Option<Seq<char>> {
        quoted(self.wire())
    }

    fn to_json(&self) -> (text: Option<String>) {
        quote(self.wire_name())
    }
}

impl FromJson for AccountVerificationStatus {
    open spec fn decodable(text: Seq<char>) -> bool {
        &&& string_value(text) matches Some(name)
        &&& AccountVerificationStatus::named(name) is Some
    }

    open spec fn decodes(text: Seq<char>, value: AccountVerificationStatus) -> bool {
        &&& string_value(text) matches Some(name)
        &&& AccountVerificationStatus::named(name) == Some(value)
    }

    fn from_json(text: &str) -> (value: Option<AccountVerificationStatus>) {
        match read_string(text) {
            Some(name) => AccountVerificationStatus::from_wire_name(name.as_str()),
            None => None,
        }
    }
}

/// What the Plaid network knows of the account numbers.
#[derive(Debug, Clone, PartialEq, Eq)]
pub struct AccountNetworkStatus {
    pub has_numbers_match: bool,
    pub is_numbers_match_verified: bool,
}

impl ToJson for AccountNetworkStatus {
    open spec fn json(&self) -> Option<Seq<char>> {
        let members = Some(Seq::<(Seq<char>, Seq<char>)>::empty());
        let members = with_member(members, "has_numbers_match"@, self.has_numbers_match.json());
        let members = with_member(
            members,
            "is_numbers_match_verified"@,
            self.is_numbers_match_verified.json(),
        );
        finished(members)
    }

    fn to_json(&self) -> (text: Option<String>) {
        let writer = ObjectWriter::new();
        let writer = writer.field("has_numbers_match", &self.has_numbers_match);
        let writer = writer.field("is_numbers_match_verified", &self.is_numbers_match_verified);
        writer.finish()
    }
}

impl FromJson for AccountNetworkStatus {
    open spec fn decodable(text: Seq<char>) -> bool {
        &&& object_members(text) matches Some(members)
        &&& has_required::<bool>(members, "has_numbers_match"@)
        &&& has_required::<bool>(members, "is_numbers_match_verified"@)
    }

    open spec fn decodes(text: Seq<char>, value: AccountNetworkStatus) -> bool {
        &&& object_members(text) matches Some(members)
        &&& required_is::<bool>(members, "has_numbers_match"@, value.has_numbers_match)
        &&& required_is::<bool>(
            members,
            "is_numbers_match_verified"@,
            value.is_numbers_match_verified,
        )
    }

    fn from_json(text: &str) -> (value: Option<AccountNetworkStatus>) {
        let object = JsonObject::parse(text)?;
        let has_numbers_match = object.required::<bool>("has_numbers_match")?;
        let is_numbers_match_verified = object.required::<bool>("is_numbers_match_verified")?;
        Some(AccountNetworkStatus { has_numbers_match, is_numbers_match_verified })
    }
}

/// Whether a payment from the account was returned before.
#[derive(Debug, Clone, PartialEq, Eq)]
pub struct AccountPreviousReturns {
    pub has_previous_administrative_return: bool,
}

impl ToJson for AccountPreviousReturns {
    open spec fn json(&self) -> Option<Seq<char>> {
        let members = Some(Seq::<(Seq<char>, Seq<char>)>::empty());
        let members = with_member(
            members,
            "has_previous_administrative_return"@,
            self.has_previous_administrative_return.json(),
        );
        finished(members)
    }

    fn to_json(&self) -> (text: Option<String>) {
        let writer = ObjectWriter::new();
        let writer = writer
            .field("has_previous_administrative_return", &self.has_previous_administrative_return);
        writer.finish()
    }
}

impl FromJson for AccountPreviousReturns {
    open spec fn decodable(text: Seq<char>) -> bool {
        &&& object_members(text) matches Some(members)
        &&& has_required::<bool>(members, "has_previous_administrative_return"@)
    }

    open spec fn decodes(text: Seq<char>, value: AccountPreviousReturns) -> bool {
        &&& object_members(text) matches Some(members)
        &&& required_is::<bool>(
            members,
            "has_previous_administrative_return"@,
            value.has_previous_administrative_return,
        )
    }

    fn from_json(text: &str) -> (value: Option<AccountPreviousReturns>) {
        let object = JsonObject::parse(text)?;
        let has_previous_administrative_return = object
            .required::<bool>("has_previous_administrative_return")?;
        Some(AccountPreviousReturns { has_previous_administrative_return })
    }
}

/// Whether the account number has the form its institution uses.
#[derive(Debug, Copy, Clone, PartialEq, Eq, Structural)]
pub enum AccountNumberFormat {
    Valid,
    Invalid,
    Unknown,
}

impl AccountNumberFormat {
    /// The name of each number format on the wire.
    pub open spec fn wire(self) -> Seq<char> {
        match self {
            AccountNumberFormat::Valid => "valid"@,
            AccountNumberFormat::Invalid => "invalid"@,
            AccountNumberFormat::Unknown => "unknown"@,
        }
    }

    /// The number format that a wire name stands for, if it stands for one.
    pub open spec fn named(name: Seq<char>) -> Option<AccountNumberFormat> {
        if name == "valid"@ {
            Some(AccountNumberFormat::Valid)
        }         else if name == "invalid"@ {
            Some(AccountNumberFormat::Invalid)
        }         else if name == "unknown"@ {
            Some(AccountNumberFormat::Unknown)
        } else {
            None
        }
    }

    pub fn wire_name(&self) -> (name: &'static str)
        ensures
            name@ == self.wire(),
    {
        match self {
            AccountNumberFormat::Valid => "valid",
            AccountNumberFormat::Invalid => "invalid",
            AccountNumberFormat::Unknown => "unknown",
        }
    }

    pub fn from_wire_name(name: &str) -> (found: Option<AccountNumberFormat>)
        ensures
            found == AccountNumberFormat::named(name@),
    {
        if str_eq(name, "valid") {
            return Some(AccountNumberFormat::Valid);
        }
        if str_eq(name, "invalid") {
            return Some(AccountNumberFormat::Invalid);
        }
        if str_eq(name, "unknown") {
            return Some(AccountNumberFormat::Unknown);
        }
        None
    }

    /// A name that stands for a number format is the name that
    /// it is written as.
    pub proof fn lemma_named_is_wire(name: Seq<char>)
        ensures
            AccountNumberFormat::named(name) matches Some(found) ==> found.wire() == name,
    {
    }

    /// Every number format is found again by the name it is
    /// written as: no two of them share a name.
    pub proof fn lemma_wire_is_named(self)
        ensures
            AccountNumberFormat::named(self.wire()) == Some(self),
    {
        // Each name has a length of its own, or differs from the other names of its
        // length in the places shown.
        reveal_strlit("valid");
        assert("valid"@.len() == 5);
        reveal_strlit("invalid");
        assert("invalid"@.len() == 7 && "invalid"@[0] == 'i');
        reveal_strlit("unknown");
        assert("unknown"@.len() == 7 && "unknown"@[0] == 'u');
    }
}

impl ToJson for AccountNumberFormat {
    open spec fn json(&self) -> Option<Seq<char>> {
        quoted(self.wire())
    }

    fn to_json(&self) -> (text: Option<String>) {
        quote(self.wire_name())
    }
}

impl FromJson for AccountNumberFormat {
    open spec fn decodable(text: Seq<char>) -> bool {
        &&& string_value(text) matches Some(name)
        &&& AccountNumberFormat::named(name) is Some
    }

    open spec fn decodes(text: Seq<char>, value: AccountNumberFormat) -> bool {
        &&& string_value(text) matches Some(name)
        &&& AccountNumberFormat::named(name) == Some(value)
    }

    fn from_json(text: &str) -> (value: Option<AccountNumberFormat>) {
        match read_string(text) {
            Some(name) => AccountNumberFormat::from_wire_name(name.as_str()),
            None => None,
        }
    }
}

/// What speaks for or against an account that was verified by database.
#[derive(Debug, Clone, PartialEq, Eq)]
pub struct AccountVerificationInsights {
    pub network_status: AccountNetworkStatus,
    pub previous_returns: AccountPreviousReturns,
    pub account_number_format: AccountNumberFormat,
}

impl ToJson for AccountVerificationInsights {
    open spec fn json(&self) -> Option<Seq<char>> {
        let members = Some(Seq::<(Seq<char>, Seq<char>)>::empty());
        let members = with_member(members, "network_status"@, self.network_status.json());
        let members = with_member(members, "previous_returns"@, self.previous_returns.json());
        let members = with_member(
            members,
            "account_number_format"@,
            self.account_number_format.json(),
        );
        finished(members)
    }

    fn to_json(&self) -> (text: Option<String>) {
        let writer = ObjectWriter::new();
        let writer = writer.field("network_status", &self.network_status);
        let writer = writer.field("previous_returns", &self.previous_returns);
        let writer = writer.field("account_number_format", &self.account_number_format);
        writer.finish()
    }
}

impl FromJson for AccountVerificationInsights {
    open spec fn decodable(text: Seq<char>) -> bool {
        &&& object_members(text) matches Some(members)
        &&& has_required::<AccountNetworkStatus>(members, "network_status"@)
        &&& has_required::<AccountPreviousReturns>(members, "previous_returns"@)
        &&& has_required::<AccountNumberFormat>(members, "account_number_format"@)
    }

    open spec fn decodes(text: Seq<char>, value: AccountVerificationInsights) -> bool {
        &&& object_members(text) matches Some(members)
        &&& required_is::<AccountNetworkStatus>(members, "network_status"@, value.network_status)
        &&& required_is::<AccountPreviousReturns>(
            members,
            "previous_returns"@,
            value.previous_returns,
        )
        &&& required_is::<AccountNumberFormat>(
            members,
            "account_number_format"@,
            value.account_number_format,
        )
    }

    fn from_json(text: &str) -> (value: Option<AccountVerificationInsights>) {
        let object = JsonObject::parse(text)?;
        let network_status = object.required::<AccountNetworkStatus>("network_status")?;
        let previous_returns = object.required::<AccountPreviousReturns>("previous_returns")?;
        let account_number_format = object
            .required::<AccountNumberFormat>("account_number_format")?;
        Some(
            AccountVerificationInsights { network_status, previous_returns, account_number_format },
        )
    }
}

/// Who holds the account.
#[derive(Debug, Copy, Clone, PartialEq, Eq, Structural)]
pub enum AccountHolderCategory {
    Business,
    Personal,
    Unrecognized,
}

impl AccountHolderCategory {
    /// The name of each holder category on the wire.
    pub open spec fn wire(self) -> Seq<char> {
        match self {
            AccountHolderCategory::Business => "business"@,
            AccountHolderCategory::Personal => "personal"@,
            AccountHolderCategory::Unrecognized => "unrecognized"@,
        }
    }

    /// The holder category that a wire name stands for, if it stands for one.
    pub open spec fn named(name: Seq<char>) -> Option<AccountHolderCategory> {
        if name == "business"@ {
            Some(AccountHolderCategory::Business)
        }         else if name == "personal"@ {
            Some(AccountHolderCategory::Personal)
        }         else if name == "unrecognized"@ {
            Some(AccountHolderCategory::Unrecognized)
        } else {
            None
        }
    }

    pub fn wire_name(&self) -> (name: &'static str)
        ensures
            name@ == self.wire(),
    {
        match self {
            AccountHolderCategory::Business => "business",
            AccountHolderCategory::Personal => "personal",
            AccountHolderCategory::Unrecognized => "unrecognized",
        }
    }

    pub fn from_wire_name(name: &str) -> (found: Option<AccountHolderCategory>)
        ensures
            found == AccountHolderCategory::named(name@),
    {
        if str_eq(name, "business") {
            return Some(AccountHolderCategory::Business);
        }
        if str_eq(name, "personal") {
            return Some(AccountHolderCategory::Personal);
        }
        if str_eq(name, "unrecognized") {
            return Some(AccountHolderCategory::Unrecognized);
        }
        None
    }

    /// A name that stands for a holder category is the name that
    /// it is written as.
    pub proof fn lemma_named_is_wire(name: Seq<char>)
        ensures
            AccountHolderCategory::named(name) matches Some(found) ==> found.wire() == name,
    {
    }

    /// Every holder category is found again by the name it is
    /// written as: no two of them share a name.
    pub proof fn lemma_wire_is_named(self)
        ensures
            AccountHolderCategory::named(self.wire()) == Some(self),
    {
        // Each name has a length of its own, or differs from the other names of its
        // length in the places shown.
        reveal_strlit("business");
        assert("business"@.len() == 8 && "business"@[0] == 'b');
        reveal_strlit("personal");
        assert("personal"@.len() == 8 && "personal"@[0] == 'p');
        reveal_strlit("unrecognized");
        assert("unrecognized"@.len() == 12);
    }
}

impl ToJson for AccountHolderCategory {
    open spec fn json(&self) -> Option<Seq<char>> {
        quoted(self.wire())
    }

    fn to_json(&self) -> (text: Option<String>) {
        quote(self.wire_name())
    }
}

impl FromJson for AccountHolderCategory {
    open spec fn decodable(text: Seq<char>) -> bool {
        &&& string_value(text) matches Some(name)
        &&& AccountHolderCategory::named(name) is Some
    }

    open spec fn decodes(text: Seq<char>, value: AccountHolderCategory) -> bool {
        &&& string_value(text) matches Some(name)
        &&& AccountHolderCategory::named(name) == Some(value)
    }

    fn from_json(text: &str) -> (value: Option<AccountHolderCategory>) {
        match read_string(text) {
            Some(name) => AccountHolderCategory::from_wire_name(name.as_str()),
            None => None,
        }
    }
}

/// The balances of one account. The amounts are carried as JSON numbers and
/// are not computed with.
#[derive(Debug, Clone, PartialEq, Eq)]
pub struct AccountBalance {
    pub available: Option<JsonNumber>,
    pub current: Option<JsonNumber>,
    pub limit: Option<JsonNumber>,
    pub iso_currency_code: Option<String>,
    pub unofficial_currency_code: Option<String>,
    pub last_updated_datetime: Option<Timestamp>,
}

impl ToJson for AccountBalance {
    open spec fn json(&self) -> Option<Seq<char>> {
        let members = Some(Seq::<(Seq<char>, Seq<char>)>::empty());
        let members = with_nullable(members, "available"@, self.available);
        let members = with_nullable(members, "current"@, self.current);
        let members = with_nullable(members, "limit"@, self.limit);
        let members = with_nullable(members, "iso_currency_code"@, self.iso_currency_code);
        let members = with_nullable(
            members,
            "unofficial_currency_code"@,
            self.unofficial_currency_code,
        );
        let members = with_nullable(members, "last_updated_datetime"@, self.last_updated_datetime);
        finished(members)
    }

    fn to_json(&self) -> (text: Option<String>) {
        let writer = ObjectWriter::new();
        let writer = writer.nullable("available", &self.available);
        let writer = writer.nullable("current", &self.current);
        let writer = writer.nullable("limit", &self.limit);
        let writer = writer.nullable("iso_currency_code", &self.iso_currency_code);
        let writer = writer.nullable("unofficial_currency_code", &self.unofficial_currency_code);
        let writer = writer.nullable("last_updated_datetime", &self.last_updated_datetime);
        writer.finish()
    }
}

impl FromJson for AccountBalance {
    open spec fn decodable(text: Seq<char>) -> bool {
        &&& object_members(text) matches Some(members)
        &&& has_optional::<JsonNumber>(members, "available"@)
        &&& has_optional::<JsonNumber>(members, "current"@)
        &&& has_optional::<JsonNumber>(members, "limit"@)
        &&& has_optional::<String>(members, "iso_currency_code"@)
        &&& has_optional::<String>(members, "unofficial_currency_code"@)
        &&& has_optional::<Timestamp>(members, "last_updated_datetime"@)
    }

    open spec fn decodes(text: Seq<char>, value: AccountBalance) -> bool {
        &&& object_members(text) matches Some(members)
        &&& optional_is::<JsonNumber>(members, "available"@, value.available)
        &&& optional_is::<JsonNumber>(members, "current"@, value.current)
        &&& optional_is::<JsonNumber>(members, "limit"@, value.limit)
        &&& optional_is::<String>(members, "iso_currency_code"@, value.iso_currency_code)
        &&& optional_is::<String>(
            members,
            "unofficial_currency_code"@,
            value.unofficial_currency_code,
        )
        &&& optional_is::<Timestamp>(members, "last_updated_datetime"@, value.last_updated_datetime)
    }

    fn from_json(text: &str) -> (value: Option<AccountBalance>) {
        let object = JsonObject::parse(text)?;
        let available = object.optional::<JsonNumber>("available")?;
        let current = object.optional::<JsonNumber>("current")?;
        let limit = object.optional::<JsonNumber>("limit")?;
        let iso_currency_code = object.optional::<String>("iso_currency_code")?;
        let unofficial_currency_code = object.optional::<String>("unofficial_currency_code")?;
        let last_updated_datetime = object.optional::<Timestamp>("last_updated_datetime")?;
        Some(
            AccountBalance {
                available,
                current,
                limit,
                iso_currency_code,
                unofficial_currency_code,
                last_updated_datetime,
            },
        )
    }
}

/// One account of an item.
#[derive(Debug, Clone, PartialEq, Eq)]
pub struct Account {
    pub account_id: String,
    pub balances: AccountBalance,
    pub mask: Option<String>,
    pub name: String,
    pub official_name: Option<String>,
    pub type_: AccountType,
    pub subtype: Option<String>,
    pub verification_status: Option<AccountVerificationStatus>,
    pub verification_insights: Option<AccountVerificationInsights>,
    pub persistent_account_id: String,
    pub holder_category: Option<AccountHolderCategory>,
}

impl ToJson for Account {
    open spec fn json(&self) -> Option<Seq<char>> {
        let members = Some(Seq::<(Seq<char>, Seq<char>)>::empty());
        let members = with_member(members, "account_id"@, self.account_id.json());
        let members = with_member(members, "balances"@, self.balances.json());
        let members = with_nullable(members, "mask"@, self.mask);
        let members = with_member(members, "name"@, self.name.json());
        let members = with_nullable(members, "official_name"@, self.official_name);
        let members = with_member(members, "type"@, self.type_.json());
        let members = with_nullable(members, "subtype"@, self.subtype);
        let members = with_nullable(members, "verification_status"@, self.verification_status);
        let members = with_nullable(members, "verification_insights"@, self.verification_insights);
        let members = with_member(
            members,
            "persistent_account_id"@,
            self.persistent_account_id.json(),
        );
        let members = with_nullable(members, "holder_category"@, self.holder_category);
        finished(members)
    }

    fn to_json(&self) -> (text: Option<String>) {
        let writer = ObjectWriter::new();
        let writer = writer.field("account_id", &self.account_id);
        let writer = writer.field("balances", &self.balances);
        let writer = writer.nullable("mask", &self.mask);
        let writer = writer.field("name", &self.name);
        let writer = writer.nullable("official_name", &self.official_name);
        let writer = writer.field("type", &self.type_);
        let writer = writer.nullable("subtype", &self.subtype);
        let writer = writer.nullable("verification_status", &self.verification_status);
        let writer = writer.nullable("verification_insights", &self.verification_insights);
        let writer = writer.field("persistent_account_id", &self.persistent_account_id);
        let writer = writer.nullable("holder_category", &self.holder_category);
        writer.finish()
    }
}

impl FromJson for Account {
    open spec fn decodable(text: Seq<char>) -> bool {
        &&& object_members(text) matches Some(members)
        &&& has_required::<String>(members, "account_id"@)
        &&& has_required::<AccountBalance>(members, "balances"@)
        &&& has_optional::<String>(members, "mask"@)
        &&& has_required::<String>(members, "name"@)
        &&& has_optional::<String>(members, "official_name"@)
        &&& has_required::<AccountType>(members, "type"@)
        &&& has_optional::<String>(members, "subtype"@)
        &&& has_optional::<AccountVerificationStatus>(members, "verification_status"@)
        &&& has_optional::<AccountVerificationInsights>(members, "verification_insights"@)
        &&& has_required::<String>(members, "persistent_account_id"@)
        &&& has_optional::<AccountHolderCategory>(members, "holder_category"@)
    }

    open spec fn decodes(text: Seq<char>, value: Account) -> bool {
        &&& object_members(text) matches Some(members)
        &&& required_is::<String>(members, "account_id"@, value.account_id)
        &&& required_is::<AccountBalance>(members, "balances"@, value.balances)
        &&& optional_is::<String>(members, "mask"@, value.mask)
        &&& required_is::<String>(members, "name"@, value.name)
        &&& optional_is::<String>(members, "official_name"@, value.official_name)
        &&& required_is::<AccountType>(members, "type"@, value.type_)
        &&& optional_is::<String>(members, "subtype"@, value.subtype)
        &&& optional_is::<AccountVerificationStatus>(
            members,
            "verification_status"@,
            value.verification_status,
        )
        &&& optional_is::<AccountVerificationInsights>(
            members,
            "verification_insights"@,
            value.verification_insights,
        )
        &&& required_is::<String>(members, "persistent_account_id"@, value.persistent_account_id)
        &&& optional_is::<AccountHolderCategory>(members, "holder_category"@, value.holder_category)
    }

    fn from_json(text: &str) -> (value: Option<Account>) {
        let object = JsonObject::parse(text)?;
        let account_id = object.required::<String>("account_id")?;
        let balances = object.required::<AccountBalance>("balances")?;
        let mask = object.optional::<String>("mask")?;
        let name = object.required::<String>("name")?;
        let official_name = object.optional::<String>("official_name")?;
        let type_ = object.required::<AccountType>("type")?;
        let subtype = object.optional::<String>("subtype")?;
        let verification_status = object
            .optional::<AccountVerificationStatus>("verification_status")?;
        let verification_insights = object
            .optional::<AccountVerificationInsights>("verification_insights")?;
        let persistent_account_id = object.required::<String>("persistent_account_id")?;
        let holder_category = object.optional::<AccountHolderCategory>("holder_category")?;
        Some(
            Account {
                account_id,
                balances,
                mask,
                name,
                official_name,
                type_,
                subtype,
                verification_status,
                verification_insights,
                persistent_account_id,
                holder_category,
            },
        )
    }
}

/// Whether Plaid can refresh the item without the user.
#[derive(Debug, Copy, Clone, PartialEq, Eq, Structural)]
pub enum AccountUpdateType {
    Background,
    UserPresentRequired,
}

impl AccountUpdateType {
    /// The name of each update type on the wire.
    pub open spec fn wire(self) -> Seq<char> {
        match self {
            AccountUpdateType::Background => "background"@,
            AccountUpdateType::UserPresentRequired => "user_present_required"@,
        }
    }

    /// The update type that a wire name stands for, if it stands for one.
    pub open spec fn named(name: Seq<char>) -> Option<AccountUpdateType> {
        if name == "background"@ {
            Some(AccountUpdateType::Background)
        }         else if name == "user_present_required"@ {
            Some(AccountUpdateType::UserPresentRequired)
        } else {
            None
        }
    }

    pub fn wire_name(&self) -> (name: &'static str)
        ensures
            name@ == self.wire(),
    {
        match self {
            AccountUpdateType::Background => "background",
            AccountUpdateType::UserPresentRequired => "user_present_required",
        }
    }

    pub fn from_wire_name(name: &str) -> (found: Option<AccountUpdateType>)
        ensures
            found == AccountUpdateType::named(name@),
    {
        if str_eq(name, "background") {
            return Some(AccountUpdateType::Background);
        }
        if str_eq(name, "user_present_required") {
            return Some(AccountUpdateType::UserPresentRequired);
        }
        None
    }

    /// A name that stands for a update type is the name that
    /// it is written as.
    pub proof fn lemma_named_is_wire(name: Seq<char>)
        ensures
            AccountUpdateType::named(name) matches Some(found) ==> found.wire() == name,
    {
    }

    /// Every update type is found again by the name it is
    /// written as: no two of them share a name.
    pub proof fn lemma_wire_is_named(self)
        ensures
            AccountUpdateType::named(self.wire()) == Some(self),
    {
        // Each name has a length of its own, or differs from the other names of its
        // length in the places shown.
        reveal_strlit("background");
        assert("background"@.len() == 10);
        reveal_strlit("user_present_required");
        assert("user_present_required"@.len() == 21);
    }
}

impl ToJson for AccountUpdateType {
    open spec fn json(&self) -> Option<Seq<char>> {
        quoted(self.wire())
    }

    fn to_json(&self) -> (text: Option<String>) {
        quote(self.wire_name())
    }
}

impl FromJson for AccountUpdateType {
    open spec fn decodable(text: Seq<char>) -> bool {
        &&& string_value(text) matches Some(name)
        &&& AccountUpdateType::named(name) is Some
    }

    open spec fn decodes(text: Seq<char>, value: AccountUpdateType) -> bool {
        &&& string_value(text) matches Some(name)
        &&& AccountUpdateType::named(name) == Some(value)
    }

    fn from_json(text: &str) -> (value: Option<AccountUpdateType>) {
        match read_string(text) {
            Some(name) => AccountUpdateType::from_wire_name(name.as_str()),
            None => None,
        }
    }
}

/// The item that the accounts belong to.
#[derive(Debug, Clone, PartialEq, Eq)]
pub struct AccountItem {
    pub item_id: String,
    pub institution_id: Option<String>,
    pub webhook: Option<String>,
    pub error: Option<PlaidErrorResponse>,
    pub available_products: Vec<Product>,
    pub billed_products: Option<Vec<Product>>,
    pub consented_products: Option<Vec<Product>>,
    pub consent_expiration_time: Option<Timestamp>,
    pub updated_type: Option<AccountUpdateType>,
}

impl ToJson for AccountItem {
    open spec fn json(&self) -> Option<Seq<char>> {
        let members = Some(Seq::<(Seq<char>, Seq<char>)>::empty());
        let members = with_member(members, "item_id"@, self.item_id.json());
        let members = with_nullable(members, "institution_id"@, self.institution_id);
        let members = with_nullable(members, "webhook"@, self.webhook);
        let members = with_nullable(members, "error"@, self.error);
        let members = with_member(members, "available_products"@, self.available_products.json());
        let members = with_nullable(members, "billed_products"@, self.billed_products);
        let members = with_nullable(members, "consented_products"@, self.consented_products);
        let members = with_nullable(
            members,
            "consent_expiration_time"@,
            self.consent_expiration_time,
        );
        let members = with_nullable(members, "updated_type"@, self.updated_type);
        finished(members)
    }

    fn to_json(&self) -> (text: Option<String>) {
        let writer = ObjectWriter::new();
        let writer = writer.field("item_id", &self.item_id);
        let writer = writer.nullable("institution_id", &self.institution_id);
        let writer = writer.nullable("webhook", &self.webhook);
        let writer = writer.nullable("error", &self.error);
        let writer = writer.field("available_products", &self.available_products);
        let writer = writer.nullable("billed_products", &self.billed_products);
        let writer = writer.nullable("consented_products", &self.consented_products);
        let writer = writer.nullable("consent_expiration_time", &self.consent_expiration_time);
        let writer = writer.nullable("updated_type", &self.updated_type);
        writer.finish()
    }
}

impl FromJson for AccountItem {
    open spec fn decodable(text: Seq<char>) -> bool {
        &&& object_members(text) matches Some(members)
        &&& has_required::<String>(members, "item_id"@)
        &&& has_optional::<String>(members, "institution_id"@)
        &&& has_optional::<String>(members, "webhook"@)
        &&& has_optional::<PlaidErrorResponse>(members, "error"@)
        &&& has_required::<Vec<Product>>(members, "available_products"@)
        &&& has_optional::<Vec<Product>>(members, "billed_products"@)
        &&& has_optional::<Vec<Product>>(members, "consented_products"@)
        &&& has_optional::<Timestamp>(members, "consent_expiration_time"@)
        &&& has_optional::<AccountUpdateType>(members, "updated_type"@)
    }

    open spec fn decodes(text: Seq<char>, value: AccountItem) -> bool {
        &&& object_members(text) matches Some(members)
        &&& required_is::<String>(members, "item_id"@, value.item_id)
        &&& optional_is::<String>(members, "institution_id"@, value.institution_id)
        &&& optional_is::<String>(members, "webhook"@, value.webhook)
        &&& optional_is::<PlaidErrorResponse>(members, "error"@, value.error)
        &&& required_is::<Vec<Product>>(members, "available_products"@, value.available_products)
        &&& optional_is::<Vec<Product>>(members, "billed_products"@, value.billed_products)
        &&& optional_is::<Vec<Product>>(members, "consented_products"@, value.consented_products)
        &&& optional_is::<Timestamp>(
            members,
            "consent_expiration_time"@,
            value.consent_expiration_time,
        )
        &&& optional_is::<AccountUpdateType>(members, "updated_type"@, value.updated_type)
    }

    fn from_json(text: &str) -> (value: Option<AccountItem>) {
        let object = JsonObject::parse(text)?;
        let item_id = object.required::<String>("item_id")?;
        let institution_id = object.optional::<String>("institution_id")?;
        let webhook = object.optional::<String>("webhook")?;
        let error = object.optional::<PlaidErrorResponse>("error")?;
        let available_products = object.required::<Vec<Product>>("available_products")?;
        let billed_products = object.optional::<Vec<Product>>("billed_products")?;
        let consented_products = object.optional::<Vec<Product>>("consented_products")?;
        let consent_expiration_time = object.optional::<Timestamp>("consent_expiration_time")?;
        let updated_type = object.optional::<AccountUpdateType>("updated_type")?;
        Some(
            AccountItem {
                item_id,
                institution_id,
                webhook,
                error,
                available_products,
                billed_products,
                consented_products,
                consent_expiration_time,
                updated_type,
            },
        )
    }
}

/// What Plaid answers: the accounts with their balances, and their item.
#[derive(Debug, Clone, PartialEq, Eq)]
pub struct AccountsGetResponse {
    pub accounts: Vec<Account>,
    pub item: AccountItem,
    pub request_id: String,
}

impl ToJson for AccountsGetResponse {
    open spec fn json(&self) -> Option<Seq<char>> {
        let members = Some(Seq::<(Seq<char>, Seq<char>)>::empty());
        let members = with_member(members, "accounts"@, self.accounts.json());
        let members = with_member(members, "item"@, self.item.json());
        let members = with_member(members, "request_id"@, self.request_id.json());
        finished(members)
    }

    fn to_json(&self) -> (text: Option<String>) {
        let writer = ObjectWriter::new();
        let writer = writer.field("accounts", &self.accounts);
        let writer = writer.field("item", &self.item);
        let writer = writer.field("request_id", &self.request_id);
        writer.finish()
    }
}

impl FromJson for AccountsGetResponse {
    open spec fn decodable(text: Seq<char>) -> bool {
        &&& object_members(text) matches Some(members)
        &&& has_required::<Vec<Account>>(members, "accounts"@)
        &&& has_required::<AccountItem>(members, "item"@)
        &&& has_required::<String>(members, "request_id"@)
    }

    open spec fn decodes(text: Seq<char>, value: AccountsGetResponse) -> bool {
        &&& object_members(text) matches Some(members)
        &&& required_is::<Vec<Account>>(members, "accounts"@, value.accounts)
        &&& required_is::<AccountItem>(members, "item"@, value.item)
        &&& required_is::<String>(members, "request_id"@, value.request_id)
    }

    fn from_json(text: &str) -> (value: Option<AccountsGetResponse>) {
        let object = JsonObject::parse(text)?;
        let accounts = object.required::<Vec<Account>>("accounts")?;
        let item = object.required::<AccountItem>("item")?;
        let request_id = object.required::<String>("request_id")?;
        Some(AccountsGetResponse { accounts, item, request_id })
    }
}

} // verus!
