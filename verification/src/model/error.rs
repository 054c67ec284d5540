//! The reply with which Plaid rejects a request.

use vstd::prelude::*;
use crate::json::finished;
use crate::json::has_optional;
use crate::json::has_required;
use crate::json::object_members;
use crate::json::optional_is;
use crate::json::quote;
use crate::json::quoted;
use crate::json::read_string;
use crate::json::required_is;
use crate::json::string_value;
use crate::json::with_member;
use crate::json::with_nullable;
use crate::json::FromJson;
use crate::json::JsonObject;
use crate::json::ObjectWriter;
use crate::json::RawJson;
use crate::json::ToJson;
use crate::text::str_eq;

verus! {

/// The broad class of an error.
#[derive(Debug, Copy, Clone, PartialEq, Eq, Structural)]
pub enum PlaidErrorType {
    ApiError,
    AssetReportError,
    BankTransferError,
    IncomeVerificationError,
    InstitutionError,
    InvalidInput,
    InvalidRequest,
    InvalidResult,
    ItemError,
    MicrodepositsError,
    OauthError,
    PartnerError,
    PaymentError,
    RateLimitExceeded,
    RecaptchaError,
    SandboxError,
    TransactionError,
    TransactionsError,
    TransferError,
}

impl PlaidErrorType {
    /// The name of each error type on the wire.
    pub open spec fn wire(self) -> Seq<char> {
        match self {
            PlaidErrorType::ApiError => "API_ERROR"@,
            PlaidErrorType::AssetReportError => "ASSET_REPORT_ERROR"@,
            PlaidErrorType::BankTransferError => "BANK_TRANSFER_ERROR"@,
            PlaidErrorType::IncomeVerificationError => "INCOME_VERIFICATION_ERROR"@,
            PlaidErrorType::InstitutionError => "INSTITUTION_ERROR"@,
            PlaidErrorType::InvalidInput => "INVALID_INPUT"@,
            PlaidErrorType::InvalidRequest => "INVALID_REQUEST"@,
            PlaidErrorType::InvalidResult => "INVALID_RESULT"@,
            PlaidErrorType::ItemError => "ITEM_ERROR"@,
            PlaidErrorType::MicrodepositsError => "MICRODEPOSITS_ERROR"@,
            PlaidErrorType::OauthError => "OAUTH_ERROR"@,
            PlaidErrorType::PartnerError => "PARTNER_ERROR"@,
            PlaidErrorType::PaymentError => "PAYMENT_ERROR"@,
            PlaidErrorType::RateLimitExceeded => "RATE_LIMIT_EXCEEDED"@,
            PlaidErrorType::RecaptchaError => "RECAPTCHA_ERROR"@,
            PlaidErrorType::SandboxError => "SANDBOX_ERROR"@,
            PlaidErrorType::TransactionError => "TRANSACTION_ERROR"@,
            PlaidErrorType::TransactionsError => "TRANSACTIONS_ERROR"@,
            PlaidErrorType::TransferError => "TRANSFER_ERROR"@,
        }
    }

    /// The error type that a wire name stands for, if it stands for one.
    pub open spec fn named(name: Seq<char>) -> Option<PlaidErrorType> {
        if name == "API_ERROR"@ {
            Some(PlaidErrorType::ApiError)
        }         else if name == "ASSET_REPORT_ERROR"@ {
            Some(PlaidErrorType::AssetReportError)
        }         else if name == "BANK_TRANSFER_ERROR"@ {
            Some(PlaidErrorType::BankTransferError)
        }         else if name == "INCOME_VERIFICATION_ERROR"@ {
            Some(PlaidErrorType::IncomeVerificationError)
        }         else if name == "INSTITUTION_ERROR"@ {
            Some(PlaidErrorType::InstitutionError)
        }         else if name == "INVALID_INPUT"@ {
            Some(PlaidErrorType::InvalidInput)
        }         else if name == "INVALID_REQUEST"@ {
            Some(PlaidErrorType::InvalidRequest)
        }         else if name == "INVALID_RESULT"@ {
            Some(PlaidErrorType::InvalidResult)
        }         else if name == "ITEM_ERROR"@ {
            Some(PlaidErrorType::ItemError)
        }         else if name == "MICRODEPOSITS_ERROR"@ {
            Some(PlaidErrorType::MicrodepositsError)
        }         else if name == "OAUTH_ERROR"@ {
            Some(PlaidErrorType::OauthError)
        }         else if name == "PARTNER_ERROR"@ {
            Some(PlaidErrorType::PartnerError)
        }         else if name == "PAYMENT_ERROR"@ {
            Some(PlaidErrorType::PaymentError)
        }         else if name == "RATE_LIMIT_EXCEEDED"@ {
            Some(PlaidErrorType::RateLimitExceeded)
        }         else if name == "RECAPTCHA_ERROR"@ {
            Some(PlaidErrorType::RecaptchaError)
        }         else if name == "SANDBOX_ERROR"@ {
            Some(PlaidErrorType::SandboxError)
        }         else if name == "TRANSACTION_ERROR"@ {
            Some(PlaidErrorType::TransactionError)
        }         else if name == "TRANSACTIONS_ERROR"@ {
            Some(PlaidErrorType::TransactionsError)
        }         else if name == "TRANSFER_ERROR"@ {
            Some(PlaidErrorType::TransferError)
        } else {
            None
        }
    }

    pub fn wire_name(&self) -> (name: &'static str)
        ensures
            name@ == self.wire(),
    {
        match self {
            PlaidErrorType::ApiError => "API_ERROR",
            PlaidErrorType::AssetReportError => "ASSET_REPORT_ERROR",
            PlaidErrorType::BankTransferError => "BANK_TRANSFER_ERROR",
            PlaidErrorType::IncomeVerificationError => "INCOME_VERIFICATION_ERROR",
            PlaidErrorType::InstitutionError => "INSTITUTION_ERROR",
            PlaidErrorType::InvalidInput => "INVALID_INPUT",
            PlaidErrorType::InvalidRequest => "INVALID_REQUEST",
            PlaidErrorType::InvalidResult => "INVALID_RESULT",
            PlaidErrorType::ItemError => "ITEM_ERROR",
            PlaidErrorType::MicrodepositsError => "MICRODEPOSITS_ERROR",
            PlaidErrorType::OauthError => "OAUTH_ERROR",
            PlaidErrorType::PartnerError => "PARTNER_ERROR",
            PlaidErrorType::PaymentError => "PAYMENT_ERROR",
            PlaidErrorType::RateLimitExceeded => "RATE_LIMIT_EXCEEDED",
            PlaidErrorType::RecaptchaError => "RECAPTCHA_ERROR",
            PlaidErrorType::SandboxError => "SANDBOX_ERROR",
            PlaidErrorType::TransactionError => "TRANSACTION_ERROR",
            PlaidErrorType::TransactionsError => "TRANSACTIONS_ERROR",
            PlaidErrorType::TransferError => "TRANSFER_ERROR",
        }
    }

    pub fn from_wire_name(name: &str) -> (found: Option<PlaidErrorType>)
        ensures
            found == PlaidErrorType::named(name@),
    {
        if str_eq(name, "API_ERROR") {
            return Some(PlaidErrorType::ApiError);
        }
        if str_eq(name, "ASSET_REPORT_ERROR") {
            return Some(PlaidErrorType::AssetReportError);
        }
        if str_eq(name, "BANK_TRANSFER_ERROR") {
            return Some(PlaidErrorType::BankTransferError);
        }
        if str_eq(name, "INCOME_VERIFICATION_ERROR") {
            return Some(PlaidErrorType::IncomeVerificationError);
        }
        if str_eq(name, "INSTITUTION_ERROR") {
            return Some(PlaidErrorType::InstitutionError);
        }
        if str_eq(name, "INVALID_INPUT") {
            return Some(PlaidErrorType::InvalidInput);
        }
        if str_eq(name, "INVALID_REQUEST") {
            return Some(PlaidErrorType::InvalidRequest);
        }
        if str_eq(name, "INVALID_RESULT") {
            return Some(PlaidErrorType::InvalidResult);
        }
        if str_eq(name, "ITEM_ERROR") {
            return Some(PlaidErrorType::ItemError);
        }
        if str_eq(name, "MICRODEPOSITS_ERROR") {
            return Some(PlaidErrorType::MicrodepositsError);
        }
        if str_eq(name, "OAUTH_ERROR") {
            return Some(PlaidErrorType::OauthError);
        }
        if str_eq(name, "PARTNER_ERROR") {
            return Some(PlaidErrorType::PartnerError);
        }
        if str_eq(name, "PAYMENT_ERROR") {
            return Some(PlaidErrorType::PaymentError);
        }
        if str_eq(name, "RATE_LIMIT_EXCEEDED") {
            return Some(PlaidErrorType::RateLimitExceeded);
        }
        if str_eq(name, "RECAPTCHA_ERROR") {
            return Some(PlaidErrorType::RecaptchaError);
        }
        if str_eq(name, "SANDBOX_ERROR") {
            return Some(PlaidErrorType::SandboxError);
        }
        if str_eq(name, "TRANSACTION_ERROR") {
            return Some(PlaidErrorType::TransactionError);
        }
        if str_eq(name, "TRANSACTIONS_ERROR") {
            return Some(PlaidErrorType::TransactionsError);
        }
        if str_eq(name, "TRANSFER_ERROR") {
            return Some(PlaidErrorType::TransferError);
        }
        None
    }

    /// A name that stands for a error type is the name that
    /// it is written as.
    pub proof fn lemma_named_is_wire(name: Seq<char>)
        ensures
            PlaidErrorType::named(name) matches Some(found) ==> found.wire() == name,
    {
    }

    /// Every error type is found again by the name it is
    /// written as: no two of them share a name.
    pub proof fn lemma_wire_is_named(self)
        ensures
            PlaidErrorType::named(self.wire()) == Some(self),
    {
        // Each name has a length of its own, or differs from the other names of its
        // length in the places shown.
        reveal_strlit("API_ERROR");
        assert("API_ERROR"@.len() == 9);
        reveal_strlit("ASSET_REPORT_ERROR");
        assert("ASSET_REPORT_ERROR"@.len() == 18 && "ASSET_REPORT_ERROR"@[0] == 'A');
        reveal_strlit("BANK_TRANSFER_ERROR");
        assert("BANK_TRANSFER_ERROR"@.len() == 19 && "BANK_TRANSFER_ERROR"@[0] == 'B');
        reveal_strlit("INCOME_VERIFICATION_ERROR");
        assert("INCOME_VERIFICATION_ERROR"@.len() == 25);
        reveal_strlit("INSTITUTION_ERROR");
        assert("INSTITUTION_ERROR"@.len() == 17 && "INSTITUTION_ERROR"@[0] == 'I');
        reveal_strlit("INVALID_INPUT");
        assert("INVALID_INPUT"@.len() == 13 && "INVALID_INPUT"@[2] == 'V');
        reveal_strlit("INVALID_REQUEST");
        assert("INVALID_REQUEST"@.len() == 15 && "INVALID_REQUEST"@[0] == 'I');
        reveal_strlit("INVALID_RESULT");
        assert("INVALID_RESULT"@.len() == 14 && "INVALID_RESULT"@[0] == 'I');
        reveal_strlit("ITEM_ERROR");
        assert("ITEM_ERROR"@.len() == 10);
        reveal_strlit("MICRODEPOSITS_ERROR");
        assert("MICRODEPOSITS_ERROR"@.len() == 19 && "MICRODEPOSITS_ERROR"@[0] == 'M');
        reveal_strlit("OAUTH_ERROR");
        assert("OAUTH_ERROR"@.len() == 11);
        reveal_strlit("PARTNER_ERROR");
        assert("PARTNER_ERROR"@.len() == 13 && "PARTNER_ERROR"@[2] == 'R');
        reveal_strlit("PAYMENT_ERROR");
        assert("PAYMENT_ERROR"@.len() == 13 && "PAYMENT_ERROR"@[2] == 'Y');
        reveal_strlit("RATE_LIMIT_EXCEEDED");
        assert("RATE_LIMIT_EXCEEDED"@.len() == 19 && "RATE_LIMIT_EXCEEDED"@[0] == 'R');
        reveal_strlit("RECAPTCHA_ERROR");
        assert("RECAPTCHA_ERROR"@.len() == 15 && "RECAPTCHA_ERROR"@[0] == 'R');
        reveal_strlit("SANDBOX_ERROR");
        assert("SANDBOX_ERROR"@.len() == 13 && "SANDBOX_ERROR"@[2] == 'N');
        reveal_strlit("TRANSACTION_ERROR");
        assert("TRANSACTION_ERROR"@.len() == 17 && "TRANSACTION_ERROR"@[0] == 'T');
        reveal_strlit("TRANSACTIONS_ERROR");
        assert("TRANSACTIONS_ERROR"@.len() == 18 && "TRANSACTIONS_ERROR"@[0] == 'T');
        reveal_strlit("TRANSFER_ERROR");
        assert("TRANSFER_ERROR"@.len() == 14 && "TRANSFER_ERROR"@[0] == 'T');
    }
}

impl ToJson for PlaidErrorType {
    open spec fn json(&self) -> Option<Seq<char>> {
        quoted(self.wire())
    }

    fn to_json(&self) -> (text: Option<String>) {
        quote(self.wire_name())
    }
}

impl FromJson for PlaidErrorType {
    open spec fn decodable(text: Seq<char>) -> bool {
        &&& string_value(text) matches Some(name)
        &&& PlaidErrorType::named(name) is Some
    }

    open spec fn decodes(text: Seq<char>, value: PlaidErrorType) -> bool {
        &&& string_value(text) matches Some(name)
        &&& PlaidErrorType::named(name) == Some(value)
    }

    fn from_json(text: &str) -> (value: Option<PlaidErrorType>) {
        match read_string(text) {
            Some(name) => PlaidErrorType::from_wire_name(name.as_str()),
            None => None,
        }
    }
}

/// The particular error within its class.
#[derive(Debug, Copy, Clone, PartialEq, Eq, Structural)]
pub enum PlaidErrorCode {
    AdditionalConsentRequired,
    DirectIntegrationnotEnabled,
    IncorrectDepositVerification,
    InvalidAccessToken,
    InvalidAccountId,
    InvalidApiKeys,
    InvalidAuditCopyToken,
    InvalidClientId,
    InvalidField,
    InvalidInstitution,
    InvalidLinkCustomization,
    InvalidProcessorCount,
    InvalidProduct,
    InvalidProducts,
    InvalidPublicToken,
    InvalidStripeAccount,
    InvalidUserToken,
    InvalidWebhookVerificationKeyId,
    ProductUnavailable,
    TooManyVerificationAttempts,
    UnauthorizedEnvironment,
    UnauthorizedRouteAccess,
    UnknownFields,
    UserPermissionRevoked,
}

impl PlaidErrorCode {
    /// The name of each error code on the wire.
    pub open spec fn wire(self) -> Seq<char> {
        match self {
            PlaidErrorCode::AdditionalConsentRequired => "ADDITIONAL_CONSENT_REQUIRED"@,
            PlaidErrorCode::DirectIntegrationnotEnabled => "DIRECT_INTEGRATIONNOT_ENABLED"@,
            PlaidErrorCode::IncorrectDepositVerification => "INCORRECT_DEPOSIT_VERIFICATION"@,
            PlaidErrorCode::InvalidAccessToken => "INVALID_ACCESS_TOKEN"@,
            PlaidErrorCode::InvalidAccountId => "INVALID_ACCOUNT_ID"@,
            PlaidErrorCode::InvalidApiKeys => "INVALID_API_KEYS"@,
            PlaidErrorCode::InvalidAuditCopyToken => "INVALID_AUDIT_COPY_TOKEN"@,
            PlaidErrorCode::InvalidClientId => "INVALID_CLIENT_ID"@,
            PlaidErrorCode::InvalidField => "INVALID_FIELD"@,
            PlaidErrorCode::InvalidInstitution => "INVALID_INSTITUTION"@,
            PlaidErrorCode::InvalidLinkCustomization => "INVALID_LINK_CUSTOMIZATION"@,
            PlaidErrorCode::InvalidProcessorCount => "INVALID_PROCESSOR_COUNT"@,
            PlaidErrorCode::InvalidProduct => "INVALID_PRODUCT"@,
            PlaidErrorCode::InvalidProducts => "INVALID_PRODUCTS"@,
            PlaidErrorCode::InvalidPublicToken => "INVALID_PUBLIC_TOKEN"@,
            PlaidErrorCode::InvalidStripeAccount => "INVALID_STRIPE_ACCOUNT"@,
            PlaidErrorCode::InvalidUserToken => "INVALID_USER_TOKEN"@,
            PlaidErrorCode::InvalidWebhookVerificationKeyId => {
                "INVALID_WEBHOOK_VERIFICATION_KEY_ID"@
            },
            PlaidErrorCode::ProductUnavailable => "PRODUCT_UNAVAILABLE"@,
            PlaidErrorCode::TooManyVerificationAttempts => "TOO_MANY_VERIFICATION_ATTEMPTS"@,
            PlaidErrorCode::UnauthorizedEnvironment => "UNAUTHORIZED_ENVIRONMENT"@,
            PlaidErrorCode::UnauthorizedRouteAccess => "UNAUTHORIZED_ROUTE_ACCESS"@,
            PlaidErrorCode::UnknownFields => "UNKNOWN_FIELDS"@,
            PlaidErrorCode::UserPermissionRevoked => "USER_PERMISSION_REVOKED"@,
        }
    }

    /// The error code that a wire name stands for, if it stands for one.
    pub open spec fn named(name: Seq<char>) -> Option<PlaidErrorCode> {
        if name == "ADDITIONAL_CONSENT_REQUIRED"@ {
            Some(PlaidErrorCode::AdditionalConsentRequired)
        }         else if name == "DIRECT_INTEGRATIONNOT_ENABLED"@ {
            Some(PlaidErrorCode::DirectIntegrationnotEnabled)
        }         else if name == "INCORRECT_DEPOSIT_VERIFICATION"@ {
            Some(PlaidErrorCode::IncorrectDepositVerification)
        }         else if name == "INVALID_ACCESS_TOKEN"@ {
            Some(PlaidErrorCode::InvalidAccessToken)
        }         else if name == "INVALID_ACCOUNT_ID"@ {
            Some(PlaidErrorCode::InvalidAccountId)
        }         else if name == "INVALID_API_KEYS"@ {
            Some(PlaidErrorCode::InvalidApiKeys)
        }         else if name == "INVALID_AUDIT_COPY_TOKEN"@ {
            Some(PlaidErrorCode::InvalidAuditCopyToken)
        }         else if name == "INVALID_CLIENT_ID"@ {
            Some(PlaidErrorCode::InvalidClientId)
        }         else if name == "INVALID_FIELD"@ {
            Some(PlaidErrorCode::InvalidField)
        }         else if name == "INVALID_INSTITUTION"@ {
            Some(PlaidErrorCode::InvalidInstitution)
        }         else if name == "INVALID_LINK_CUSTOMIZATION"@ {
            Some(PlaidErrorCode::InvalidLinkCustomization)
        }         else if name == "INVALID_PROCESSOR_COUNT"@ {
            Some(PlaidErrorCode::InvalidProcessorCount)
        }         else if name == "INVALID_PRODUCT"@ {
            Some(PlaidErrorCode::InvalidProduct)
        }         else if name == "INVALID_PRODUCTS"@ {
            Some(PlaidErrorCode::InvalidProducts)
        }         else if name == "INVALID_PUBLIC_TOKEN"@ {
            Some(PlaidErrorCode::InvalidPublicToken)
        }         else if name == "INVALID_STRIPE_ACCOUNT"@ {
            Some(PlaidErrorCode::InvalidStripeAccount)
        }         else if name == "INVALID_USER_TOKEN"@ {
            Some(PlaidErrorCode::InvalidUserToken)
        }         else if name == "INVALID_WEBHOOK_VERIFICATION_KEY_ID"@ {
            Some(PlaidErrorCode::InvalidWebhookVerificationKeyId)
        }         else if name == "PRODUCT_UNAVAILABLE"@ {
            Some(PlaidErrorCode::ProductUnavailable)
        }         else if name == "TOO_MANY_VERIFICATION_ATTEMPTS"@ {
            Some(PlaidErrorCode::TooManyVerificationAttempts)
        }         else if name == "UNAUTHORIZED_ENVIRONMENT"@ {
            Some(PlaidErrorCode::UnauthorizedEnvironment)
        }         else if name == "UNAUTHORIZED_ROUTE_ACCESS"@ {
            Some(PlaidErrorCode::UnauthorizedRouteAccess)
        }         else if name == "UNKNOWN_FIELDS"@ {
            Some(PlaidErrorCode::UnknownFields)
        }         else if name == "USER_PERMISSION_REVOKED"@ {
            Some(PlaidErrorCode::UserPermissionRevoked)
        } else {
            None
        }
    }

    pub fn wire_name(&self) -> (name: &'static str)
        ensures
            name@ == self.wire(),
    {
        match self {
            PlaidErrorCode::AdditionalConsentRequired => "ADDITIONAL_CONSENT_REQUIRED",
            PlaidErrorCode::DirectIntegrationnotEnabled => "DIRECT_INTEGRATIONNOT_ENABLED",
            PlaidErrorCode::IncorrectDepositVerification => "INCORRECT_DEPOSIT_VERIFICATION",
            PlaidErrorCode::InvalidAccessToken => "INVALID_ACCESS_TOKEN",
            PlaidErrorCode::InvalidAccountId => "INVALID_ACCOUNT_ID",
            PlaidErrorCode::InvalidApiKeys => "INVALID_API_KEYS",
            PlaidErrorCode::InvalidAuditCopyToken => "INVALID_AUDIT_COPY_TOKEN",
            PlaidErrorCode::InvalidClientId => "INVALID_CLIENT_ID",
            PlaidErrorCode::InvalidField => "INVALID_FIELD",
            PlaidErrorCode::InvalidInstitution => "INVALID_INSTITUTION",
            PlaidErrorCode::InvalidLinkCustomization => "INVALID_LINK_CUSTOMIZATION",
            PlaidErrorCode::InvalidProcessorCount => "INVALID_PROCESSOR_COUNT",
            PlaidErrorCode::InvalidProduct => "INVALID_PRODUCT",
            PlaidErrorCode::InvalidProducts => "INVALID_PRODUCTS",
            PlaidErrorCode::InvalidPublicToken => "INVALID_PUBLIC_TOKEN",
            PlaidErrorCode::InvalidStripeAccount => "INVALID_STRIPE_ACCOUNT",
            PlaidErrorCode::InvalidUserToken => "INVALID_USER_TOKEN",
            PlaidErrorCode::InvalidWebhookVerificationKeyId => {
                "INVALID_WEBHOOK_VERIFICATION_KEY_ID"
            },
            PlaidErrorCode::ProductUnavailable => "PRODUCT_UNAVAILABLE",
            PlaidErrorCode::TooManyVerificationAttempts => "TOO_MANY_VERIFICATION_ATTEMPTS",
            PlaidErrorCode::UnauthorizedEnvironment => "UNAUTHORIZED_ENVIRONMENT",
            PlaidErrorCode::UnauthorizedRouteAccess => "UNAUTHORIZED_ROUTE_ACCESS",
            PlaidErrorCode::UnknownFields => "UNKNOWN_FIELDS",
            PlaidErrorCode::UserPermissionRevoked => "USER_PERMISSION_REVOKED",
        }
    }

    pub fn from_wire_name(name: &str) -> (found: Option<PlaidErrorCode>)
        ensures
            found == PlaidErrorCode::named(name@),
    {
        if str_eq(name, "ADDITIONAL_CONSENT_REQUIRED") {
            return Some(PlaidErrorCode::AdditionalConsentRequired);
        }
        if str_eq(name, "DIRECT_INTEGRATIONNOT_ENABLED") {
            return Some(PlaidErrorCode::DirectIntegrationnotEnabled);
        }
        if str_eq(name, "INCORRECT_DEPOSIT_VERIFICATION") {
            return Some(PlaidErrorCode::IncorrectDepositVerification);
        }
        if str_eq(name, "INVALID_ACCESS_TOKEN") {
            return Some(PlaidErrorCode::InvalidAccessToken);
        }
        if str_eq(name, "INVALID_ACCOUNT_ID") {
            return Some(PlaidErrorCode::InvalidAccountId);
        }
        if str_eq(name, "INVALID_API_KEYS") {
            return Some(PlaidErrorCode::InvalidApiKeys);
        }
        if str_eq(name, "INVALID_AUDIT_COPY_TOKEN") {
            return Some(PlaidErrorCode::InvalidAuditCopyToken);
        }
        if str_eq(name, "INVALID_CLIENT_ID") {
            return Some(PlaidErrorCode::InvalidClientId);
        }
        if str_eq(name, "INVALID_FIELD") {
            return Some(PlaidErrorCode::InvalidField);
        }
        if str_eq(name, "INVALID_INSTITUTION") {
            return Some(PlaidErrorCode::InvalidInstitution);
        }
        if str_eq(name, "INVALID_LINK_CUSTOMIZATION") {
            return Some(PlaidErrorCode::InvalidLinkCustomization);
        }
        if str_eq(name, "INVALID_PROCESSOR_COUNT") {
            return Some(PlaidErrorCode::InvalidProcessorCount);
        }
        if str_eq(name, "INVALID_PRODUCT") {
            return Some(PlaidErrorCode::InvalidProduct);
        }
        if str_eq(name, "INVALID_PRODUCTS") {
            return Some(PlaidErrorCode::InvalidProducts);
        }
        if str_eq(name, "INVALID_PUBLIC_TOKEN") {
            return Some(PlaidErrorCode::InvalidPublicToken);
        }
        if str_eq(name, "INVALID_STRIPE_ACCOUNT") {
            return Some(PlaidErrorCode::InvalidStripeAccount);
        }
        if str_eq(name, "INVALID_USER_TOKEN") {
            return Some(PlaidErrorCode::InvalidUserToken);
        }
        if str_eq(name, "INVALID_WEBHOOK_VERIFICATION_KEY_ID") {
            return Some(PlaidErrorCode::InvalidWebhookVerificationKeyId);
        }
        if str_eq(name, "PRODUCT_UNAVAILABLE") {
            return Some(PlaidErrorCode::ProductUnavailable);
        }
        if str_eq(name, "TOO_MANY_VERIFICATION_ATTEMPTS") {
            return Some(PlaidErrorCode::TooManyVerificationAttempts);
        }
        if str_eq(name, "UNAUTHORIZED_ENVIRONMENT") {
            return Some(PlaidErrorCode::UnauthorizedEnvironment);
        }
        if str_eq(name, "UNAUTHORIZED_ROUTE_ACCESS") {
            return Some(PlaidErrorCode::UnauthorizedRouteAccess);
        }
        if str_eq(name, "UNKNOWN_FIELDS") {
            return Some(PlaidErrorCode::UnknownFields);
        }
        if str_eq(name, "USER_PERMISSION_REVOKED") {
            return Some(PlaidErrorCode::UserPermissionRevoked);
        }
        None
    }

    /// A name that stands for a error code is the name that
    /// it is written as.
    pub proof fn lemma_named_is_wire(name: Seq<char>)
        ensures
            PlaidErrorCode::named(name) matches Some(found) ==> found.wire() == name,
    {
    }

    /// Every error code is found again by the name it is
    /// written as: no two of them share a name.
    pub proof fn lemma_wire_is_named(self)
        ensures
            PlaidErrorCode::named(self.wire()) == Some(self),
    {
        // Each name has a length of its own, or differs from the other names of its
        // length in the places shown.
        reveal_strlit("ADDITIONAL_CONSENT_REQUIRED");
        assert("ADDITIONAL_CONSENT_REQUIRED"@.len() == 27);
        reveal_strlit("DIRECT_INTEGRATIONNOT_ENABLED");
        assert("DIRECT_INTEGRATIONNOT_ENABLED"@.len() == 29);
        reveal_strlit("INCORRECT_DEPOSIT_VERIFICATION");
        assert("INCORRECT_DEPOSIT_VERIFICATION"@.len() == 30
            && "INCORRECT_DEPOSIT_VERIFICATION"@[0] == 'I');
        reveal_strlit("INVALID_ACCESS_TOKEN");
        assert("INVALID_ACCESS_TOKEN"@.len() == 20 && "INVALID_ACCESS_TOKEN"@[8] == 'A');
        reveal_strlit("INVALID_ACCOUNT_ID");
        assert("INVALID_ACCOUNT_ID"@.len() == 18 && "INVALID_ACCOUNT_ID"@[8] == 'A');
        reveal_strlit("INVALID_API_KEYS");
        assert("INVALID_API_KEYS"@.len() == 16 && "INVALID_API_KEYS"@[8] == 'A');
        reveal_strlit("INVALID_AUDIT_COPY_TOKEN");
        assert("INVALID_AUDIT_COPY_TOKEN"@.len() == 24 && "INVALID_AUDIT_COPY_TOKEN"@[0] == 'I');
        reveal_strlit("INVALID_CLIENT_ID");
        assert("INVALID_CLIENT_ID"@.len() == 17);
        reveal_strlit("INVALID_FIELD");
        assert("INVALID_FIELD"@.len() == 13);
        reveal_strlit("INVALID_INSTITUTION");
        assert("INVALID_INSTITUTION"@.len() == 19 && "INVALID_INSTITUTION"@[0] == 'I');
        reveal_strlit("INVALID_LINK_CUSTOMIZATION");
        assert("INVALID_LINK_CUSTOMIZATION"@.len() == 26);
        reveal_strlit("INVALID_PROCESSOR_COUNT");
        assert("INVALID_PROCESSOR_COUNT"@.len() == 23 && "INVALID_PROCESSOR_COUNT"@[0] == 'I');
        reveal_strlit("INVALID_PRODUCT");
        assert("INVALID_PRODUCT"@.len() == 15);
        reveal_strlit("INVALID_PRODUCTS");
        assert("INVALID_PRODUCTS"@.len() == 16 && "INVALID_PRODUCTS"@[8] == 'P');
        reveal_strlit("INVALID_PUBLIC_TOKEN");
        assert("INVALID_PUBLIC_TOKEN"@.len() == 20 && "INVALID_PUBLIC_TOKEN"@[8] == 'P');
        reveal_strlit("INVALID_STRIPE_ACCOUNT");
        assert("INVALID_STRIPE_ACCOUNT"@.len() == 22);
        reveal_strlit("INVALID_USER_TOKEN");
        assert("INVALID_USER_TOKEN"@.len() == 18 && "INVALID_USER_TOKEN"@[8] == 'U');
        reveal_strlit("INVALID_WEBHOOK_VERIFICATION_KEY_ID");
        assert("INVALID_WEBHOOK_VERIFICATION_KEY_ID"@.len() == 35);
        reveal_strlit("PRODUCT_UNAVAILABLE");
        assert("PRODUCT_UNAVAILABLE"@.len() == 19 && "PRODUCT_UNAVAILABLE"@[0] == 'P');
        reveal_strlit("TOO_MANY_VERIFICATION_ATTEMPTS");
        assert("TOO_MANY_VERIFICATION_ATTEMPTS"@.len() == 30
            && "TOO_MANY_VERIFICATION_ATTEMPTS"@[0] == 'T');
        reveal_strlit("UNAUTHORIZED_ENVIRONMENT");
        assert("UNAUTHORIZED_ENVIRONMENT"@.len() == 24 && "UNAUTHORIZED_ENVIRONMENT"@[0] == 'U');
        reveal_strlit("UNAUTHORIZED_ROUTE_ACCESS");
        assert("UNAUTHORIZED_ROUTE_ACCESS"@.len() == 25);
        reveal_strlit("UNKNOWN_FIELDS");
        assert("UNKNOWN_FIELDS"@.len() == 14);
        reveal_strlit("USER_PERMISSION_REVOKED");
        assert("USER_PERMISSION_REVOKED"@.len() == 23 && "USER_PERMISSION_REVOKED"@[0] == 'U');
    }
}

impl ToJson for PlaidErrorCode {
    open spec fn json(&self) -> Option<Seq<char>> {
        quoted(self.wire())
    }

    fn to_json(&self) -> (text: Option<String>) {
        quote(self.wire_name())
    }
}

impl FromJson for PlaidErrorCode {
    open spec fn decodable(text: Seq<char>) -> bool {
        &&& string_value(text) matches Some(name)
        &&& PlaidErrorCode::named(name) is Some
    }

    open spec fn decodes(text: Seq<char>, value: PlaidErrorCode) -> bool {
        &&& string_value(text) matches Some(name)
        &&& PlaidErrorCode::named(name) == Some(value)
    }

    fn from_json(text: &str) -> (value: Option<PlaidErrorCode>) {
        match read_string(text) {
            Some(name) => PlaidErrorCode::from_wire_name(name.as_str()),
            None => None,
        }
    }
}

/// Why an OAuth token was refused.
#[derive(Debug, Copy, Clone, PartialEq, Eq, Structural)]
pub enum PlaidErrorCodeReason {
    OauthInvalidToken,
    OauthConsentExpired,
    OauthRevokedToken,
}

impl PlaidErrorCodeReason {
    /// The name of each reason on the wire.
    pub open spec fn wire(self) -> Seq<char> {
        match self {
            PlaidErrorCodeReason::OauthInvalidToken => "OAUTH_INVALID_TOKEN"@,
            PlaidErrorCodeReason::OauthConsentExpired => "OAUTH_CONSENT_EXPIRED"@,
            PlaidErrorCodeReason::OauthRevokedToken => "OAUTH_REVOKED_TOKEN"@,
        }
    }

    /// The reason that a wire name stands for, if it stands for one.
    pub open spec fn named(name: Seq<char>) -> Option<PlaidErrorCodeReason> {
        if name == "OAUTH_INVALID_TOKEN"@ {
            Some(PlaidErrorCodeReason::OauthInvalidToken)
        }         else if name == "OAUTH_CONSENT_EXPIRED"@ {
            Some(PlaidErrorCodeReason::OauthConsentExpired)
        }         else if name == "OAUTH_REVOKED_TOKEN"@ {
            Some(PlaidErrorCodeReason::OauthRevokedToken)
        } else {
            None
        }
    }

    pub fn wire_name(&self) -> (name: &'static str)
        ensures
            name@ == self.wire(),
    {
        match self {
            PlaidErrorCodeReason::OauthInvalidToken => "OAUTH_INVALID_TOKEN",
            PlaidErrorCodeReason::OauthConsentExpired => "OAUTH_CONSENT_EXPIRED",
            PlaidErrorCodeReason::OauthRevokedToken => "OAUTH_REVOKED_TOKEN",
        }
    }

    pub fn from_wire_name(name: &str) -> (found: Option<PlaidErrorCodeReason>)
        ensures
            found == PlaidErrorCodeReason::named(name@),
    {
        if str_eq(name, "OAUTH_INVALID_TOKEN") {
            return Some(PlaidErrorCodeReason::OauthInvalidToken);
        }
        if str_eq(name, "OAUTH_CONSENT_EXPIRED") {
            return Some(PlaidErrorCodeReason::OauthConsentExpired);
        }
        if str_eq(name, "OAUTH_REVOKED_TOKEN") {
            return Some(PlaidErrorCodeReason::OauthRevokedToken);
        }
        None
    }

    /// A name that stands for a reason is the name that
    /// it is written as.
    pub proof fn lemma_named_is_wire(name: Seq<char>)
        ensures
            PlaidErrorCodeReason::named(name) matches Some(found) ==> found.wire() == name,
    {
    }

    /// Every reason is found again by the name it is
    /// written as: no two of them share a name.
    pub proof fn lemma_wire_is_named(self)
        ensures
            PlaidErrorCodeReason::named(self.wire()) == Some(self),
    {
        // Each name has a length of its own, or differs from the other names of its
        // length in the places shown.
        reveal_strlit("OAUTH_INVALID_TOKEN");
        assert("OAUTH_INVALID_TOKEN"@.len() == 19 && "OAUTH_INVALID_TOKEN"@[6] == 'I');
        reveal_strlit("OAUTH_CONSENT_EXPIRED");
        assert("OAUTH_CONSENT_EXPIRED"@.len() == 21);
        reveal_strlit("OAUTH_REVOKED_TOKEN");
        assert("OAUTH_REVOKED_TOKEN"@.len() == 19 && "OAUTH_REVOKED_TOKEN"@[6] == 'R');
    }
}

impl ToJson for PlaidErrorCodeReason {
    open spec fn json(&self) -> Option<Seq<char>> {
        quoted(self.wire())
    }

    fn to_json(&self) -> (text: Option<String>) {
        quote(self.wire_name())
    }
}

impl FromJson for PlaidErrorCodeReason {
    open spec fn decodable(text: Seq<char>) -> bool {
        &&& string_value(text) matches Some(name)
        &&& PlaidErrorCodeReason::named(name) is Some
    }

    open spec fn decodes(text: Seq<char>, value: PlaidErrorCodeReason) -> bool {
        &&& string_value(text) matches Some(name)
        &&& PlaidErrorCodeReason::named(name) == Some(value)
    }

    fn from_json(text: &str) -> (value: Option<PlaidErrorCodeReason>) {
        match read_string(text) {
            Some(name) => PlaidErrorCodeReason::from_wire_name(name.as_str()),
            None => None,
        }
    }
}

/// What Plaid says when it rejects a request. The shape is the same for every
/// endpoint.
#[derive(Debug, Clone, PartialEq, Eq)]
pub struct PlaidErrorResponse {
    /// Further detail, passed on as it came.
    pub causes: Option<Vec<RawJson>>,
    pub display_message: Option<String>,
    pub documentation_url: String,
    pub error_code: PlaidErrorCode,
    pub error_code_reason: Option<PlaidErrorCodeReason>,
    pub error_message: String,
    pub error_type: PlaidErrorType,
    pub request_id: String,
    /// The HTTP status, where Plaid repeats it in the body.
    pub status: Option<i64>,
    pub suggested_action: Option<String>,
}

impl ToJson for PlaidErrorResponse {
    open spec fn json(&self) -> Option<Seq<char>> {
        let members = Some(Seq::<(Seq<char>, Seq<char>)>::empty());
        let members = with_nullable(members, "causes"@, self.causes);
        let members = with_nullable(members, "display_message"@, self.display_message);
        let members = with_member(members, "documentation_url"@, self.documentation_url.json());
        let members = with_member(members, "error_code"@, self.error_code.json());
        let members = with_nullable(members, "error_code_reason"@, self.error_code_reason);
        let members = with_member(members, "error_message"@, self.error_message.json());
        let members = with_member(members, "error_type"@, self.error_type.json());
        let members = with_member(members, "request_id"@, self.request_id.json());
        let members = with_nullable(members, "status"@, self.status);
        let members = with_nullable(members, "suggested_action"@, self.suggested_action);
        finished(members)
    }

    fn to_json(&self) -> (text: Option<String>) {
        let writer = ObjectWriter::new();
        let writer = writer.nullable("causes", &self.causes);
        let writer = writer.nullable("display_message", &self.display_message);
        let writer = writer.field("documentation_url", &self.documentation_url);
        let writer = writer.field("error_code", &self.error_code);
        let writer = writer.nullable("error_code_reason", &self.error_code_reason);
        let writer = writer.field("error_message", &self.error_message);
        let writer = writer.field("error_type", &self.error_type);
        let writer = writer.field("request_id", &self.request_id);
        let writer = writer.nullable("status", &self.status);
        let writer = writer.nullable("suggested_action", &self.suggested_action);
        writer.finish()
    }
}

impl FromJson for PlaidErrorResponse {
    open spec fn decodable(text: Seq<char>) -> bool {
        &&& object_members(text) matches Some(members)
        &&& has_optional::<Vec<RawJson>>(members, "causes"@)
        &&& has_optional::<String>(members, "display_message"@)
        &&& has_required::<String>(members, "documentation_url"@)
        &&& has_required::<PlaidErrorCode>(members, "error_code"@)
        &&& has_optional::<PlaidErrorCodeReason>(members, "error_code_reason"@)
        &&& has_required::<String>(members, "error_message"@)
        &&& has_required::<PlaidErrorType>(members, "error_type"@)
        &&& has_required::<String>(members, "request_id"@)
        &&& has_optional::<i64>(members, "status"@)
        &&& has_optional::<String>(members, "suggested_action"@)
    }

    open spec fn decodes(text: Seq<char>, value: PlaidErrorResponse) -> bool {
        &&& object_members(text) matches Some(members)
        &&& optional_is::<Vec<RawJson>>(members, "causes"@, value.causes)
        &&& optional_is::<String>(members, "display_message"@, value.display_message)
        &&& required_is::<String>(members, "documentation_url"@, value.documentation_url)
        &&& required_is::<PlaidErrorCode>(members, "error_code"@, value.error_code)
        &&& optional_is::<PlaidErrorCodeReason>(
            members,
            "error_code_reason"@,
            value.error_code_reason,
        )
        &&& required_is::<String>(members, "error_message"@, value.error_message)
        &&& required_is::<PlaidErrorType>(members, "error_type"@, value.error_type)
        &&& required_is::<String>(members, "request_id"@, value.request_id)
        &&& optional_is::<i64>(members, "status"@, value.status)
        &&& optional_is::<String>(members, "suggested_action"@, value.suggested_action)
    }

    fn from_json(text: &str) -> (value: Option<PlaidErrorResponse>) {
        let object = JsonObject::parse(text)?;
        let causes = object.optional::<Vec<RawJson>>("causes")?;
        let display_message = object.optional::<String>("display_message")?;
        let documentation_url = object.required::<String>("documentation_url")?;
        let error_code = object.required::<PlaidErrorCode>("error_code")?;
        let error_code_reason = object.optional::<PlaidErrorCodeReason>("error_code_reason")?;
        let error_message = object.required::<String>("error_message")?;
        let error_type = object.required::<PlaidErrorType>("error_type")?;
        let request_id = object.required::<String>("request_id")?;
        let status = object.optional::<i64>("status")?;
        let suggested_action = object.optional::<String>("suggested_action")?;
        Some(
            PlaidErrorResponse {
                causes,
                display_message,
                documentation_url,
                error_code,
                error_code_reason,
                error_message,
                error_type,
                request_id,
                status,
                suggested_action,
            },
        )
    }
}

} // verus!
