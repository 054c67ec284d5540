use plaid_sdk::json::FromJson;
use plaid_sdk::json::ToJson;
use plaid_sdk::model::accounts::AccountHolderCategory;
use plaid_sdk::model::accounts::AccountNumberFormat;
use plaid_sdk::model::accounts::AccountType;
use plaid_sdk::model::accounts::AccountUpdateType;
use plaid_sdk::model::accounts::AccountVerificationStatus;
use plaid_sdk::model::accounts::AccountsGetResponse;
use plaid_sdk::model::common::Product;
use plaid_sdk::model::error::PlaidErrorCode;
use plaid_sdk::model::error::PlaidErrorCodeReason;
use plaid_sdk::model::error::PlaidErrorResponse;
use plaid_sdk::model::error::PlaidErrorType;
use plaid_sdk::model::items::ItemPublicTokenExchangeResponse;
use plaid_sdk::model::link::LinkTokenCreateResponse;
use plaid_sdk::model::processor::ProcessorStripeBankAccountTokenCreateResponse;
use plaid_sdk::model::processor::ProcessorTokenCreateResponse;
use plaid_sdk::time::Timestamp;

const ACCOUNTS: &str = r#"{
  "accounts": [
    {
      "account_id": "acc-1",
      "balances": {
        "available": 100.5,
        "current": 110,
        "limit": null,
        "iso_currency_code": "USD",
        "unofficial_currency_code": null,
        "last_updated_datetime": "2024-01-01T00:00:00Z"
      },
      "mask": "0000",
      "name": "Plaid Checking",
      "official_name": "Plaid Gold Standard 0% Interest Checking",
      "type": "depository",
      "subtype": "checking",
      "verification_status": "database_insights_pass",
      "verification_insights": {
        "network_status": {"has_numbers_match": true, "is_numbers_match_verified": false},
        "previous_returns": {"has_previous_administrative_return": false},
        "account_number_format": "valid"
      },
      "persistent_account_id": "persistent-1",
      "holder_category": "personal"
    },
    {
      "account_id": "acc-2",
      "balances": {},
      "name": "Plaid Credit Card",
      "type": "credit",
      "persistent_account_id": "persistent-2"
    }
  ],
  "item": {
    "item_id": "item-1",
    "institution_id": "ins_3",
    "webhook": null,
    "error": null,
    "available_products": ["balance", "identity"],
    "billed_products": ["auth"],
    "consent_expiration_time": null,
    "updated_type": "background"
  },
  "request_id": "req-9"
}"#;

#[test]
fn a_token_exchange_reply_is_read_member_by_member() {
    let reply = ItemPublicTokenExchangeResponse::from_json(
        "{\"access_token\":\"access-sandbox-1\",\"item_id\":\"item-1\",\"request_id\":\"req-1\"}",
    );
    assert_eq!(
        reply,
        Some(ItemPublicTokenExchangeResponse {
            access_token: "access-sandbox-1".to_string(),
            item_id: "item-1".to_string(),
            request_id: "req-1".to_string(),
        })
    );
}

#[test]
fn members_that_are_not_asked_for_are_passed_over() {
    let reply = ItemPublicTokenExchangeResponse::from_json(
        "{\"new\":{\"x\":[1]},\"request_id\":\"req-1\",\"item_id\":\"item-1\",\"access_token\":\"a\"}",
    )
    .unwrap();
    assert_eq!(reply.access_token, "a");
    assert_eq!(reply.item_id, "item-1");
    assert_eq!(reply.request_id, "req-1");
}

#[test]
fn a_reply_without_a_required_member_is_not_read() {
    assert_eq!(
        ItemPublicTokenExchangeResponse::from_json("{\"access_token\":\"a\",\"item_id\":\"i\"}"),
        None
    );
    assert_eq!(
        ItemPublicTokenExchangeResponse::from_json(
            "{\"access_token\":\"a\",\"item_id\":\"i\",\"request_id\":null}"
        ),
        None
    );
    assert_eq!(
        ItemPublicTokenExchangeResponse::from_json(
            "{\"access_token\":\"a\",\"item_id\":\"i\",\"request_id\":7}"
        ),
        None
    );
    assert_eq!(ItemPublicTokenExchangeResponse::from_json("[\"a\",\"i\",\"r\"]"), None);
    assert_eq!(ItemPublicTokenExchangeResponse::from_json("not json"), None);
}

#[test]
fn a_link_token_reply_is_read_with_its_expiry() {
    let reply = LinkTokenCreateResponse::from_json(
        "{\"expiration\":\"2024-01-01T04:00:00+04:00\",\"link_token\":\"link-sandbox-1\",\"request_id\":\"req-2\"}",
    );
    assert_eq!(
        reply,
        Some(LinkTokenCreateResponse {
            expiration: Timestamp { seconds: 1704067200, nanos: 0 },
            link_token: "link-sandbox-1".to_string(),
            request_id: "req-2".to_string(),
            hosted_link_url: None,
        })
    );
    let hosted = LinkTokenCreateResponse::from_json(
        "{\"expiration\":\"2024-01-01T00:00:00Z\",\"link_token\":\"l\",\"request_id\":\"r\",\"hosted_link_url\":\"https://hosted.plaid.com/l\"}",
    )
    .unwrap();
    assert_eq!(hosted.hosted_link_url, Some("https://hosted.plaid.com/l".to_string()));
}

#[test]
fn a_link_token_reply_with_a_bad_expiry_is_not_read() {
    assert_eq!(
        LinkTokenCreateResponse::from_json(
            "{\"expiration\":\"tomorrow\",\"link_token\":\"l\",\"request_id\":\"r\"}"
        ),
        None
    );
    assert_eq!(
        LinkTokenCreateResponse::from_json(
            "{\"expiration\":1704067200,\"link_token\":\"l\",\"request_id\":\"r\"}"
        ),
        None
    );
}

#[test]
fn a_link_token_reply_is_written_again_in_utc() {
    let reply = LinkTokenCreateResponse {
        expiration: Timestamp { seconds: 1704067200, nanos: 0 },
        link_token: "l".to_string(),
        request_id: "r".to_string(),
        hosted_link_url: None,
    };
    assert_eq!(
        reply.to_json(),
        Some(
            "{\"expiration\":\"2024-01-01T00:00:00Z\",\"link_token\":\"l\",\"request_id\":\"r\",\"hosted_link_url\":null}"
                .to_string()
        )
    );
}

#[test]
fn processor_replies_are_read_and_written() {
    let token = ProcessorTokenCreateResponse::from_json(
        "{\"processor_token\":\"processor-sandbox-1\",\"request_id\":\"req-3\"}",
    )
    .unwrap();
    assert_eq!(token.processor_token, "processor-sandbox-1");
    assert_eq!(token.request_id, "req-3");
    assert_eq!(
        token.to_json(),
        Some("{\"processor_token\":\"processor-sandbox-1\",\"request_id\":\"req-3\"}".to_string())
    );
    let stripe = ProcessorStripeBankAccountTokenCreateResponse::from_json(
        "{\"stripe_bank_account_account_token\":\"btok_1\",\"request_id\":\"req-4\"}",
    )
    .unwrap();
    assert_eq!(stripe.stripe_bank_account_account_token, "btok_1");
    assert_eq!(stripe.request_id, "req-4");
    assert_eq!(ProcessorTokenCreateResponse::from_json("{\"request_id\":\"req-3\"}"), None);
}

#[test]
fn a_full_error_reply_is_read_member_by_member() {
    let error = PlaidErrorResponse::from_json(
        r#"{
            "causes": [{"item_id": "x"}, 3],
            "display_message": "Try again",
            "documentation_url": "https://plaid.com/docs/errors",
            "error_code": "INVALID_ACCESS_TOKEN",
            "error_code_reason": "OAUTH_CONSENT_EXPIRED",
            "error_message": "the token is not valid",
            "error_type": "ITEM_ERROR",
            "request_id": "req-5",
            "status": 400,
            "suggested_action": "relink"
        }"#,
    )
    .unwrap();
    let causes = error.causes.clone().unwrap();
    assert_eq!(causes.len(), 2);
    assert_eq!(causes[0].as_str(), "{\"item_id\": \"x\"}");
    assert_eq!(causes[1].as_str(), "3");
    assert_eq!(error.display_message, Some("Try again".to_string()));
    assert_eq!(error.documentation_url, "https://plaid.com/docs/errors");
    assert_eq!(error.error_code, PlaidErrorCode::InvalidAccessToken);
    assert_eq!(error.error_code_reason, Some(PlaidErrorCodeReason::OauthConsentExpired));
    assert_eq!(error.error_message, "the token is not valid");
    assert_eq!(error.error_type, PlaidErrorType::ItemError);
    assert_eq!(error.request_id, "req-5");
    assert_eq!(error.status, Some(400));
    assert_eq!(error.suggested_action, Some("relink".to_string()));
}

#[test]
fn a_short_error_reply_is_read_with_its_gaps() {
    let error = PlaidErrorResponse::from_json(
        r#"{"display_message": null, "documentation_url": "d", "error_code": "INVALID_FIELD",
            "error_message": "m", "error_type": "INVALID_REQUEST", "request_id": "r"}"#,
    )
    .unwrap();
    assert_eq!(
        error,
        PlaidErrorResponse {
            causes: None,
            display_message: None,
            documentation_url: "d".to_string(),
            error_code: PlaidErrorCode::InvalidField,
            error_code_reason: None,
            error_message: "m".to_string(),
            error_type: PlaidErrorType::InvalidRequest,
            request_id: "r".to_string(),
            status: None,
            suggested_action: None,
        }
    );
}

#[test]
fn an_error_reply_with_an_unknown_code_is_not_read() {
    assert_eq!(
        PlaidErrorResponse::from_json(
            r#"{"documentation_url": "d", "error_code": "ITEM_LOGIN_REQUIRED",
                "error_message": "m", "error_type": "ITEM_ERROR", "request_id": "r"}"#
        ),
        None
    );
    assert_eq!(
        PlaidErrorResponse::from_json(
            r#"{"documentation_url": "d", "error_code": "INVALID_FIELD",
                "error_message": "m", "error_type": "ITEM_ERROR", "request_id": "r",
                "status": "400"}"#
        ),
        None
    );
    assert_eq!(
        PlaidErrorResponse::from_json(
            r#"{"documentation_url": "d", "error_code": "INVALID_FIELD",
                "error_message": "m", "error_type": "ITEM_ERROR", "request_id": "r",
                "causes": {"not": "a list"}}"#
        ),
        None
    );
}

#[test]
fn an_error_reply_is_written_with_null_for_its_gaps() {
    let error = PlaidErrorResponse {
        causes: None,
        display_message: None,
        documentation_url: "d".to_string(),
        error_code: PlaidErrorCode::InvalidClientId,
        error_code_reason: None,
        error_message: "m".to_string(),
        error_type: PlaidErrorType::InvalidInput,
        request_id: "r".to_string(),
        status: Some(400),
        suggested_action: None,
    };
    assert_eq!(
        error.to_json(),
        Some(
            "{\"causes\":null,\"display_message\":null,\"documentation_url\":\"d\",\"error_code\":\"INVALID_CLIENT_ID\",\"error_code_reason\":null,\"error_message\":\"m\",\"error_type\":\"INVALID_INPUT\",\"request_id\":\"r\",\"status\":400,\"suggested_action\":null}"
                .to_string()
        )
    );
    assert_eq!(PlaidErrorResponse::from_json(&error.to_json().unwrap()), Some(error));
}

#[test]
fn accounts_are_read_with_their_balances() {
    let reply = AccountsGetResponse::from_json(ACCOUNTS).unwrap();
    assert_eq!(reply.request_id, "req-9");
    assert_eq!(reply.accounts.len(), 2);

    let checking = &reply.accounts[0];
    assert_eq!(checking.account_id, "acc-1");
    assert_eq!(checking.balances.available.as_ref().unwrap().as_str(), "100.5");
    assert_eq!(checking.balances.current.as_ref().unwrap().as_str(), "110");
    assert_eq!(checking.balances.limit, None);
    assert_eq!(checking.balances.iso_currency_code, Some("USD".to_string()));
    assert_eq!(checking.balances.unofficial_currency_code, None);
    assert_eq!(
        checking.balances.last_updated_datetime,
        Some(Timestamp { seconds: 1704067200, nanos: 0 })
    );
    assert_eq!(checking.mask, Some("0000".to_string()));
    assert_eq!(checking.name, "Plaid Checking");
    assert_eq!(
        checking.official_name,
        Some("Plaid Gold Standard 0% Interest Checking".to_string())
    );
    assert_eq!(checking.type_, AccountType::Depository);
    assert_eq!(checking.subtype, Some("checking".to_string()));
    assert_eq!(
        checking.verification_status,
        Some(AccountVerificationStatus::DatabaseInsightsPass)
    );
    let insights = checking.verification_insights.as_ref().unwrap();
    assert!(insights.network_status.has_numbers_match);
    assert!(!insights.network_status.is_numbers_match_verified);
    assert!(!insights.previous_returns.has_previous_administrative_return);
    assert_eq!(insights.account_number_format, AccountNumberFormat::Valid);
    assert_eq!(checking.persistent_account_id, "persistent-1");
    assert_eq!(checking.holder_category, Some(AccountHolderCategory::Personal));

    let card = &reply.accounts[1];
    assert_eq!(card.account_id, "acc-2");
    assert_eq!(card.balances.available, None);
    assert_eq!(card.balances.current, None);
    assert_eq!(card.balances.last_updated_datetime, None);
    assert_eq!(card.mask, None);
    assert_eq!(card.type_, AccountType::Credit);
    assert_eq!(card.verification_status, None);
    assert_eq!(card.verification_insights, None);
    assert_eq!(card.holder_category, None);

    assert_eq!(reply.item.item_id, "item-1");
    assert_eq!(reply.item.institution_id, Some("ins_3".to_string()));
    assert_eq!(reply.item.webhook, None);
    assert_eq!(reply.item.error, None);
    assert_eq!(reply.item.available_products, vec![Product::Balance, Product::Identity]);
    assert_eq!(reply.item.billed_products, Some(vec![Product::Auth]));
    assert_eq!(reply.item.consented_products, None);
    assert_eq!(reply.item.consent_expiration_time, None);
    assert_eq!(reply.item.updated_type, Some(AccountUpdateType::Background));
}

#[test]
fn accounts_that_were_read_are_written_and_read_alike() {
    let reply = AccountsGetResponse::from_json(ACCOUNTS).unwrap();
    let written = reply.to_json().unwrap();
    assert!(written.starts_with("{\"accounts\":[{\"account_id\":\"acc-1\",\"balances\":{\"available\":100.5,\"current\":110,\"limit\":null,"));
    assert!(written.ends_with("\"updated_type\":\"background\"},\"request_id\":\"req-9\"}"));
    assert_eq!(AccountsGetResponse::from_json(&written), Some(reply));
}

#[test]
fn accounts_with_one_bad_account_are_not_read() {
    let bad_kind = ACCOUNTS.replace("\"type\": \"credit\"", "\"type\": \"piggy bank\"");
    assert_eq!(AccountsGetResponse::from_json(&bad_kind), None);
    let bad_amount = ACCOUNTS.replace("\"current\": 110", "\"current\": \"110\"");
    assert_eq!(AccountsGetResponse::from_json(&bad_amount), None);
    let bad_product = ACCOUNTS.replace("\"billed_products\": [\"auth\"]", "\"billed_products\": [\"gold\"]");
    assert_eq!(AccountsGetResponse::from_json(&bad_product), None);
    let no_item = ACCOUNTS.replace("\"item\":", "\"thing\":");
    assert_eq!(AccountsGetResponse::from_json(&no_item), None);
}
