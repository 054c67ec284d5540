use plaid_sdk::json::StringMap;
use plaid_sdk::json::ToJson;
use plaid_sdk::model::accounts::AccountBalanceGetRequestOptions;
use plaid_sdk::model::accounts::AccountsBalanceGetRequest;
use plaid_sdk::model::common::Product;
use plaid_sdk::model::items::ItemPublicTokenExchangeRequest;
use plaid_sdk::model::link::AccountFilters;
use plaid_sdk::model::link::Address;
use plaid_sdk::model::link::CountryCode;
use plaid_sdk::model::link::E164PhoneNumber;
use plaid_sdk::model::link::IdNumber;
use plaid_sdk::model::link::IdType;
use plaid_sdk::model::link::Language;
use plaid_sdk::model::link::LinkTokenCreateRequest;
use plaid_sdk::model::link::User;
use plaid_sdk::model::link::UserName;
use plaid_sdk::model::processor::Processor;
use plaid_sdk::model::processor::ProcessorStripeBankAccountTokenCreateRequest;
use plaid_sdk::model::processor::ProcessorTokenCreateRequest;

#[test]
fn a_token_exchange_is_written_with_its_three_members() {
    let request = ItemPublicTokenExchangeRequest {
        client_id: "id".to_string(),
        secret: "shh".to_string(),
        public_token: "public-sandbox-1".to_string(),
    };
    assert_eq!(
        request.to_json(),
        Some("{\"client_id\":\"id\",\"secret\":\"shh\",\"public_token\":\"public-sandbox-1\"}".to_string())
    );
}

#[test]
fn text_in_a_request_is_escaped() {
    let request = ItemPublicTokenExchangeRequest {
        client_id: "a\"b".to_string(),
        secret: "back\\slash".to_string(),
        public_token: "line\nbreak".to_string(),
    };
    assert_eq!(
        request.to_json(),
        Some(
            "{\"client_id\":\"a\\\"b\",\"secret\":\"back\\\\slash\",\"public_token\":\"line\\nbreak\"}"
                .to_string()
        )
    );
}

#[test]
fn a_balance_request_without_options_leaves_them_out() {
    let request = AccountsBalanceGetRequest {
        client_id: "id".to_string(),
        secret: "shh".to_string(),
        access_token: "access-1".to_string(),
        options: None,
    };
    assert_eq!(
        request.to_json(),
        Some("{\"client_id\":\"id\",\"secret\":\"shh\",\"access_token\":\"access-1\"}".to_string())
    );
}

#[test]
fn a_balance_request_with_options_names_the_accounts() {
    let request = AccountsBalanceGetRequest {
        client_id: "id".to_string(),
        secret: "shh".to_string(),
        access_token: "access-1".to_string(),
        options: Some(AccountBalanceGetRequestOptions {
            account_ids: vec!["a1".to_string(), "a2".to_string()],
        }),
    };
    assert_eq!(
        request.to_json(),
        Some(
            "{\"client_id\":\"id\",\"secret\":\"shh\",\"access_token\":\"access-1\",\"options\":{\"account_ids\":[\"a1\",\"a2\"]}}"
                .to_string()
        )
    );
}

#[test]
fn requests_start_out_empty() {
    let balance = AccountsBalanceGetRequest::default();
    assert_eq!(balance.client_id, "");
    assert_eq!(balance.secret, "");
    assert_eq!(balance.access_token, "");
    assert_eq!(balance.options, None);
    assert_eq!(AccountBalanceGetRequestOptions::default().account_ids, Vec::<String>::new());
    let link = LinkTokenCreateRequest::default();
    assert_eq!(link.language, Language::English);
    assert_eq!(link.country_codes, vec![]);
    assert_eq!(link.products, vec![]);
    assert_eq!(link.user, User::default());
    assert_eq!(link.redirect_uri, None);
    assert_eq!(link.android_package_name, None);
    assert_eq!(User::default().client_user_id, "");
    assert_eq!(User::default().phone_number, None);
    assert_eq!(IdNumber::default().type_, IdType::UsSsn);
    assert_eq!(IdNumber::default().value, "");
    assert_eq!(Language::default(), Language::English);
    assert_eq!(CountryCode::default(), CountryCode::Us);
    assert_eq!(IdType::default(), IdType::UsSsn);
}

#[test]
fn an_empty_link_request_is_written_with_its_required_members() {
    assert_eq!(
        LinkTokenCreateRequest::default().to_json(),
        Some(
            "{\"client_id\":\"\",\"secret\":\"\",\"client_name\":\"\",\"language\":\"en\",\"country_codes\":[],\"user\":{\"client_user_id\":\"\"},\"products\":[]}"
                .to_string()
        )
    );
}

#[test]
fn a_full_link_request_is_written_in_the_order_of_its_members() {
    let request = LinkTokenCreateRequest {
        client_id: "id".to_string(),
        secret: "shh".to_string(),
        client_name: "App".to_string(),
        language: Language::French,
        country_codes: vec![CountryCode::Fr, CountryCode::Gb],
        user: User {
            client_user_id: "u1".to_string(),
            legal_name: Some("Ada L".to_string()),
            name: Some(UserName { given_name: "Ada".to_string(), family_name: "L".to_string() }),
            phone_number: Some(E164PhoneNumber::new("+33123456789").unwrap()),
        },
        products: vec![Product::Auth, Product::IdentityVerification],
        required_if_supported_products: Some(vec![Product::Balance]),
        optional_products: Some(vec![]),
        additional_consented_products: Some(vec![Product::CraBaseReport]),
        webhook: Some("https://app.example/hook".to_string()),
        access_token: Some("access-1".to_string()),
        link_customization_name: Some("default".to_string()),
        redirect_uri: Some("https://app.example/back".to_string()),
        android_package_name: Some("com.example".to_string()),
        institution_data: Some(StringMap {
            entries: vec![("routing_number".to_string(), "021000021".to_string())],
        }),
        account_filters: Some(AccountFilters {}),
    };
    let expected = [
        "{\"client_id\":\"id\"",
        "\"secret\":\"shh\"",
        "\"client_name\":\"App\"",
        "\"language\":\"fr\"",
        "\"country_codes\":[\"FR\",\"GB\"]",
        "\"user\":{\"client_user_id\":\"u1\",\"legal_name\":\"Ada L\",\"name\":{\"given_name\":\"Ada\",\"family_name\":\"L\"},\"phone_number\":\"+33123456789\"}",
        "\"products\":[\"auth\",\"identity_verification\"]",
        "\"required_if_supported_products\":[\"balance\"]",
        "\"optional_products\":[]",
        "\"additional_consented_products\":[\"cra_base_report\"]",
        "\"webhook\":\"https://app.example/hook\"",
        "\"access_token\":\"access-1\"",
        "\"link_customization_name\":\"default\"",
        "\"redirect_uri\":\"https://app.example/back\"",
        "\"android_package_name\":\"com.example\"",
        "\"institution_data\":{\"routing_number\":\"021000021\"}",
        "\"account_filters\":{}}",
    ]
    .join(",");
    assert_eq!(request.to_json(), Some(expected));
}

#[test]
fn the_parts_of_a_link_request_are_written_on_their_own() {
    assert_eq!(AccountFilters {}.to_json(), Some("{}".to_string()));
    assert_eq!(
        Address {
            city: Some("Paris".to_string()),
            region: None,
            postal_code: Some("75001".to_string()),
            country: CountryCode::Fr,
        }
        .to_json(),
        Some("{\"city\":\"Paris\",\"postal_code\":\"75001\",\"country\":\"FR\"}".to_string())
    );
    assert_eq!(
        IdNumber { value: "123-45-6789".to_string(), type_: IdType::UsSsn }.to_json(),
        Some("{\"value\":\"123-45-6789\",\"type\":\"us_ssn\"}".to_string())
    );
    assert_eq!(
        UserName { given_name: "A".to_string(), family_name: "B".to_string() }.to_json(),
        Some("{\"given_name\":\"A\",\"family_name\":\"B\"}".to_string())
    );
}

#[test]
fn processor_requests_are_written_with_their_members() {
    let token = ProcessorTokenCreateRequest {
        client_id: "id".to_string(),
        secret: "shh".to_string(),
        access_token: "access-1".to_string(),
        account_id: "acc-1".to_string(),
        processor: Processor::ModernTreasury,
    };
    assert_eq!(
        token.to_json(),
        Some(
            "{\"client_id\":\"id\",\"secret\":\"shh\",\"access_token\":\"access-1\",\"account_id\":\"acc-1\",\"processor\":\"modern_treasury\"}"
                .to_string()
        )
    );
    let stripe = ProcessorStripeBankAccountTokenCreateRequest {
        client_id: "id".to_string(),
        secret: "shh".to_string(),
        access_token: "access-1".to_string(),
        account_id: "acc-1".to_string(),
    };
    assert_eq!(
        stripe.to_json(),
        Some(
            "{\"client_id\":\"id\",\"secret\":\"shh\",\"access_token\":\"access-1\",\"account_id\":\"acc-1\"}"
                .to_string()
        )
    );
}
