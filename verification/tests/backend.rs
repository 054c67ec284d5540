use plaid_sdk::error::PlaidError;
use plaid_sdk::json::FromJson;
use plaid_sdk::json::ToJson;
use plaid_sdk::model::accounts::AccountsGetResponse;
use plaid_sdk::model::common::Product;
use plaid_sdk::model::error::PlaidErrorCode;
use plaid_sdk::model::error::PlaidErrorResponse;
use plaid_sdk::model::error::PlaidErrorType;
use plaid_sdk::model::items::ItemPublicTokenExchangeResponse;
use plaid_sdk::model::link::CountryCode;
use plaid_sdk::model::link::Language;
use plaid_sdk::model::link::LinkTokenCreateResponse;
use plaid_sdk::model::link::User;
use plaid_sdk::server::balance_read;
use plaid_sdk::server::balance_request;
use plaid_sdk::server::link_token_created;
use plaid_sdk::server::link_token_request;
use plaid_sdk::server::public_token_exchange_request;
use plaid_sdk::server::public_token_exchanged;
use plaid_sdk::server::stored;
use plaid_sdk::server::Client;
use plaid_sdk::server::CreateLinkTokenInput;
use plaid_sdk::server::CreateLinkTokenOutput;
use plaid_sdk::server::Error;
use plaid_sdk::server::ExchangePublicTokenInput;
use plaid_sdk::server::ExchangePublicTokenOutput;
use plaid_sdk::server::GetBalanceInput;
use plaid_sdk::server::GetBalanceOutput;
use plaid_sdk::server::NewClient;
use plaid_sdk::server::Next;
use plaid_sdk::server::StoreWrite;
use plaid_sdk::server::BAD_REQUEST;
use plaid_sdk::server::CLIENT_NAME;
use plaid_sdk::server::INTERNAL_SERVER_ERROR;
use plaid_sdk::server::LOCAL_ADDRESS;
use plaid_sdk::time::Timestamp;
use plaid_sdk::Either;
use plaid_sdk::PlaidClient;

fn client() -> PlaidClient {
    PlaidClient::new("id", "shh", "sandbox", "https://app.example/back", "com.example")
}

fn rejection() -> PlaidErrorResponse {
    PlaidErrorResponse {
        causes: None,
        display_message: None,
        documentation_url: "d".to_string(),
        error_code: PlaidErrorCode::InvalidPublicToken,
        error_code_reason: None,
        error_message: "m".to_string(),
        error_type: PlaidErrorType::InvalidInput,
        request_id: "r".to_string(),
        status: Some(400),
        suggested_action: None,
    }
}

#[test]
fn inputs_are_read_from_json() {
    assert_eq!(
        CreateLinkTokenInput::from_json("{\"client_user_id\":\"u1\",\"address\":\"localhost\"}"),
        Some(CreateLinkTokenInput {
            client_user_id: "u1".to_string(),
            address: "localhost".to_string()
        })
    );
    assert_eq!(CreateLinkTokenInput::from_json("{\"client_user_id\":\"u1\"}"), None);
    assert_eq!(
        ExchangePublicTokenInput::from_json("{\"public_token\":\"p\",\"client_user_id\":\"u1\"}"),
        Some(ExchangePublicTokenInput {
            client_user_id: "u1".to_string(),
            public_token: "p".to_string()
        })
    );
    assert_eq!(ExchangePublicTokenInput::from_json("{\"public_token\":\"p\"}"), None);
    assert_eq!(
        GetBalanceInput::from_json("{\"client_user_id\":\"u1\",\"more\":1}"),
        Some(GetBalanceInput { client_user_id: "u1".to_string() })
    );
    assert_eq!(GetBalanceInput::from_json("{\"client_user_id\":1}"), None);
}

#[test]
fn the_names_of_this_backend() {
    assert_eq!(CLIENT_NAME, "Plaid Tiny QuickStart - expo RN");
    assert_eq!(LOCAL_ADDRESS, "localhost");
    assert_eq!(BAD_REQUEST, 400);
    assert_eq!(INTERNAL_SERVER_ERROR, 500);
}

#[test]
fn from_the_local_address_link_comes_back_by_redirect() {
    let input = CreateLinkTokenInput {
        client_user_id: "u1".to_string(),
        address: "localhost".to_string(),
    };
    let request = link_token_request(&client(), &input);
    assert_eq!(request.client_id, "id");
    assert_eq!(request.secret, "shh");
    assert_eq!(request.client_name, "Plaid Tiny QuickStart - expo RN");
    assert_eq!(request.language, Language::English);
    assert_eq!(request.country_codes, vec![CountryCode::Us]);
    assert_eq!(request.user, User { client_user_id: "u1".to_string(), ..User::default() });
    assert_eq!(request.products, vec![Product::Auth]);
    assert_eq!(request.redirect_uri, Some("https://app.example/back".to_string()));
    assert_eq!(request.android_package_name, None);
    assert_eq!(
        request.to_json(),
        Some(
            "{\"client_id\":\"id\",\"secret\":\"shh\",\"client_name\":\"Plaid Tiny QuickStart - expo RN\",\"language\":\"en\",\"country_codes\":[\"US\"],\"user\":{\"client_user_id\":\"u1\"},\"products\":[\"auth\"],\"redirect_uri\":\"https://app.example/back\"}"
                .to_string()
        )
    );
}

#[test]
fn from_any_other_address_link_is_opened_for_android() {
    for address in ["10.0.2.2", "", "Localhost", "localhost:8080"] {
        let input = CreateLinkTokenInput {
            client_user_id: "u2".to_string(),
            address: address.to_string(),
        };
        let request = link_token_request(&client(), &input);
        assert_eq!(request.redirect_uri, None);
        assert_eq!(request.android_package_name, Some("com.example".to_string()));
        assert_eq!(request.user.client_user_id, "u2");
        assert_eq!(request.webhook, None);
        assert_eq!(request.institution_data, None);
    }
}

#[test]
fn a_created_link_token_is_stored_for_and_then_told() {
    let input = CreateLinkTokenInput {
        client_user_id: "u1".to_string(),
        address: "localhost".to_string(),
    };
    let created = LinkTokenCreateResponse {
        expiration: Timestamp { seconds: 1704067200, nanos: 0 },
        link_token: "link-1".to_string(),
        request_id: "r".to_string(),
        hosted_link_url: None,
    };
    match link_token_created(&input, Either::Left(created)) {
        Next::Store { write, then } => {
            assert_eq!(write, StoreWrite::InsertClient { client_user_id: "u1".to_string() });
            assert_eq!(
                then,
                CreateLinkTokenOutput { link_token: Some("link-1".to_string()), failure: None }
            );
            assert_eq!(
                then.to_json(),
                Some("{\"link_token\":\"link-1\",\"failure\":null}".to_string())
            );
        }
        other => panic!("unexpected: {:?}", other),
    }
}

#[test]
fn a_rejected_link_token_is_told_and_nothing_is_stored() {
    let input = CreateLinkTokenInput {
        client_user_id: "u1".to_string(),
        address: "localhost".to_string(),
    };
    match link_token_created(&input, Either::Right(rejection())) {
        Next::Answer(told) => {
            assert_eq!(told, CreateLinkTokenOutput { link_token: None, failure: Some(rejection()) });
            assert!(told.to_json().unwrap().starts_with("{\"link_token\":null,\"failure\":{\"causes\":null,"));
        }
        other => panic!("unexpected: {:?}", other),
    }
}

#[test]
fn an_exchange_carries_the_public_token_of_the_input() {
    let input = ExchangePublicTokenInput {
        client_user_id: "u1".to_string(),
        public_token: "public-1".to_string(),
    };
    let request = public_token_exchange_request(&client(), &input);
    assert_eq!(request.client_id, "id");
    assert_eq!(request.secret, "shh");
    assert_eq!(request.public_token, "public-1");
}

#[test]
fn an_exchanged_token_goes_into_the_store() {
    let input = ExchangePublicTokenInput {
        client_user_id: "u1".to_string(),
        public_token: "public-1".to_string(),
    };
    let exchanged = ItemPublicTokenExchangeResponse {
        access_token: "access-1".to_string(),
        item_id: "item-1".to_string(),
        request_id: "r".to_string(),
    };
    match public_token_exchanged(&input, Either::Left(exchanged)) {
        Next::Store { write, then } => {
            assert_eq!(
                write,
                StoreWrite::SetAccessToken {
                    client_user_id: "u1".to_string(),
                    access_token: "access-1".to_string()
                }
            );
            assert_eq!(then, ExchangePublicTokenOutput { failure: None });
            assert_eq!(then.to_json(), Some("{\"failure\":null}".to_string()));
        }
        other => panic!("unexpected: {:?}", other),
    }
    match public_token_exchanged(&input, Either::Right(rejection())) {
        Next::Answer(told) => assert_eq!(told.failure, Some(rejection())),
        other => panic!("unexpected: {:?}", other),
    }
}

#[test]
fn balances_are_asked_for_with_the_stored_token() {
    let stored_user = Client {
        client_user_id: "u1".to_string(),
        access_token: Some("access-1".to_string()),
    };
    let request = balance_request(&client(), stored_user).unwrap();
    assert_eq!(request.client_id, "id");
    assert_eq!(request.secret, "shh");
    assert_eq!(request.access_token, "access-1");
    assert_eq!(request.options, None);
}

#[test]
fn without_a_stored_token_there_is_no_balance_request() {
    let stored_user = Client { client_user_id: "u1".to_string(), access_token: None };
    assert_eq!(balance_request(&client(), stored_user), None);
}

#[test]
fn balances_or_the_rejection_are_told() {
    let accounts = AccountsGetResponse::from_json(
        "{\"accounts\":[],\"item\":{\"item_id\":\"i\",\"available_products\":[]},\"request_id\":\"r\"}",
    )
    .unwrap();
    let told = balance_read(Either::Left(accounts.clone()));
    assert_eq!(told, GetBalanceOutput { balance: Some(accounts), failure: None });
    assert!(told.to_json().unwrap().starts_with("{\"balance\":{\"accounts\":[],\"item\":{\"item_id\":\"i\","));
    assert!(told.to_json().unwrap().ends_with("\"request_id\":\"r\"},\"failure\":null}"));
    let refused = balance_read(Either::Right(rejection()));
    assert_eq!(refused, GetBalanceOutput { balance: None, failure: Some(rejection()) });
}

#[test]
fn the_answer_waits_for_the_store() {
    let then = ExchangePublicTokenOutput { failure: None };
    assert!(matches!(stored(Ok(1), then.clone()), Ok(ref told) if *told == then));
    assert!(matches!(stored(Ok(0), then.clone()), Ok(ref told) if *told == then));
    match stored(Err("no such table".to_string()), then) {
        Err(Error::GenericError(fault)) => assert_eq!(fault, "no such table"),
        other => panic!("unexpected: {:?}", other),
    }
}

#[test]
fn a_refused_value_is_the_senders_fault() {
    assert_eq!(Error::PlaidError(PlaidError::InvalidPhoneNumber("x".to_string())).status_code(), 400);
    assert_eq!(Error::PlaidError(PlaidError::InvalidDateOfBirth("x".to_string())).status_code(), 400);
}

#[test]
fn every_other_error_is_this_sides_fault() {
    assert_eq!(Error::PlaidError(PlaidError::Transport("x".to_string())).status_code(), 500);
    assert_eq!(Error::PlaidError(PlaidError::Serialization).status_code(), 500);
    assert_eq!(Error::PlaidError(PlaidError::Deserialization).status_code(), 500);
    assert_eq!(Error::GenericError("x".to_string()).status_code(), 500);
}

#[test]
fn a_new_user_has_no_access_token() {
    let row = NewClient::unlinked("u1");
    assert_eq!(row.client_user_id, "u1");
    assert_eq!(row.access_token, None);
}
