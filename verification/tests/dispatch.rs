use plaid_sdk::error::PlaidError;
use plaid_sdk::model::accounts::AccountsBalanceGetRequest;
use plaid_sdk::model::accounts::AccountsGetResponse;
use plaid_sdk::model::error::PlaidErrorCode;
use plaid_sdk::model::error::PlaidErrorResponse;
use plaid_sdk::model::error::PlaidErrorType;
use plaid_sdk::model::items::ItemPublicTokenExchangeRequest;
use plaid_sdk::model::items::ItemPublicTokenExchangeResponse;
use plaid_sdk::model::link::LinkTokenCreateRequest;
use plaid_sdk::model::link::LinkTokenCreateResponse;
use plaid_sdk::model::processor::Processor;
use plaid_sdk::model::processor::ProcessorStripeBankAccountTokenCreateRequest;
use plaid_sdk::model::processor::ProcessorTokenCreateRequest;
use plaid_sdk::time::Timestamp;
use plaid_sdk::traits::conclude;
use plaid_sdk::traits::endpoint;
use plaid_sdk::traits::prepare;
use plaid_sdk::traits::read_reply;
use plaid_sdk::traits::status_is_success;
use plaid_sdk::traits::AccountsApi;
use plaid_sdk::traits::HttpReply;
use plaid_sdk::traits::ItemsApi;
use plaid_sdk::traits::LinkApi;
use plaid_sdk::traits::PendingCall;
use plaid_sdk::traits::PlaidApi;
use plaid_sdk::traits::ProcessorApi;
use plaid_sdk::traits::ProcessorStripeApi;
use plaid_sdk::traits::ACCOUNTS_BALANCE_GET;
use plaid_sdk::traits::CONTENT_TYPE;
use plaid_sdk::traits::ITEM_PUBLIC_TOKEN_EXCHANGE;
use plaid_sdk::traits::LINK_TOKEN_CREATE;
use plaid_sdk::traits::METHOD;
use plaid_sdk::traits::PROCESSOR_STRIPE_BANK_ACCOUNT_TOKEN_CREATE;
use plaid_sdk::traits::PROCESSOR_TOKEN_CREATE;
use plaid_sdk::Either;
use plaid_sdk::PlaidClient;

const ERROR_BODY: &str = r#"{
    "error_type": "INVALID_REQUEST",
    "error_code": "INVALID_CLIENT_ID",
    "error_message": "client_id must be a properly formatted, non-empty string",
    "display_message": null,
    "request_id": "abc123",
    "documentation_url": "https://plaid.com/docs/errors/invalid-request",
    "status": 400
}"#;

fn sandbox() -> PlaidClient {
    PlaidClient::new("id", "shh", "sandbox", "https://app.example/back", "com.example")
}

fn exchange(public_token: &str) -> ItemPublicTokenExchangeRequest {
    ItemPublicTokenExchangeRequest {
        client_id: "id".to_string(),
        secret: "shh".to_string(),
        public_token: public_token.to_string(),
    }
}

fn reply(status: u16, body: &str) -> Result<HttpReply, String> {
    Ok(HttpReply { status, body: body.to_string() })
}

#[test]
fn every_request_is_a_post_of_json() {
    assert_eq!(METHOD, "POST");
    assert_eq!(CONTENT_TYPE, "application/json");
}

#[test]
fn the_endpoints_have_their_paths() {
    assert_eq!(ACCOUNTS_BALANCE_GET, "accounts/balance/get");
    assert_eq!(ITEM_PUBLIC_TOKEN_EXCHANGE, "item/public_token/exchange");
    assert_eq!(LINK_TOKEN_CREATE, "link/token/create");
    assert_eq!(PROCESSOR_TOKEN_CREATE, "processor/token/create");
    assert_eq!(
        PROCESSOR_STRIPE_BANK_ACCOUNT_TOKEN_CREATE,
        "processor/stripe/bank_account_token/create"
    );
    assert_eq!(endpoint("https://host", "a/b"), "https://host/a/b");
}

#[test]
fn statuses_from_200_to_299_accept() {
    assert!(status_is_success(200));
    assert!(status_is_success(201));
    assert!(status_is_success(299));
    assert!(!status_is_success(199));
    assert!(!status_is_success(300));
    assert!(!status_is_success(400));
    assert!(!status_is_success(500));
    assert!(!status_is_success(0));
    assert!(!status_is_success(u16::MAX));
}

#[test]
fn a_link_token_call_goes_to_its_endpoint() {
    let request = LinkTokenCreateRequest::default();
    let pending = sandbox().link_token_create(&request).unwrap();
    assert_eq!(pending.request().method, "POST");
    assert_eq!(pending.request().url, "https://sandbox.plaid.com/link/token/create");
    assert_eq!(pending.request().content_type, "application/json");
    assert_eq!(pending.request().body, request.to_json_text());
}

trait JsonText {
    fn to_json_text(&self) -> String;
}

impl<T: plaid_sdk::json::ToJson> JsonText for T {
    fn to_json_text(&self) -> String {
        self.to_json().unwrap()
    }
}

#[test]
fn a_token_exchange_call_goes_to_its_endpoint() {
    let pending = sandbox().item_public_token_exchange(&exchange("public-1")).unwrap();
    assert_eq!(pending.request().url, "https://sandbox.plaid.com/item/public_token/exchange");
    assert_eq!(
        pending.request().body,
        "{\"client_id\":\"id\",\"secret\":\"shh\",\"public_token\":\"public-1\"}"
    );
}

#[test]
fn a_balance_call_goes_to_its_endpoint() {
    let client = PlaidClient::new("id", "shh", "production", "", "");
    let request = AccountsBalanceGetRequest {
        client_id: "id".to_string(),
        secret: "shh".to_string(),
        access_token: "access-1".to_string(),
        options: None,
    };
    let pending = client.accounts_balance_get(&request).unwrap();
    assert_eq!(pending.request().url, "https://production.plaid.com/accounts/balance/get");
    assert_eq!(
        pending.request().body,
        "{\"client_id\":\"id\",\"secret\":\"shh\",\"access_token\":\"access-1\"}"
    );
}

#[test]
fn processor_calls_go_to_their_endpoints() {
    let token = ProcessorTokenCreateRequest {
        client_id: "id".to_string(),
        secret: "shh".to_string(),
        access_token: "access-1".to_string(),
        account_id: "acc-1".to_string(),
        processor: Processor::Dwolla,
    };
    let pending = sandbox().processor_token_create(&token).unwrap();
    assert_eq!(pending.request().url, "https://sandbox.plaid.com/processor/token/create");
    assert_eq!(pending.request().body, token.to_json_text());
    let accepted = pending
        .complete(reply(200, "{\"processor_token\":\"processor-1\",\"request_id\":\"r\"}"))
        .unwrap();
    assert!(matches!(accepted, Either::Left(ref created) if created.processor_token == "processor-1"));

    let stripe = ProcessorStripeBankAccountTokenCreateRequest {
        client_id: "id".to_string(),
        secret: "shh".to_string(),
        access_token: "access-1".to_string(),
        account_id: "acc-1".to_string(),
    };
    let pending = sandbox().processor_stripe_bank_account_token_create(&stripe).unwrap();
    assert_eq!(
        pending.request().url,
        "https://sandbox.plaid.com/processor/stripe/bank_account_token/create"
    );
    assert_eq!(pending.request().body, stripe.to_json_text());
    let rejected = pending.complete(reply(400, ERROR_BODY)).unwrap();
    assert!(matches!(rejected, Either::Right(ref error) if error.request_id == "abc123"));
}

#[test]
fn a_call_is_written_for_the_address_it_is_given() {
    let client = sandbox();
    let pending: PendingCall<ItemPublicTokenExchangeResponse> =
        client.call(&exchange("p"), "http://localhost:9/anywhere").unwrap();
    assert_eq!(pending.request().url, "http://localhost:9/anywhere");
    let written: PendingCall<LinkTokenCreateResponse> =
        prepare(&exchange("p"), "http://localhost:9/elsewhere").unwrap();
    assert_eq!(written.request().url, "http://localhost:9/elsewhere");
    assert_eq!(written.request().body, pending.request().body);
}

#[test]
fn what_cannot_be_written_as_json_is_a_serialization_error() {
    let beyond_the_calendar = Timestamp { seconds: i64::MAX, nanos: 0 };
    let written: Result<PendingCall<LinkTokenCreateResponse>, PlaidError> =
        prepare(&beyond_the_calendar, "https://sandbox.plaid.com/link/token/create");
    assert!(matches!(written, Err(PlaidError::Serialization)));
    let listed: Result<PendingCall<LinkTokenCreateResponse>, PlaidError> =
        prepare(&vec![Timestamp { seconds: 0, nanos: 0 }, beyond_the_calendar], "u");
    assert!(matches!(listed, Err(PlaidError::Serialization)));
}

#[test]
fn an_accepted_reply_is_handed_out_as_left() {
    let pending = sandbox().item_public_token_exchange(&exchange("public-1")).unwrap();
    let outcome = pending.complete(reply(
        200,
        "{\"access_token\":\"access-sandbox-1\",\"item_id\":\"item-1\",\"request_id\":\"req-1\"}",
    ));
    match outcome {
        Ok(Either::Left(accepted)) => {
            assert_eq!(accepted.access_token, "access-sandbox-1");
            assert_eq!(accepted.item_id, "item-1");
            assert_eq!(accepted.request_id, "req-1");
        }
        other => panic!("unexpected: {:?}", other),
    }
}

#[test]
fn a_rejected_reply_is_handed_out_as_right_and_is_no_error() {
    let pending = sandbox().item_public_token_exchange(&exchange("public-1")).unwrap();
    match pending.complete(reply(400, ERROR_BODY)) {
        Ok(Either::Right(rejected)) => {
            assert_eq!(rejected.error_type, PlaidErrorType::InvalidRequest);
            assert_eq!(rejected.error_code, PlaidErrorCode::InvalidClientId);
            assert_eq!(rejected.request_id, "abc123");
            assert_eq!(
                rejected.error_message,
                "client_id must be a properly formatted, non-empty string"
            );
            assert_eq!(rejected.display_message, None);
            assert_eq!(
                rejected.documentation_url,
                "https://plaid.com/docs/errors/invalid-request"
            );
            assert_eq!(rejected.status, Some(400));
            assert_eq!(rejected.causes, None);
        }
        other => panic!("unexpected: {:?}", other),
    }
}

#[test]
fn an_accepted_reply_of_another_shape_is_a_deserialization_error() {
    let pending = sandbox().item_public_token_exchange(&exchange("public-1")).unwrap();
    assert!(matches!(
        pending.complete(reply(200, "{\"unexpected\":true}")),
        Err(PlaidError::Deserialization)
    ));
}

#[test]
fn an_accepted_reply_is_never_read_as_an_error_reply() {
    let pending = sandbox().item_public_token_exchange(&exchange("public-1")).unwrap();
    assert!(matches!(pending.complete(reply(200, ERROR_BODY)), Err(PlaidError::Deserialization)));
    assert!(matches!(
        read_reply::<LinkTokenCreateResponse>(204, ERROR_BODY),
        Err(PlaidError::Deserialization)
    ));
}

#[test]
fn a_rejected_reply_of_another_shape_is_a_deserialization_error() {
    let pending = sandbox().item_public_token_exchange(&exchange("public-1")).unwrap();
    assert!(matches!(
        pending.complete(reply(500, "<html>Bad gateway</html>")),
        Err(PlaidError::Deserialization)
    ));
    assert!(matches!(
        read_reply::<ItemPublicTokenExchangeResponse>(
            404,
            "{\"access_token\":\"a\",\"item_id\":\"i\",\"request_id\":\"r\"}"
        ),
        Err(PlaidError::Deserialization)
    ));
}

#[test]
fn a_fault_of_the_transport_is_handed_on_as_it_is() {
    let pending = sandbox().item_public_token_exchange(&exchange("public-1")).unwrap();
    match pending.complete(Err("error sending request: connection refused".to_string())) {
        Err(PlaidError::Transport(fault)) => {
            assert_eq!(fault, "error sending request: connection refused")
        }
        other => panic!("unexpected: {:?}", other),
    }
    assert!(matches!(
        conclude::<AccountsGetResponse>(Err("timed out".to_string())),
        Err(PlaidError::Transport(_))
    ));
}

#[test]
fn a_reply_is_read_by_its_status_alone() {
    let body = "{\"expiration\":\"2024-01-01T00:00:00Z\",\"link_token\":\"l\",\"request_id\":\"r\"}";
    for status in [200u16, 201, 204, 299] {
        match read_reply::<LinkTokenCreateResponse>(status, body) {
            Ok(Either::Left(created)) => {
                assert_eq!(created.link_token, "l");
                assert_eq!(created.expiration, Timestamp { seconds: 1704067200, nanos: 0 });
            }
            other => panic!("unexpected at {}: {:?}", status, other),
        }
    }
    for status in [100u16, 199, 300, 301, 400, 401, 429, 500, 503] {
        match read_reply::<LinkTokenCreateResponse>(status, ERROR_BODY) {
            Ok(Either::Right(rejected)) => assert_eq!(rejected.request_id, "abc123"),
            other => panic!("unexpected at {}: {:?}", status, other),
        }
    }
}

#[test]
fn calls_that_wait_together_end_each_with_its_own_reply() {
    let client = sandbox();
    let count = 16;
    let mut waiting = Vec::new();
    for n in 0..count {
        let pending = client.item_public_token_exchange(&exchange(&format!("public-{}", n))).unwrap();
        assert_eq!(
            pending.request().body,
            format!("{{\"client_id\":\"id\",\"secret\":\"shh\",\"public_token\":\"public-{}\"}}", n)
        );
        waiting.push((n, pending));
    }
    waiting.reverse();
    waiting.swap(3, 11);
    for (n, pending) in waiting {
        let brought = if n % 4 == 0 {
            Err(format!("fault {}", n))
        } else if n % 4 == 1 {
            reply(400, &ERROR_BODY.replace("abc123", &format!("rejected-{}", n)))
        } else {
            reply(
                200,
                &format!(
                    "{{\"access_token\":\"access-{}\",\"item_id\":\"item-{}\",\"request_id\":\"req-{}\"}}",
                    n, n, n
                ),
            )
        };
        match pending.complete(brought) {
            Ok(Either::Left(accepted)) => {
                assert!(n % 4 >= 2);
                assert_eq!(accepted.access_token, format!("access-{}", n));
                assert_eq!(accepted.item_id, format!("item-{}", n));
                assert_eq!(accepted.request_id, format!("req-{}", n));
            }
            Ok(Either::Right(rejected)) => {
                assert_eq!(n % 4, 1);
                assert_eq!(rejected.request_id, format!("rejected-{}", n));
            }
            Err(PlaidError::Transport(fault)) => {
                assert_eq!(n % 4, 0);
                assert_eq!(fault, format!("fault {}", n));
            }
            Err(other) => panic!("unexpected at {}: {:?}", n, other),
        }
    }
}

#[test]
fn the_same_reply_read_twice_reads_alike() {
    let first = read_reply::<PlaidErrorResponse>(200, ERROR_BODY).unwrap();
    let second = read_reply::<PlaidErrorResponse>(200, ERROR_BODY).unwrap();
    match (first, second) {
        (Either::Left(a), Either::Left(b)) => assert_eq!(a, b),
        _ => panic!("an accepted reply was not handed out as left"),
    }
}
