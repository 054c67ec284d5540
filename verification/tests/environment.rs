use plaid_sdk::PlaidClient;
use plaid_sdk::PlaidEnv;

#[test]
fn each_environment_has_its_host() {
    assert_eq!(PlaidEnv::Sandbox.get_base_url(), "https://sandbox.plaid.com");
    assert_eq!(PlaidEnv::Production.get_base_url(), "https://production.plaid.com");
}

#[test]
fn sandbox_is_selected_by_name() {
    assert_eq!(PlaidEnv::from("sandbox"), PlaidEnv::Sandbox);
}

#[test]
fn production_is_selected_by_name() {
    assert_eq!(PlaidEnv::from("production"), PlaidEnv::Production);
}

#[test]
fn any_other_selector_means_production() {
    assert_eq!(PlaidEnv::from(""), PlaidEnv::Production);
    assert_eq!(PlaidEnv::from("Sandbox"), PlaidEnv::Production);
    assert_eq!(PlaidEnv::from("sandbox "), PlaidEnv::Production);
    assert_eq!(PlaidEnv::from("development"), PlaidEnv::Production);
}

#[test]
fn a_selector_selects_the_environment_it_names() {
    for env in [PlaidEnv::Sandbox, PlaidEnv::Production] {
        assert_eq!(PlaidEnv::from(env.to_string().as_str()), env);
    }
    assert_eq!(PlaidEnv::Sandbox.to_string(), "sandbox");
    assert_eq!(PlaidEnv::Production.to_string(), "production");
}

#[test]
fn a_client_keeps_what_it_was_given() {
    let client = PlaidClient::new("id", "secret", "sandbox", "https://app.example/back", "com.example");
    assert_eq!(client.plaid_client_id, "id");
    assert_eq!(client.plaid_secret, "secret");
    assert_eq!(client.plaid_env, PlaidEnv::Sandbox);
    assert_eq!(client.plaid_redirect_uri, "https://app.example/back");
    assert_eq!(client.plaid_android_package_name, "com.example");
}

#[test]
fn a_client_with_an_unknown_environment_talks_to_production() {
    let client = PlaidClient::new("id", "secret", "staging", "", "");
    assert_eq!(client.plaid_env, PlaidEnv::Production);
    assert_eq!(client.plaid_env.get_base_url(), "https://production.plaid.com");
}
