use plaid_sdk::error::PlaidError;
use plaid_sdk::json::ToJson;
use plaid_sdk::model::link::Dob;
use plaid_sdk::model::link::E164PhoneNumber;
use plaid_sdk::model::link::DOB_PATTERN;
use plaid_sdk::model::link::E164_PATTERN;

fn refused_phone(raw: &str) {
    match E164PhoneNumber::new(raw) {
        Err(PlaidError::InvalidPhoneNumber(kept)) => assert_eq!(kept, raw),
        other => panic!("{:?} should have been refused, got {:?}", raw, other),
    }
}

fn refused_date(raw: &str) {
    match Dob::new(raw) {
        Err(PlaidError::InvalidDateOfBirth(kept)) => assert_eq!(kept, raw),
        other => panic!("{:?} should have been refused, got {:?}", raw, other),
    }
}

#[test]
fn patterns_are_the_documented_ones() {
    assert_eq!(E164_PATTERN, r"^\+[1-9]\d{1,14}$");
    assert_eq!(DOB_PATTERN, r"^\d{4}-\d{2}-\d{2}$");
}

#[test]
fn phone_number_keeps_the_text_it_was_given() {
    let number = E164PhoneNumber::new("+14155552671").unwrap();
    assert_eq!(number.as_str(), "+14155552671");
    assert_eq!(number.to_string(), "+14155552671");
    assert_eq!(number.clone(), number);
}

#[test]
fn phone_number_is_written_as_the_text_it_was_given() {
    let number = E164PhoneNumber::new("+442071838750").unwrap();
    assert_eq!(number.to_json(), Some("\"+442071838750\"".to_string()));
}

#[test]
fn shortest_and_longest_phone_numbers_pass() {
    assert_eq!(E164PhoneNumber::new("+12").unwrap().as_str(), "+12");
    assert_eq!(E164PhoneNumber::new("+123456789012345").unwrap().as_str(), "+123456789012345");
}

#[test]
fn empty_phone_number_is_refused() {
    refused_phone("");
}

#[test]
fn phone_number_without_plus_is_refused() {
    refused_phone("14155552671");
}

#[test]
fn phone_number_with_leading_zero_is_refused() {
    refused_phone("+04155552671");
}

#[test]
fn phone_number_with_sixteen_digits_is_refused() {
    refused_phone("+1234567890123456");
}

#[test]
fn phone_number_with_one_digit_is_refused() {
    refused_phone("+1");
}

#[test]
fn phone_number_with_other_characters_is_refused() {
    refused_phone("+1415555267a");
    refused_phone("+1 415 555 2671");
    refused_phone("+1-415-555-2671");
    refused_phone("+14155552671\n");
    refused_phone(" +14155552671");
}

#[test]
fn a_favourable_verdict_alone_makes_a_phone_number() {
    assert!(matches!(
        E164PhoneNumber::from_verdict("nonsense", Some(false)),
        Err(PlaidError::InvalidPhoneNumber(_))
    ));
    assert!(matches!(
        E164PhoneNumber::from_verdict("nonsense", None),
        Err(PlaidError::InvalidPhoneNumber(_))
    ));
    assert_eq!(E164PhoneNumber::from_verdict("+12", Some(true)).unwrap().as_str(), "+12");
}

#[test]
fn date_of_birth_keeps_the_text_it_was_given() {
    let date = Dob::new("1987-01-31").unwrap();
    assert_eq!(date.as_str(), "1987-01-31");
    assert_eq!(date.to_string(), "1987-01-31");
    assert_eq!(date.to_json(), Some("\"1987-01-31\"".to_string()));
    assert_eq!(date.clone(), date);
}

#[test]
fn date_of_birth_is_checked_for_form_only() {
    assert_eq!(Dob::new("2024-13-40").unwrap().as_str(), "2024-13-40");
    assert_eq!(Dob::new("0000-00-00").unwrap().as_str(), "0000-00-00");
}

#[test]
fn date_of_birth_in_another_form_is_refused() {
    refused_date("");
    refused_date("2024-1-01");
    refused_date("20240101");
    refused_date("24-01-01");
    refused_date("2024/01/01");
    refused_date("2024-01-01 ");
    refused_date("2024-01-01T00:00:00Z");
    refused_date("abcd-ef-gh");
}

#[test]
fn a_favourable_verdict_alone_makes_a_date_of_birth() {
    assert!(matches!(
        Dob::from_verdict("nonsense", Some(false)),
        Err(PlaidError::InvalidDateOfBirth(_))
    ));
    assert!(matches!(Dob::from_verdict("nonsense", None), Err(PlaidError::InvalidDateOfBirth(_))));
    assert_eq!(Dob::from_verdict("2000-02-30", Some(true)).unwrap().as_str(), "2000-02-30");
}

#[test]
fn errors_say_what_was_refused() {
    let phone = E164PhoneNumber::new("12").unwrap_err();
    assert_eq!(phone.message(), "Invalid phone number: 12");
    assert!(phone.validation());
    let date = Dob::new("yesterday").unwrap_err();
    assert_eq!(date.message(), "Invalid date of birth: yesterday");
    assert!(date.validation());
}

#[test]
fn other_errors_are_no_validation_errors() {
    let transport = PlaidError::Transport("connection refused".to_string());
    assert!(!transport.validation());
    assert_eq!(transport.message(), "connection refused");
    assert!(!PlaidError::Serialization.validation());
    assert_eq!(PlaidError::Serialization.message(), "request could not be written as JSON");
    assert!(!PlaidError::Deserialization.validation());
    assert_eq!(
        PlaidError::Deserialization.message(),
        "reply could not be read as JSON of the expected shape"
    );
}
