use valobs::communication::{Email, EmailError};
use valobs::result::ValobsError;
use valobs::traits::ValobsValidate;

#[test]
fn create_email_with_valid_data() {
    let email = Email::new("user@example.com").unwrap();

    assert_eq!(email.as_str(), "user@example.com");
}

#[test]
fn email_input_is_trimmed_and_lowercased() {
    // Sanitization runs before validation: surrounding whitespace goes
    // away and the address is folded to lower case.
    let email = Email::new("  USER@Example.COM  ").unwrap();

    assert_eq!(email.as_str(), "user@example.com");
}

#[test]
fn fails_to_create_email_without_an_at_sign() {
    let result = Email::new("user.example.com");

    assert_eq!(result, Err(EmailError::BadFormat));
}

#[test]
fn fails_to_create_email_without_a_final_label() {
    let result = Email::new("user@example");

    assert_eq!(result, Err(EmailError::BadFormat));
}

#[test]
fn fails_to_create_a_short_email() {
    let result = Email::new("a@b");

    assert_eq!(result, Err(EmailError::TooShort));
}

#[test]
fn fails_to_create_a_long_email() {
    let result = Email::new("a.very.long.local.part.indeed@example.com");

    assert_eq!(result, Err(EmailError::TooLong));
}

#[test]
fn whitespace_only_input_is_too_short() {
    let result = Email::new("      ");

    assert_eq!(result, Err(EmailError::TooShort));
}

#[test]
fn email_validates_through_the_value_object_contract() {
    let email = Email::validate(String::from("user@example.com")).unwrap();
    assert_eq!(email.as_str(), "user@example.com");

    let rejected = Email::validate(String::from("not an address"));
    assert_eq!(rejected, Err(ValobsError::InvalidEmail));
}
