use keyleash::name::{validate, SecretName, SecretNameError};

#[test]
fn accepts_canonical_names() {
    for value in ["X", "DATABASE_URL", "AWS_ACCESS_KEY_ID"] {
        let name = SecretName::try_from(value).unwrap();
        assert_eq!(name.as_ref(), value);
    }
}

#[test]
fn rejects_empty_name() {
    assert_eq!(SecretName::try_from(""), Err(SecretNameError::Empty));
}

#[test]
fn rejects_invalid_first_byte() {
    assert_eq!(
        SecretName::try_from("1PASSWORD_TOKEN"),
        Err(SecretNameError::InvalidFirstByte { byte: b'1' })
    );
}

#[test]
fn rejects_invalid_later_byte() {
    assert_eq!(
        SecretName::try_from("DATABASE-URL"),
        Err(SecretNameError::InvalidByte {
            index: 8,
            byte: b'-',
        })
    );
}

#[test]
fn rejects_name_longer_than_128_bytes() {
    let value = "A".repeat(129);
    assert_eq!(
        SecretName::try_from(value.as_str()),
        Err(SecretNameError::TooLong { len: 129 })
    );
}

#[test]
fn display_returns_the_canonical_name() {
    let name = SecretName::try_from("DATABASE_URL").unwrap();
    assert_eq!(name.to_string(), "DATABASE_URL");
}

#[test]
fn accepts_a_name_of_exactly_128_bytes() {
    let value = "B".repeat(128);
    let name = SecretName::try_from(value.as_str()).unwrap();
    assert_eq!(name.as_ref(), value.as_str());
}

#[test]
fn owned_text_is_validated_the_same_way() {
    let name = SecretName::try_from(String::from("API_KEY_2")).unwrap();
    assert_eq!(name.as_ref(), "API_KEY_2");
    assert_eq!(
        SecretName::try_from(String::from("api_key")),
        Err(SecretNameError::InvalidFirstByte { byte: b'a' })
    );
}

#[test]
fn reports_the_first_of_several_bad_bytes() {
    assert_eq!(
        validate("AB-c.D"),
        Err(SecretNameError::InvalidByte { byte: b'-', index: 2 })
    );
    assert_eq!(
        validate("A_b"),
        Err(SecretNameError::InvalidByte { byte: b'b', index: 2 })
    );
}

#[test]
fn length_is_checked_before_the_bytes() {
    let value = "a".repeat(200);
    assert_eq!(validate(&value), Err(SecretNameError::TooLong { len: 200 }));
}

#[test]
fn non_ascii_text_is_measured_and_located_in_bytes() {
    assert_eq!(
        validate("AÉ"),
        Err(SecretNameError::InvalidByte { byte: 0xC3, index: 1 })
    );
    assert_eq!(
        validate("É"),
        Err(SecretNameError::InvalidFirstByte { byte: 0xC3 })
    );
    let value = "é".repeat(65);
    assert_eq!(validate(&value), Err(SecretNameError::TooLong { len: 130 }));
}

#[test]
fn digits_and_underscores_may_follow_but_not_open() {
    assert!(validate("A1_").is_ok());
    assert_eq!(validate("_A"), Err(SecretNameError::InvalidFirstByte { byte: b'_' }));
    assert_eq!(validate("9"), Err(SecretNameError::InvalidFirstByte { byte: b'9' }));
}

#[test]
fn a_name_revalidates_to_an_equal_name() {
    let name = SecretName::try_from("STRIPE_KEY").unwrap();
    let again = SecretName::try_from(name.as_ref()).unwrap();
    assert_eq!(again, name);
    assert_eq!(name.clone(), name);
    assert!(validate(&name.to_string()).is_ok());
}
