use tipz::errors::ContractError;
use tipz::validation::{
    validate_bio, validate_display_name, validate_domain, validate_image_url, validate_message, validate_tip_amount,
    validate_username, validate_x_handle,
};

fn b(s: &str) -> Vec<u8> {
    s.as_bytes().to_vec()
}

#[test]
fn usernames() {
    assert_eq!(validate_username(&b("alice")), Ok(()));
    assert_eq!(validate_username(&b("a_1")), Ok(()));
    assert_eq!(validate_username(&b("ab")), Err(ContractError::InvalidUsername));
    assert_eq!(validate_username(&b("1abc")), Err(ContractError::InvalidUsername));
    assert_eq!(validate_username(&b("Alice")), Err(ContractError::InvalidUsername));
    assert_eq!(validate_username(&b("a__b")), Err(ContractError::InvalidUsername));
    assert_eq!(validate_username(&b("abc_")), Err(ContractError::InvalidUsername));
    assert_eq!(validate_username(&vec![b'a'; 32]), Ok(()));
    assert_eq!(validate_username(&vec![b'a'; 33]), Err(ContractError::InvalidUsername));
}

#[test]
fn display_names_bios_urls() {
    assert_eq!(validate_display_name(&b("Alice Smith")), Ok(()));
    assert_eq!(validate_display_name(&b("")), Err(ContractError::InvalidDisplayName));
    assert_eq!(validate_display_name(&b(" \t\n")), Err(ContractError::InvalidDisplayName));
    assert_eq!(validate_display_name(&vec![b'a'; 65]), Err(ContractError::InvalidDisplayName));
    assert_eq!(validate_bio(&vec![b'a'; 280]), Ok(()));
    assert_eq!(validate_bio(&vec![b'a'; 281]), Err(ContractError::MessageTooLong));
    assert_eq!(validate_image_url(&vec![b'a'; 256]), Ok(()));
    assert_eq!(validate_image_url(&vec![b'a'; 257]), Err(ContractError::InvalidImageUrl));
}

#[test]
fn messages() {
    assert_eq!(validate_message(&b("line one\nline two\ttab\r")), Ok(()));
    assert_eq!(validate_message(&vec![b'a', 0x00]), Err(ContractError::InvalidMessage));
    assert_eq!(validate_message(&vec![b'a'; 281]), Err(ContractError::MessageTooLong));
}

#[test]
fn domains_and_handles() {
    assert_eq!(validate_domain(&b("alice.com")), Ok(()));
    assert_eq!(validate_domain(&b("sub.Alice-1.org")), Ok(()));
    assert_eq!(validate_domain(&b("nodot")), Err(ContractError::InvalidDomain));
    assert_eq!(validate_domain(&b("a_b.com")), Err(ContractError::InvalidDomain));
    assert_eq!(validate_x_handle(&b("@alice_X1")), Ok(()));
    assert_eq!(validate_x_handle(&b("alice")), Ok(()));
    assert_eq!(validate_x_handle(&b("@")), Err(ContractError::InvalidUsername));
    assert_eq!(validate_x_handle(&b("")), Err(ContractError::InvalidUsername));
    assert_eq!(validate_x_handle(&vec![b'a'; 15]), Ok(()));
    assert_eq!(validate_x_handle(&vec![b'a'; 16]), Err(ContractError::InvalidUsername));
    assert_eq!(validate_x_handle(&b("al-ice")), Err(ContractError::InvalidUsername));
}

#[test]
fn tip_amounts() {
    assert_eq!(validate_tip_amount(100, 100), Ok(()));
    assert_eq!(validate_tip_amount(99, 100), Err(ContractError::TipBelowMinimum));
}
