use bysqr::encoder::encode;
use bysqr::errors::{EncodeError, FieldKind};
use bysqr::models::{BankAccount, BankAccounts, Pay, Payment, Payments};
use bysqr::sequence::payment_to_seq;
use bysqr::text::{as_decimal_str, as_valid_date, u64_to_dec};

fn payment() -> Payment {
    Payment {
        payment_options: "paymentorder".to_string(),
        amount: Some(100),
        currency_code: "EUR".to_string(),
        payment_due_date: None,
        variable_symbol: None,
        constant_symbol: None,
        specific_symbol: None,
        originators_reference_information: None,
        payment_note: None,
        bank_accounts: BankAccounts {
            bank_account: vec![BankAccount {
                iban: "SK8811000000002945102347".to_string(),
                bic: None,
            }],
        },
        beneficiary_name: None,
        beneficiary_address_line_1: None,
        beneficiary_address_line_2: None,
    }
}

fn doc(p: Payment) -> Pay {
    Pay { payments: Payments { payment: vec![p] } }
}

#[test]
fn amount_canonicalization() {
    assert_eq!(as_decimal_str(10000), "100");
    assert_eq!(as_decimal_str(190), "1.9");
    assert_eq!(as_decimal_str(8), "0.08");
    assert_eq!(as_decimal_str(12345), "123.45");
    assert_eq!(as_decimal_str(1), "0.01");
    assert_eq!(as_decimal_str(100), "1");
    assert_eq!(as_decimal_str(110), "1.1");
}

#[test]
fn decimal_rendering() {
    assert_eq!(u64_to_dec(0), "0");
    assert_eq!(u64_to_dec(7), "7");
    assert_eq!(u64_to_dec(1000), "1000");
    assert_eq!(u64_to_dec(18446744073709551615), "18446744073709551615");
}

#[test]
fn date_normalization_dashed() {
    assert_eq!(as_valid_date(&"2024-06-01".to_string()), Ok("20240601".to_string()));
}

#[test]
fn date_normalization_compact_unchanged() {
    assert_eq!(as_valid_date(&"20240601".to_string()), Ok("20240601".to_string()));
}

#[test]
fn invalid_month_fails() {
    assert_eq!(as_valid_date(&"2024-13-01".to_string()), Err(EncodeError::DateFormat));
}

#[test]
fn calendar_validation() {
    assert_eq!(as_valid_date(&"2024-02-29".to_string()), Ok("20240229".to_string()));
    assert_eq!(as_valid_date(&"2023-02-29".to_string()), Err(EncodeError::DateFormat));
    assert_eq!(as_valid_date(&"1900-02-29".to_string()), Err(EncodeError::DateFormat));
    assert_eq!(as_valid_date(&"2000-02-29".to_string()), Ok("20000229".to_string()));
    assert_eq!(as_valid_date(&"2024-04-31".to_string()), Err(EncodeError::DateFormat));
    assert_eq!(as_valid_date(&"2024-00-10".to_string()), Err(EncodeError::DateFormat));
    assert_eq!(as_valid_date(&"2024-01-00".to_string()), Err(EncodeError::DateFormat));
}

#[test]
fn malformed_dates_fail() {
    assert_eq!(as_valid_date(&"2024/06/01".to_string()), Err(EncodeError::DateFormat));
    assert_eq!(as_valid_date(&"202406".to_string()), Err(EncodeError::DateFormat));
    assert_eq!(as_valid_date(&"2024-6-1".to_string()), Err(EncodeError::DateFormat));
    assert_eq!(as_valid_date(&"".to_string()), Err(EncodeError::DateFormat));
}

#[test]
fn bad_due_date_is_date_format_error() {
    let mut p = payment();
    p.payment_due_date = Some("2024-13-01".to_string());
    assert_eq!(encode(&doc(p)), Err(EncodeError::DateFormat));
}

#[test]
fn variable_symbol_length_bound() {
    let mut p = payment();
    p.variable_symbol = Some("1234567890".to_string());
    assert!(payment_to_seq(&p).is_ok());
    p.variable_symbol = Some("12345678901".to_string());
    assert_eq!(
        payment_to_seq(&p),
        Err(EncodeError::FieldValidation(FieldKind::VariableSymbol))
    );
    p.variable_symbol = Some("12a".to_string());
    assert_eq!(
        payment_to_seq(&p),
        Err(EncodeError::FieldValidation(FieldKind::VariableSymbol))
    );
}

#[test]
fn constant_symbol_length_bound() {
    let mut p = payment();
    p.constant_symbol = Some("0308".to_string());
    assert!(payment_to_seq(&p).is_ok());
    p.constant_symbol = Some("03080".to_string());
    assert_eq!(
        payment_to_seq(&p),
        Err(EncodeError::FieldValidation(FieldKind::ConstantSymbol))
    );
}

#[test]
fn specific_symbol_length_bound() {
    let mut p = payment();
    p.specific_symbol = Some("55555".to_string());
    assert!(payment_to_seq(&p).is_ok());
    p.specific_symbol = Some("5".repeat(11));
    assert_eq!(
        payment_to_seq(&p),
        Err(EncodeError::FieldValidation(FieldKind::SpecificSymbol))
    );
}

#[test]
fn originators_reference_length_bound() {
    let mut p = payment();
    p.originators_reference_information = Some("x".repeat(35));
    assert!(payment_to_seq(&p).is_ok());
    p.originators_reference_information = Some("x".repeat(36));
    assert_eq!(
        payment_to_seq(&p),
        Err(EncodeError::FieldValidation(
            FieldKind::OriginatorsReferenceInformation
        ))
    );
}

#[test]
fn payment_note_bounds() {
    let mut p = payment();
    p.payment_note = Some("Thanks for the coffee".to_string());
    assert!(payment_to_seq(&p).is_ok());
    p.payment_note = Some("n".repeat(140));
    assert!(payment_to_seq(&p).is_ok());
    p.payment_note = Some("n".repeat(141));
    assert_eq!(
        payment_to_seq(&p),
        Err(EncodeError::FieldValidation(FieldKind::PaymentNote))
    );
    p.payment_note = Some("".to_string());
    assert_eq!(
        payment_to_seq(&p),
        Err(EncodeError::FieldValidation(FieldKind::PaymentNote))
    );
    p.payment_note = Some("tab\there".to_string());
    assert_eq!(
        payment_to_seq(&p),
        Err(EncodeError::FieldValidation(FieldKind::PaymentNote))
    );
}

#[test]
fn unicode_payment_note_is_accepted() {
    let mut p = payment();
    p.payment_note = Some("Príspevok – ďakujeme!".to_string());
    let tokens = payment_to_seq(&p).unwrap();
    assert_eq!(tokens[8], "Príspevok – ďakujeme!");
}

#[test]
fn beneficiary_fields_length_bounds() {
    let mut p = payment();
    p.beneficiary_name = Some("y".repeat(140));
    assert!(payment_to_seq(&p).is_ok());
    p.beneficiary_name = Some("y".repeat(141));
    assert_eq!(
        payment_to_seq(&p),
        Err(EncodeError::FieldValidation(FieldKind::BeneficiaryName))
    );
    let mut p = payment();
    p.beneficiary_address_line_1 = Some("a".repeat(71));
    assert_eq!(
        payment_to_seq(&p),
        Err(EncodeError::FieldValidation(
            FieldKind::BeneficiaryAddressLine1
        ))
    );
    let mut p = payment();
    p.beneficiary_address_line_2 = Some("b".repeat(71));
    assert_eq!(
        payment_to_seq(&p),
        Err(EncodeError::FieldValidation(
            FieldKind::BeneficiaryAddressLine2
        ))
    );
}

#[test]
fn line_break_in_text_field_fails() {
    let mut p = payment();
    p.beneficiary_name = Some("line\nbreak".to_string());
    assert_eq!(
        payment_to_seq(&p),
        Err(EncodeError::FieldValidation(FieldKind::BeneficiaryName))
    );
}

#[test]
fn iban_shape_bounds() {
    let mut p = payment();
    p.bank_accounts.bank_account[0].iban = "SK88".to_string();
    assert!(payment_to_seq(&p).is_ok());
    p.bank_accounts.bank_account[0].iban = "SK8".to_string();
    assert_eq!(
        payment_to_seq(&p),
        Err(EncodeError::FieldValidation(FieldKind::Iban))
    );
    p.bank_accounts.bank_account[0].iban = format!("SK88{}", "1".repeat(31));
    assert_eq!(
        payment_to_seq(&p),
        Err(EncodeError::FieldValidation(FieldKind::Iban))
    );
}

#[test]
fn eleven_character_bic_is_accepted() {
    let mut p = payment();
    p.bank_accounts.bank_account[0].bic = Some("TATRSKBXXXX".to_string());
    let tokens = payment_to_seq(&p).unwrap();
    assert_eq!(tokens[11], "TATRSKBXXXX");
}
