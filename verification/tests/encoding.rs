use bysqr::encoder::encode;
use bysqr::errors::{EncodeError, FieldKind};
use bysqr::frame::build_frame;
use bysqr::models::{BankAccount, BankAccounts, Pay, Payment, Payments};
use bysqr::sequence::payment_to_seq;

fn base_payment() -> Payment {
    Payment {
        payment_options: "paymentorder".to_string(),
        amount: Some(12345),
        currency_code: "EUR".to_string(),
        payment_due_date: Some("2024-06-01".to_string()),
        variable_symbol: Some("123456789".to_string()),
        constant_symbol: None,
        specific_symbol: None,
        originators_reference_information: None,
        payment_note: None,
        bank_accounts: BankAccounts {
            bank_account: vec![BankAccount {
                iban: "SK8811000000002945102347".to_string(),
                bic: Some("TATRSKBX".to_string()),
            }],
        },
        beneficiary_name: None,
        beneficiary_address_line_1: None,
        beneficiary_address_line_2: None,
    }
}

fn doc(p: Payment) -> Pay {
    Pay { payments: Payments { payment: vec![p] } }
}

#[test]
fn sequencer_produces_fixed_positions() {
    let tokens = payment_to_seq(&base_payment()).unwrap();
    let expected = vec![
        "1",
        "123.45",
        "EUR",
        "20240601",
        "123456789",
        "",
        "",
        "",
        "",
        "1",
        "SK8811000000002945102347",
        "TATRSKBX",
        "0",
        "0",
        "",
        "",
        "",
    ];
    assert_eq!(tokens, expected);
}

#[test]
fn sequencer_keeps_empty_positions_for_absent_fields() {
    let mut p = base_payment();
    p.amount = None;
    p.payment_due_date = None;
    p.variable_symbol = None;
    let tokens = payment_to_seq(&p).unwrap();
    assert_eq!(tokens.len(), 17);
    assert_eq!(tokens[1], "");
    assert_eq!(tokens[3], "");
    assert_eq!(tokens[4], "");
}

#[test]
fn frame_checksum_is_crc32_of_joined_text() {
    let tokens = payment_to_seq(&base_payment()).unwrap();
    let mut all = vec!["1".to_string()];
    all.extend(tokens.iter().cloned());
    let joined = format!("\t{}", all.join("\t"));
    let frame = build_frame(&all);
    let crc = crc32fast::hash(joined.as_bytes()).to_le_bytes();
    assert_eq!(&frame[0..4], &crc);
    assert_eq!(&frame[4..], joined.as_bytes());
}

#[test]
fn golden_vector() {
    let out = encode(&doc(base_payment())).unwrap();
    assert_eq!(
        out,
        "0005A0001EK5PDQS93146TKU0GJAP4R8077UBEHG9ES891NNKCFNUGKQAERMGHAALSG34RT9N1903IS2VDIDLGH3JUK4BCNTTUPQTK1G0DQSQO2DI4VMV8M8RVVOE8P000"
    );
}

/// Rebuilds the expected output with the outside crates directly —
/// checksum, fixed-parameter compression, header packing and alphabet
/// re-encoding — and holds `encode` to it.
#[test]
fn pipeline_matches_reference_construction() {
    let mut p = base_payment();
    p.payment_note = Some("Ďakujeme".to_string());
    p.constant_symbol = Some("0308".to_string());
    p.beneficiary_name = Some("Jane Doe".to_string());

    let tokens = payment_to_seq(&p).unwrap();
    let mut all = vec!["1".to_string()];
    all.extend(tokens.iter().cloned());
    let joined = format!("\t{}", all.join("\t"));

    let mut to_compress = crc32fast::hash(joined.as_bytes()).to_le_bytes().to_vec();
    to_compress.extend_from_slice(joined.as_bytes());

    let mut options = liblzma::stream::LzmaOptions::new_preset(6).unwrap();
    options.literal_context_bits(3);
    options.literal_position_bits(0);
    options.position_bits(2);
    options.dict_size(131072);
    let stream = liblzma::stream::Stream::new_lzma_encoder(&options).unwrap();
    let mut enc = liblzma::write::XzEncoder::new_stream(Vec::new(), stream);
    std::io::Write::write_all(&mut enc, &to_compress).unwrap();
    let compressed = enc.finish().unwrap()[13..].to_vec();

    let mut payload = vec![0u8, 0u8, (to_compress.len() & 0xff) as u8, 0u8];
    payload.extend_from_slice(&compressed);

    let mut bin = String::new();
    for b in &payload {
        bin.push_str(&format!("{:08b}", b));
    }
    while bin.len() % 5 != 0 {
        bin.push('0');
    }
    let table: Vec<char> = "0123456789ABCDEFGHIJKLMNOPQRSTUV".chars().collect();
    let expected: String = bin
        .as_bytes()
        .chunks(5)
        .map(|c| table[usize::from_str_radix(std::str::from_utf8(c).unwrap(), 2).unwrap()])
        .collect();

    assert_eq!(encode(&doc(p)).unwrap(), expected);
}

#[test]
fn encoding_is_deterministic() {
    let out1 = encode(&doc(base_payment())).unwrap();
    let out2 = encode(&doc(base_payment())).unwrap();
    assert_eq!(out1, out2);
}

#[test]
fn multi_record_document_encodes() {
    let pay = Pay {
        payments: Payments { payment: vec![base_payment(), base_payment()] },
    };
    let out1 = encode(&pay).unwrap();
    let out2 = encode(&pay).unwrap();
    assert_eq!(out1, out2);
    assert!(!out1.is_empty());
    assert!(out1.chars().all(|c| "0123456789ABCDEFGHIJKLMNOPQRSTUV".contains(c)));
}

#[test]
fn invalid_iban_is_rejected_before_framing() {
    let mut p = base_payment();
    p.bank_accounts.bank_account[0].iban = "sk8811000000002945102347".to_string();
    let r = encode(&doc(p));
    assert_eq!(r, Err(EncodeError::FieldValidation(FieldKind::Iban)));
}

#[test]
fn invalid_bic_is_rejected() {
    let mut p = base_payment();
    p.bank_accounts.bank_account[0].bic = Some("TATRSK".to_string());
    let r = encode(&doc(p));
    assert_eq!(r, Err(EncodeError::FieldValidation(FieldKind::Bic)));
}

#[test]
fn document_without_records_is_structural_error() {
    let pay = Pay { payments: Payments { payment: vec![] } };
    assert_eq!(encode(&pay), Err(EncodeError::Structure));
}

#[test]
fn record_without_accounts_is_structural_error() {
    let mut p = base_payment();
    p.bank_accounts.bank_account.clear();
    assert_eq!(encode(&doc(p)), Err(EncodeError::Structure));
}

#[test]
fn unknown_payment_options_value_fails() {
    let mut p = base_payment();
    p.payment_options = "banktransfer".to_string();
    assert_eq!(
        encode(&doc(p)),
        Err(EncodeError::FieldValidation(FieldKind::PaymentOptions))
    );
}

#[test]
fn standing_order_and_direct_debit_options() {
    let mut p = base_payment();
    p.payment_options = "standingorder".to_string();
    let tokens = payment_to_seq(&p).unwrap();
    assert_eq!(tokens[0], "2");
    p.payment_options = "directdebit".to_string();
    let tokens = payment_to_seq(&p).unwrap();
    assert_eq!(tokens[0], "4");
}

#[test]
fn zero_amount_fails() {
    let mut p = base_payment();
    p.amount = Some(0);
    assert_eq!(
        encode(&doc(p)),
        Err(EncodeError::FieldValidation(FieldKind::Amount))
    );
}

#[test]
fn lowercase_currency_fails() {
    let mut p = base_payment();
    p.currency_code = "eur".to_string();
    assert_eq!(
        encode(&doc(p)),
        Err(EncodeError::FieldValidation(FieldKind::CurrencyCode))
    );
}

#[test]
fn currency_match_is_unanchored() {
    let mut p = base_payment();
    p.currency_code = "xxEURxx".to_string();
    let tokens = payment_to_seq(&p).unwrap();
    assert_eq!(tokens[2], "xxEURxx");
}

#[test]
fn first_failing_field_wins() {
    let mut p = base_payment();
    p.amount = Some(0);
    p.currency_code = "eur".to_string();
    assert_eq!(
        encode(&doc(p)),
        Err(EncodeError::FieldValidation(FieldKind::Amount))
    );
}

#[test]
fn error_messages_are_descriptive() {
    assert_eq!(
        EncodeError::FieldValidation(FieldKind::Iban).message(),
        "Encoding error: The IBAN does not match pattern [A-Z]{2}[0-9]{2}[A-Z0-9]{0,30}"
    );
    assert!(EncodeError::DateFormat.message().starts_with("Encoding error:"));
    assert!(EncodeError::Structure.message().contains("at least one payment record"));
    assert!(EncodeError::Compression.message().contains("compression"));
}
