//! The in-memory payment document consumed by the encoding pipeline.
//!
//! A document is constructed once by an external decoder, borrowed read-only
//! by the encoder, and then discarded. Field-level constraints are not
//! enforced here: the encoder re-validates every field.

use vstd::prelude::*;

verus! {

/// A beneficiary's bank account: a required IBAN and an optional BIC.
#[derive(Debug, Clone)]
pub struct BankAccount {
    /// International bank account number: two uppercase letters, two
    /// digits, then up to thirty uppercase letters or digits.
    pub iban: String,
    /// Bank identification code: eight or eleven characters when present.
    pub bic: Option<String>,
}

/// The non-empty list of bank accounts of one payment record.
#[derive(Debug, Clone)]
pub struct BankAccounts {
    pub bank_account: Vec<BankAccount>,
}

/// One payment record. Every field has a fixed serialization position;
/// an absent optional field still serializes, as an empty token.
#[derive(Debug, Clone)]
pub struct Payment {
    /// Exactly one of `paymentorder`, `standingorder` or `directdebit`.
    pub payment_options: String,
    /// The strictly positive amount, counted in hundredths of the
    /// currency unit, or absent (for example for a donation).
    pub amount: Option<u64>,
    /// Three-letter ISO 4217 currency code, for example `EUR`.
    pub currency_code: String,
    /// Due date, `YYYY-MM-DD` or `YYYYMMDD`; optional.
    pub payment_due_date: Option<String>,
    /// Up to ten digits; optional.
    pub variable_symbol: Option<String>,
    /// Up to four digits; optional.
    pub constant_symbol: Option<String>,
    /// Up to ten digits; optional.
    pub specific_symbol: Option<String>,
    /// SEPA originator's reference, up to 35 characters; optional.
    pub originators_reference_information: Option<String>,
    /// Message for the beneficiary, 1 to 140 letters, digits,
    /// punctuation, separators or marks when present.
    pub payment_note: Option<String>,
    /// At least one bank account.
    pub bank_accounts: BankAccounts,
    /// Beneficiary's name, up to 140 characters; optional.
    pub beneficiary_name: Option<String>,
    /// First beneficiary address line, up to 70 characters; optional.
    pub beneficiary_address_line_1: Option<String>,
    /// Second beneficiary address line, up to 70 characters; optional.
    pub beneficiary_address_line_2: Option<String>,
}

/// The non-empty list of payments of a document; the first record is the
/// primary, preferred payment.
#[derive(Debug, Clone)]
pub struct Payments {
    pub payment: Vec<Payment>,
}

/// A whole payment document.
#[derive(Debug, Clone)]
pub struct Pay {
    pub payments: Payments,
}

} // verus!
