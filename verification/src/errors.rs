//! Error values surfaced when an encode attempt is aborted.

use vstd::prelude::*;
use vstd::string::StringExecFns;

verus! {

/// Identifies the payment field whose value failed validation.
#[derive(Debug, Clone, Copy, PartialEq, Eq, Structural)]
pub enum FieldKind {
    PaymentOptions,
    Amount,
    CurrencyCode,
    VariableSymbol,
    ConstantSymbol,
    SpecificSymbol,
    OriginatorsReferenceInformation,
    PaymentNote,
    Iban,
    Bic,
    BeneficiaryName,
    BeneficiaryAddressLine1,
    BeneficiaryAddressLine2,
}

/// Why an encode attempt was aborted. Every stage either succeeds or fails
/// with one of these values; there is no partial output.
#[derive(Debug, Clone, Copy, PartialEq, Eq, Structural)]
pub enum EncodeError {
    /// A field's value does not match its required pattern, length bound,
    /// sign, or enumerated set.
    FieldValidation(FieldKind),
    /// The due date matches neither accepted textual shape, or is not a
    /// valid calendar date.
    DateFormat,
    /// The document has no payment records, or a record has no bank
    /// accounts.
    Structure,
    /// The compression stream could not be constructed or finalized.
    Compression,
}

/// The descriptive text reported for each field-validation failure,
/// naming the field and the contract it was held to.
pub open spec fn field_message(f: FieldKind) -> Seq<char> {
    match f {
        FieldKind::PaymentOptions => "The payment options value is not one of paymentorder, standingorder, directdebit"@,
        FieldKind::Amount => "The amount must be a positive number"@,
        FieldKind::CurrencyCode => "The currency code is not in ISO 4217 format"@,
        FieldKind::VariableSymbol => "The variable symbol does not match pattern [0-9]{0,10}"@,
        FieldKind::ConstantSymbol => "The constant symbol does not match pattern [0-9]{0,4}"@,
        FieldKind::SpecificSymbol => "The specific symbol does not match pattern [0-9]{0,10}"@,
        FieldKind::OriginatorsReferenceInformation => "The originators reference information does not match pattern .{0,35}"@,
        FieldKind::PaymentNote => "The payment note does not match pattern [\\p{L}\\p{N}\\p{P}\\p{Z}\\p{M}]{1,140}"@,
        FieldKind::Iban => "The IBAN does not match pattern [A-Z]{2}[0-9]{2}[A-Z0-9]{0,30}"@,
        FieldKind::Bic => "The BIC does not match pattern [A-Z]{4}[A-Z]{2}[A-Z0-9]{2}([A-Z0-9]{3})?"@,
        FieldKind::BeneficiaryName => "The beneficiary name does not match pattern .{0,140}"@,
        FieldKind::BeneficiaryAddressLine1 => "The beneficiary address line 1 does not match pattern .{0,70}"@,
        FieldKind::BeneficiaryAddressLine2 => "The beneficiary address line 2 does not match pattern .{0,70}"@,
    }
}

/// The descriptive text reported for each error value.
pub open spec fn error_message(e: EncodeError) -> Seq<char> {
    match e {
        EncodeError::FieldValidation(f) => "Encoding error: "@ + field_message(f),
        EncodeError::DateFormat => "Encoding error: The date is not a valid calendar date in YYYY-MM-DD or YYYYMMDD form"@,
        EncodeError::Structure => "Encoding error: The document needs at least one payment record, and every record at least one bank account"@,
        EncodeError::Compression => "Encoding error: The compression stream could not be run"@,
    }
}

impl FieldKind {
    /// The descriptive text for this field-validation failure.
    pub fn message(&self) -> (r: String)
        ensures
            r@ == field_message(*self),
    {
        match self {
            FieldKind::PaymentOptions => String::from_str("The payment options value is not one of paymentorder, standingorder, directdebit"),
            FieldKind::Amount => String::from_str("The amount must be a positive number"),
            FieldKind::CurrencyCode => String::from_str("The currency code is not in ISO 4217 format"),
            FieldKind::VariableSymbol => String::from_str("The variable symbol does not match pattern [0-9]{0,10}"),
            FieldKind::ConstantSymbol => String::from_str("The constant symbol does not match pattern [0-9]{0,4}"),
            FieldKind::SpecificSymbol => String::from_str("The specific symbol does not match pattern [0-9]{0,10}"),
            FieldKind::OriginatorsReferenceInformation => String::from_str("The originators reference information does not match pattern .{0,35}"),
            FieldKind::PaymentNote => String::from_str("The payment note does not match pattern [\\p{L}\\p{N}\\p{P}\\p{Z}\\p{M}]{1,140}"),
            FieldKind::Iban => String::from_str("The IBAN does not match pattern [A-Z]{2}[0-9]{2}[A-Z0-9]{0,30}"),
            FieldKind::Bic => String::from_str("The BIC does not match pattern [A-Z]{4}[A-Z]{2}[A-Z0-9]{2}([A-Z0-9]{3})?"),
            FieldKind::BeneficiaryName => String::from_str("The beneficiary name does not match pattern .{0,140}"),
            FieldKind::BeneficiaryAddressLine1 => String::from_str("The beneficiary address line 1 does not match pattern .{0,70}"),
            FieldKind::BeneficiaryAddressLine2 => String::from_str("The beneficiary address line 2 does not match pattern .{0,70}"),
        }
    }
}

impl EncodeError {
    /// The descriptive text for this error value.
    pub fn message(&self) -> (r: String)
        ensures
            r@ == error_message(*self),
    {
        match self {
            EncodeError::FieldValidation(f) => {
                let mut m = String::from_str("Encoding error: ");
                m.append(f.message().as_str());
                m
            },
            EncodeError::DateFormat => String::from_str("Encoding error: The date is not a valid calendar date in YYYY-MM-DD or YYYYMMDD form"),
            EncodeError::Structure => String::from_str("Encoding error: The document needs at least one payment record, and every record at least one bank account"),
            EncodeError::Compression => String::from_str("Encoding error: The compression stream could not be run"),
        }
    }
}

} // verus!
