//! Field validation and document sequencing: turns a payment document into
//! the ordered sequence of positional string tokens consumed by the frame
//! builder. Validation is fail-fast: the first field violating its contract
//! aborts the whole encode.

use vstd::prelude::*;
use vstd::string::StrSliceExecFns;
use vstd::string::StringExecFns;

use crate::errors::{EncodeError, FieldKind};
use crate::models::{BankAccount, Payment};
use crate::text::{
    bic_ok, digits_max, due_date_ok, has_three_upper, iban_ok, is_digit_char, is_upper_char,
    normalized_date, str_equal, text_max,
};

verus! {

/// What `regex`'s `Regex::is_match` returns for the payment-note pattern
/// `^[\p{L}\p{N}\p{P}\p{Z}\p{M}]{1,140}$` on the given characters: whether
/// the whole string is 1 to 140 characters drawn from the Unicode letter,
/// number, punctuation, separator and mark categories.
pub uninterp spec fn note_matches(s: Seq<char>) -> bool;

/// Relies on `regex::Regex::is_match` with the fixed pattern
/// `^[\p{L}\p{N}\p{P}\p{Z}\p{M}]{1,140}$`; the result is a function of the
/// characters alone. `Regex::new` cannot fail on this constant pattern.
#[verifier::external_body]
fn is_payment_note(s: &str) -> (r: bool)
    ensures
        r == note_matches(s@),
{
    regex::Regex::new(r"^[\p{L}\p{N}\p{P}\p{Z}\p{M}]{1,140}$").unwrap().is_match(s)
}

/// Whether a character is an ASCII uppercase letter.
fn is_upper(c: char) -> (r: bool)
    ensures
        r == is_upper_char(c),
{
    let u = c as u32;
    65 <= u && u <= 90
}

/// Whether a character is an ASCII decimal digit.
fn is_ascii_digit(c: char) -> (r: bool)
    ensures
        r == is_digit_char(c),
{
    let u = c as u32;
    48 <= u && u <= 57
}

/// Checks the `[0-9]{0,max}` contract over the whole string.
fn check_digits_max(s: &str, max: usize) -> (r: bool)
    ensures
        r == digits_max(s@, max as int),
{
    let n = s.unicode_len();
    if n > max {
        return false;
    }
    for i in 0..n
        invariant
            n == s@.len(),
            n <= max,
            forall|j: int| 0 <= j < i ==> is_digit_char(#[trigger] s@[j]),
    {
        if !is_ascii_digit(s.get_char(i)) {
            return false;
        }
    }
    true
}

/// Checks the `.{0,max}` contract over the whole string: at most `max`
/// characters, none of them a line break.
fn check_text_max(s: &str, max: usize) -> (r: bool)
    ensures
        r == text_max(s@, max as int),
{
    let n = s.unicode_len();
    if n > max {
        return false;
    }
    for i in 0..n
        invariant
            n == s@.len(),
            n <= max,
            forall|j: int| 0 <= j < i ==> #[trigger] s@[j] != '\n',
    {
        if s.get_char(i) == '\n' {
            return false;
        }
    }
    true
}

/// Checks the IBAN contract `[A-Z]{2}[0-9]{2}[A-Z0-9]{0,30}` over the
/// whole string.
fn check_iban(s: &str) -> (r: bool)
    ensures
        r == iban_ok(s@),
{
    let n = s.unicode_len();
    if n < 4 || n > 34 {
        return false;
    }
    if !(is_upper(s.get_char(0)) && is_upper(s.get_char(1)) && is_ascii_digit(s.get_char(2))
        && is_ascii_digit(s.get_char(3))) {
        return false;
    }
    for i in 4..n
        invariant
            n == s@.len(),
            4 <= n <= 34,
            is_upper_char(s@[0]),
            is_upper_char(s@[1]),
            is_digit_char(s@[2]),
            is_digit_char(s@[3]),
            forall|j: int|
                4 <= j < i ==> is_upper_char(#[trigger] s@[j]) || is_digit_char(s@[j]),
    {
        let c = s.get_char(i);
        if !(is_upper(c) || is_ascii_digit(c)) {
            return false;
        }
    }
    true
}

/// Checks the BIC contract `[A-Z]{4}[A-Z]{2}[A-Z0-9]{2}([A-Z0-9]{3})?`
/// over the whole string.
fn check_bic(s: &str) -> (r: bool)
    ensures
        r == bic_ok(s@),
{
    let n = s.unicode_len();
    if !(n == 8 || n == 11) {
        return false;
    }
    for i in 0..6usize
        invariant
            n == s@.len(),
            n == 8 || n == 11,
            forall|j: int| 0 <= j < i ==> is_upper_char(#[trigger] s@[j]),
    {
        if !is_upper(s.get_char(i)) {
            return false;
        }
    }
    for i in 6..n
        invariant
            n == s@.len(),
            n == 8 || n == 11,
            forall|j: int| 0 <= j < 6 ==> is_upper_char(#[trigger] s@[j]),
            forall|j: int|
                6 <= j < i ==> is_upper_char(#[trigger] s@[j]) || is_digit_char(s@[j]),
    {
        let c = s.get_char(i);
        if !(is_upper(c) || is_ascii_digit(c)) {
            return false;
        }
    }
    true
}

/// Checks the deliberately unanchored currency contract `[A-Z]{3}`:
/// whether three consecutive uppercase letters occur anywhere.
fn check_currency(s: &str) -> (r: bool)
    ensures
        r == has_three_upper(s@),
{
    let n = s.unicode_len();
    if n < 3 {
        return false;
    }
    for i in 0..n - 2
        invariant
            n == s@.len(),
            3 <= n,
            forall|j: int|
                0 <= j < i ==> !(is_upper_char(#[trigger] s@[j]) && is_upper_char(s@[j + 1])
                    && is_upper_char(s@[j + 2])),
    {
        if is_upper(s.get_char(i)) && is_upper(s.get_char(i + 1)) && is_upper(s.get_char(i + 2)) {
            return true;
        }
    }
    false
}

/// The format contract a positional field is held to.
#[derive(Debug, Clone, Copy, PartialEq, Eq, Structural)]
pub enum FieldPattern {
    /// `[0-9]{0,max}`: digits only, bounded length.
    Digits(usize),
    /// `.{0,max}`: free text without line breaks, bounded length.
    Text(usize),
    /// The Unicode payment-note classes, 1 to 140 characters.
    Note,
    /// The BIC shape.
    Bic,
}

/// What it means for a string to match a field pattern.
pub open spec fn pattern_matches(pattern: FieldPattern, s: Seq<char>) -> bool {
    match pattern {
        FieldPattern::Digits(max) => digits_max(s, max as int),
        FieldPattern::Text(max) => text_max(s, max as int),
        FieldPattern::Note => note_matches(s),
        FieldPattern::Bic => bic_ok(s),
    }
}

/// The token an optional field contributes: its value when present, the
/// empty token when absent.
pub open spec fn opt_token(value: Option<String>) -> Seq<char> {
    match value {
        Option::None => Seq::<char>::empty(),
        Option::Some(v) => v@,
    }
}

/// Validates an optional field against its pattern: an absent field
/// serializes as the empty token, a present one must match the pattern
/// or the whole encode is aborted naming the field.
pub fn as_pattern_str(value: &Option<String>, pattern: FieldPattern, field: FieldKind) -> (r:
    Result<String, EncodeError>)
    ensures
        match *value {
            Option::None => r matches Ok(t) && t@ == Seq::<char>::empty(),
            Option::Some(v) => if pattern_matches(pattern, v@) {
                r matches Ok(t) && t@ == v@
            } else {
                r == Err::<String, EncodeError>(EncodeError::FieldValidation(field))
            },
        },
{
    match value {
        Option::None => Ok(String::new()),
        Option::Some(v) => {
            let ok = match pattern {
                FieldPattern::Digits(max) => check_digits_max(v.as_str(), max),
                FieldPattern::Text(max) => check_text_max(v.as_str(), max),
                FieldPattern::Note => is_payment_note(v.as_str()),
                FieldPattern::Bic => check_bic(v.as_str()),
            };
            if ok {
                Ok(v.clone())
            } else {
                Err(EncodeError::FieldValidation(field))
            }
        },
    }
}

/// An accepted payment-options value.
pub open spec fn payment_options_ok(s: Seq<char>) -> bool {
    s == "paymentorder"@ || s == "standingorder"@ || s == "directdebit"@
}

/// The positional token of an accepted payment-options value:
/// `paymentorder` serializes as `1`, `standingorder` as `2`,
/// `directdebit` as `4`.
pub open spec fn options_token(s: Seq<char>) -> Seq<char> {
    if s == "paymentorder"@ {
        seq!['1']
    } else if s == "standingorder"@ {
        seq!['2']
    } else {
        seq!['4']
    }
}

/// The amount token: canonical minimal decimal text, or empty when absent.
pub open spec fn amount_token(amount: Option<u64>) -> Seq<char> {
    match amount {
        Option::None => Seq::<char>::empty(),
        Option::Some(cents) => crate::text::amount_chars(cents as nat),
    }
}

/// The due-date token: the normalized compact date, or empty when absent.
pub open spec fn date_token(date: Option<String>) -> Seq<char> {
    match date {
        Option::None => Seq::<char>::empty(),
        Option::Some(d) => normalized_date(d@),
    }
}

/// The two tokens a bank account contributes: its IBAN, then its BIC or
/// the empty token.
pub open spec fn account_tokens(a: BankAccount) -> Seq<Seq<char>> {
    seq![a.iban@, opt_token(a.bic)]
}

/// The inline expansion of a bank-account list: each account's two tokens
/// in order.
pub open spec fn accounts_expand(accs: Seq<BankAccount>) -> Seq<Seq<char>>
    decreases accs.len(),
{
    if accs.len() == 0 {
        Seq::<Seq<char>>::empty()
    } else {
        account_tokens(accs[0]) + accounts_expand(accs.drop_first())
    }
}

/// The first error of one bank account, in field order: IBAN then BIC.
pub open spec fn account_error(a: BankAccount) -> Option<EncodeError> {
    if !iban_ok(a.iban@) {
        Option::Some(EncodeError::FieldValidation(FieldKind::Iban))
    } else if a.bic matches Option::Some(b) && !bic_ok(b@) {
        Option::Some(EncodeError::FieldValidation(FieldKind::Bic))
    } else {
        Option::None
    }
}

/// The first error of a bank-account list, accounts in order.
pub open spec fn accounts_first_error(accs: Seq<BankAccount>) -> Option<EncodeError>
    decreases accs.len(),
{
    if accs.len() == 0 {
        Option::None
    } else if account_error(accs[0]) is Some {
        account_error(accs[0])
    } else {
        accounts_first_error(accs.drop_first())
    }
}

/// An absent optional field is accepted; a present one must match.
pub open spec fn opt_pattern_ok(value: Option<String>, pattern: FieldPattern) -> bool {
    match value {
        Option::None => true,
        Option::Some(v) => pattern_matches(pattern, v@),
    }
}

/// The first error of one payment record, fields checked in their fixed
/// serialization order; `None` when every field is accepted.
pub open spec fn payment_first_error(p: Payment) -> Option<EncodeError> {
    if !payment_options_ok(p.payment_options@) {
        Option::Some(EncodeError::FieldValidation(FieldKind::PaymentOptions))
    } else if p.amount matches Option::Some(cents) && cents == 0 {
        Option::Some(EncodeError::FieldValidation(FieldKind::Amount))
    } else if !has_three_upper(p.currency_code@) {
        Option::Some(EncodeError::FieldValidation(FieldKind::CurrencyCode))
    } else if p.payment_due_date matches Option::Some(d) && !due_date_ok(d@) {
        Option::Some(EncodeError::DateFormat)
    } else if !opt_pattern_ok(p.variable_symbol, FieldPattern::Digits(10)) {
        Option::Some(EncodeError::FieldValidation(FieldKind::VariableSymbol))
    } else if !opt_pattern_ok(p.constant_symbol, FieldPattern::Digits(4)) {
        Option::Some(EncodeError::FieldValidation(FieldKind::ConstantSymbol))
    } else if !opt_pattern_ok(p.specific_symbol, FieldPattern::Digits(10)) {
        Option::Some(EncodeError::FieldValidation(FieldKind::SpecificSymbol))
    } else if !opt_pattern_ok(p.originators_reference_information, FieldPattern::Text(35)) {
        Option::Some(EncodeError::FieldValidation(FieldKind::OriginatorsReferenceInformation))
    } else if !opt_pattern_ok(p.payment_note, FieldPattern::Note) {
        Option::Some(EncodeError::FieldValidation(FieldKind::PaymentNote))
    } else if p.bank_accounts.bank_account@.len() == 0 {
        Option::Some(EncodeError::Structure)
    } else if accounts_first_error(p.bank_accounts.bank_account@) is Some {
        accounts_first_error(p.bank_accounts.bank_account@)
    } else if !opt_pattern_ok(p.beneficiary_name, FieldPattern::Text(140)) {
        Option::Some(EncodeError::FieldValidation(FieldKind::BeneficiaryName))
    } else if !opt_pattern_ok(p.beneficiary_address_line_1, FieldPattern::Text(70)) {
        Option::Some(EncodeError::FieldValidation(FieldKind::BeneficiaryAddressLine1))
    } else if !opt_pattern_ok(p.beneficiary_address_line_2, FieldPattern::Text(70)) {
        Option::Some(EncodeError::FieldValidation(FieldKind::BeneficiaryAddressLine2))
    } else {
        Option::None
    }
}

/// The full token sequence of one accepted payment record: the fifteen
/// positions in their fixed order, position 10 expanded inline to the
/// account count followed by each account's two tokens.
pub open spec fn payment_tokens(p: Payment) -> Seq<Seq<char>> {
    seq![
        options_token(p.payment_options@),
        amount_token(p.amount),
        p.currency_code@,
        date_token(p.payment_due_date),
        opt_token(p.variable_symbol),
        opt_token(p.constant_symbol),
        opt_token(p.specific_symbol),
        opt_token(p.originators_reference_information),
        opt_token(p.payment_note),
        crate::text::dec_digits(p.bank_accounts.bank_account@.len()),
    ] + accounts_expand(p.bank_accounts.bank_account@) + seq![
        seq!['0'],
        seq!['0'],
        opt_token(p.beneficiary_name),
        opt_token(p.beneficiary_address_line_1),
        opt_token(p.beneficiary_address_line_2),
    ]
}

/// Appending an account to a list expands to appending its two tokens.
proof fn lemma_accounts_expand_push(accs: Seq<BankAccount>, x: BankAccount)
    ensures
        accounts_expand(accs.push(x)) == accounts_expand(accs) + account_tokens(x),
    decreases accs.len(),
{
    if accs.len() == 0 {
        assert(accs.push(x)[0] == x);
        assert(accs.push(x).drop_first() =~= Seq::<BankAccount>::empty());
        assert(accounts_expand(accs.push(x)) == account_tokens(x) + accounts_expand(
            accs.push(x).drop_first(),
        ));
        assert(accounts_expand(accs.push(x).drop_first()) == Seq::<Seq<char>>::empty());
        assert(accounts_expand(accs) == Seq::<Seq<char>>::empty());
        assert(accounts_expand(accs.push(x)) =~~= accounts_expand(accs) + account_tokens(x));
    } else {
        assert(accs.push(x)[0] == accs[0]);
        assert(accs.push(x).drop_first() =~= accs.drop_first().push(x));
        assert(accounts_expand(accs.push(x)) == account_tokens(accs[0]) + accounts_expand(
            accs.drop_first().push(x),
        ));
        lemma_accounts_expand_push(accs.drop_first(), x);
        assert(accounts_expand(accs) == account_tokens(accs[0]) + accounts_expand(
            accs.drop_first(),
        ));
        assert(accounts_expand(accs.push(x)) =~~= accounts_expand(accs) + account_tokens(x));
    }
}

/// An account list expands to two tokens for each of its accounts.
pub proof fn lemma_accounts_expand_len(accs: Seq<BankAccount>)
    ensures
        accounts_expand(accs).len() == 2 * accs.len(),
    decreases accs.len(),
{
    if accs.len() == 0 {
    } else {
        lemma_accounts_expand_len(accs.drop_first());
    }
}

/// Appending an account to a list keeps the earlier first error, or
/// surfaces the new account's own error.
proof fn lemma_accounts_first_error_push(accs: Seq<BankAccount>, x: BankAccount)
    ensures
        accounts_first_error(accs.push(x)) == (if accounts_first_error(accs) is Some {
            accounts_first_error(accs)
        } else {
            account_error(x)
        }),
    decreases accs.len(),
{
    if accs.len() == 0 {
        assert(accs.push(x)[0] == x);
        assert(accs.push(x).drop_first() =~= Seq::<BankAccount>::empty());
        assert(accounts_first_error(accs.push(x).drop_first()) is None);
        assert(accounts_first_error(accs) is None);
    } else {
        assert(accs.push(x)[0] == accs[0]);
        assert(accs.push(x).drop_first() =~= accs.drop_first().push(x));
        lemma_accounts_first_error_push(accs.drop_first(), x);
        if account_error(accs[0]) is Some {
            assert(accounts_first_error(accs.push(x)) == account_error(accs[0]));
            assert(accounts_first_error(accs) == account_error(accs[0]));
        } else {
            assert(accounts_first_error(accs.push(x)) == accounts_first_error(
                accs.drop_first().push(x),
            ));
            assert(accounts_first_error(accs) == accounts_first_error(accs.drop_first()));
        }
    }
}

/// The account at position `j` contributes tokens `2j` and `2j + 1` of
/// the expansion: its IBAN, then its BIC or the empty token.
proof fn lemma_accounts_expand_index(accs: Seq<BankAccount>, j: int)
    requires
        0 <= j < accs.len(),
    ensures
        accounts_expand(accs)[2 * j] == accs[j].iban@,
        accounts_expand(accs)[2 * j + 1] == opt_token(accs[j].bic),
    decreases j,
{
    assert(accounts_expand(accs) == account_tokens(accs[0]) + accounts_expand(accs.drop_first()));
    lemma_accounts_expand_len(accs.drop_first());
    if j == 0 {
    } else {
        lemma_accounts_expand_index(accs.drop_first(), j - 1);
        assert(accs.drop_first()[j - 1] == accs[j]);
    }
}

/// Token order invariant: the token sequence of any accepted payment
/// record has its fifteen positions in the fixed order, position 10
/// expanding inline to the account count followed by two tokens per
/// account, and every absent optional field appears as an empty token at
/// its position — never as a missing position.
pub proof fn lemma_token_positions(p: Payment)
    requires
        payment_first_error(p) is None,
    ensures
        ({
            let toks = payment_tokens(p);
            let accs = p.bank_accounts.bank_account@;
            &&& toks.len() == 15 + 2 * accs.len()
            &&& toks[0] == options_token(p.payment_options@)
            &&& toks[1] == amount_token(p.amount)
            &&& (p.amount is None ==> toks[1] == Seq::<char>::empty())
            &&& toks[2] == p.currency_code@
            &&& toks[3] == date_token(p.payment_due_date)
            &&& (p.payment_due_date is None ==> toks[3] == Seq::<char>::empty())
            &&& toks[4] == opt_token(p.variable_symbol)
            &&& (p.variable_symbol is None ==> toks[4] == Seq::<char>::empty())
            &&& toks[5] == opt_token(p.constant_symbol)
            &&& (p.constant_symbol is None ==> toks[5] == Seq::<char>::empty())
            &&& toks[6] == opt_token(p.specific_symbol)
            &&& (p.specific_symbol is None ==> toks[6] == Seq::<char>::empty())
            &&& toks[7] == opt_token(p.originators_reference_information)
            &&& (p.originators_reference_information is None ==> toks[7] == Seq::<char>::empty())
            &&& toks[8] == opt_token(p.payment_note)
            &&& (p.payment_note is None ==> toks[8] == Seq::<char>::empty())
            &&& toks[9] == crate::text::dec_digits(accs.len())
            &&& (forall|j: int|
                0 <= j < accs.len() ==> #[trigger] toks[10 + 2 * j] == accs[j].iban@ && toks[11 + 2
                    * j] == opt_token(accs[j].bic))
            &&& toks[10 + 2 * (accs.len() as int)] == seq!['0']
            &&& toks[11 + 2 * (accs.len() as int)] == seq!['0']
            &&& toks[12 + 2 * (accs.len() as int)] == opt_token(p.beneficiary_name)
            &&& (p.beneficiary_name is None ==> toks[12 + 2 * (accs.len() as int)] == Seq::<char>::empty())
            &&& toks[13 + 2 * (accs.len() as int)] == opt_token(p.beneficiary_address_line_1)
            &&& toks[14 + 2 * (accs.len() as int)] == opt_token(p.beneficiary_address_line_2)
        }),
{
    let toks = payment_tokens(p);
    let accs = p.bank_accounts.bank_account@;
    lemma_accounts_expand_len(accs);
    assert forall|j: int|
        0 <= j < accs.len() implies #[trigger] toks[10 + 2 * j] == accs[j].iban@ && toks[11 + 2
        * j] == opt_token(accs[j].bic) by {
        lemma_accounts_expand_index(accs, j);
    }
}

/// When no account before position `i` has an error and the account at
/// `i` has one, that error is the list's first error.
proof fn lemma_accounts_error_at(accs: Seq<BankAccount>, i: int)
    requires
        0 <= i < accs.len(),
        accounts_first_error(accs.take(i)) is None,
        account_error(accs[i]) is Some,
    ensures
        accounts_first_error(accs) == account_error(accs[i]),
    decreases i,
{
    if i == 0 {
        assert(accs[0] == accs[i]);
    } else {
        assert(accs.take(i)[0] == accs[0]);
        assert(accs.take(i).drop_first() =~= accs.drop_first().take(i - 1));
        assert(accs.drop_first()[i - 1] == accs[i]);
        lemma_accounts_error_at(accs.drop_first(), i - 1);
    }
}

/// Converts one bank account to its two positional tokens, validating
/// IBAN and BIC in order.
pub fn bank_account_to_seq(bank_account: &BankAccount) -> (r: Result<Vec<String>, EncodeError>)
    ensures
        r matches Ok(v) ==> account_error(*bank_account) is None && v.deep_view()
            == account_tokens(*bank_account),
        r matches Err(e) ==> account_error(*bank_account) == Option::Some(e),
{
    if !check_iban(bank_account.iban.as_str()) {
        return Err(EncodeError::FieldValidation(FieldKind::Iban));
    }
    let bic = match as_pattern_str(&bank_account.bic, FieldPattern::Bic, FieldKind::Bic) {
        Ok(t) => t,
        Err(e) => {
            return Err(e);
        },
    };
    let mut seq_out: Vec<String> = Vec::new();
    seq_out.push(bank_account.iban.clone());
    seq_out.push(bic);
    proof {
        assert(seq_out.deep_view() =~~= account_tokens(*bank_account));
    }
    Ok(seq_out)
}

/// Converts one payment record to its positional token sequence,
/// validating every field in its fixed order; the first violating field
/// aborts with its error.
#[verifier::loop_isolation(false)]
#[verifier::rlimit(100)]
pub fn payment_to_seq(payment: &Payment) -> (r: Result<Vec<String>, EncodeError>)
    ensures
        r matches Ok(v) ==> payment_first_error(*payment) is None && v.deep_view()
            == payment_tokens(*payment),
        r matches Err(e) ==> payment_first_error(*payment) == Option::Some(e),
{
    let mut seq_out: Vec<String> = Vec::new();

    // PaymentOptions = order 1
    if str_equal(payment.payment_options.as_str(), "paymentorder") {
        seq_out.push(String::from_str("1"));
    } else if str_equal(payment.payment_options.as_str(), "standingorder") {
        seq_out.push(String::from_str("2"));
    } else if str_equal(payment.payment_options.as_str(), "directdebit") {
        seq_out.push(String::from_str("4"));
    } else {
        return Err(EncodeError::FieldValidation(FieldKind::PaymentOptions));
    }
    proof {
        reveal_strlit("1");
        reveal_strlit("2");
        reveal_strlit("4");
        assert(seq_out.deep_view() =~~= seq![options_token(payment.payment_options@)]);
    }

    // Amount = order 2
    match &payment.amount {
        Option::None => seq_out.push(String::new()),
        Option::Some(cents) => {
            if *cents == 0 {
                return Err(EncodeError::FieldValidation(FieldKind::Amount));
            }
            seq_out.push(crate::text::as_decimal_str(*cents));
        },
    }

    // Currency = order 3
    if !check_currency(payment.currency_code.as_str()) {
        return Err(EncodeError::FieldValidation(FieldKind::CurrencyCode));
    }
    seq_out.push(payment.currency_code.clone());

    // Payment due date = order 4
    match &payment.payment_due_date {
        Option::None => seq_out.push(String::new()),
        Option::Some(due_date) => {
            match crate::text::as_valid_date(due_date) {
                Ok(t) => seq_out.push(t),
                Err(e) => {
                    return Err(e);
                },
            }
        },
    }

    // Variable symbol = order 5
    match as_pattern_str(&payment.variable_symbol, FieldPattern::Digits(10), FieldKind::VariableSymbol) {
        Ok(t) => seq_out.push(t),
        Err(e) => {
            return Err(e);
        },
    }

    // Constant symbol = order 6
    match as_pattern_str(&payment.constant_symbol, FieldPattern::Digits(4), FieldKind::ConstantSymbol) {
        Ok(t) => seq_out.push(t),
        Err(e) => {
            return Err(e);
        },
    }

    // Specific symbol = order 7
    match as_pattern_str(&payment.specific_symbol, FieldPattern::Digits(10), FieldKind::SpecificSymbol) {
        Ok(t) => seq_out.push(t),
        Err(e) => {
            return Err(e);
        },
    }

    // Originator's reference information = order 8
    match as_pattern_str(
        &payment.originators_reference_information,
        FieldPattern::Text(35),
        FieldKind::OriginatorsReferenceInformation,
    ) {
        Ok(t) => seq_out.push(t),
        Err(e) => {
            return Err(e);
        },
    }

    // Payment note = order 9
    match as_pattern_str(&payment.payment_note, FieldPattern::Note, FieldKind::PaymentNote) {
        Ok(t) => seq_out.push(t),
        Err(e) => {
            return Err(e);
        },
    }

    // Bank accounts = order 10: count, then each account's tokens inline
    let ghost accs = payment.bank_accounts.bank_account@;
    let count = payment.bank_accounts.bank_account.len();
    if count == 0 {
        return Err(EncodeError::Structure);
    }
    seq_out.push(crate::text::u64_to_dec(count as u64));
    proof {
        assert(seq_out.deep_view() =~~= seq![
            options_token(payment.payment_options@),
            amount_token(payment.amount),
            payment.currency_code@,
            date_token(payment.payment_due_date),
            opt_token(payment.variable_symbol),
            opt_token(payment.constant_symbol),
            opt_token(payment.specific_symbol),
            opt_token(payment.originators_reference_information),
            opt_token(payment.payment_note),
            crate::text::dec_digits(accs.len()),
        ]);
    }
    let ghost head = seq_out.deep_view();
    for i in 0..count
        invariant
            seq_out.deep_view() == head + accounts_expand(accs.take(i as int)),
            accounts_first_error(accs.take(i as int)) is None,
    {
        match bank_account_to_seq(&payment.bank_accounts.bank_account[i]) {
            Ok(mut v) => {
                proof {
                    lemma_accounts_expand_push(accs.take(i as int), accs[i as int]);
                    lemma_accounts_first_error_push(accs.take(i as int), accs[i as int]);
                    assert(accs.take(i as int).push(accs[i as int]) =~= accs.take(i + 1));
                    lemma_accounts_expand_len(accs.take(i as int));
                    lemma_accounts_expand_len(accs.take(i + 1));
                }
                let ghost before = seq_out.deep_view();
                let ghost added = v.deep_view();
                seq_out.append(&mut v);
                proof {
                    assert(seq_out.deep_view() =~~= before + added);
                    assert(seq_out.deep_view() =~~= head + accounts_expand(accs.take(i + 1)));
                }
            },
            Err(e) => {
                proof {
                    lemma_accounts_error_at(accs, i as int);
                }
                return Err(e);
            },
        }
    }
    proof {
        assert(accs.take(count as int) =~= accs);
        lemma_accounts_expand_len(accs);
    }

    // Standing-order extension = order 11: unimplemented, fixed token
    seq_out.push(String::from_str("0"));

    // Direct-debit extension = order 12: unimplemented, fixed token
    seq_out.push(String::from_str("0"));

    // Beneficiary name = order 13
    match as_pattern_str(&payment.beneficiary_name, FieldPattern::Text(140), FieldKind::BeneficiaryName) {
        Ok(t) => seq_out.push(t),
        Err(e) => {
            return Err(e);
        },
    }

    // Beneficiary address line 1 = order 14
    match as_pattern_str(
        &payment.beneficiary_address_line_1,
        FieldPattern::Text(70),
        FieldKind::BeneficiaryAddressLine1,
    ) {
        Ok(t) => seq_out.push(t),
        Err(e) => {
            return Err(e);
        },
    }

    // Beneficiary address line 2 = order 15
    match as_pattern_str(
        &payment.beneficiary_address_line_2,
        FieldPattern::Text(70),
        FieldKind::BeneficiaryAddressLine2,
    ) {
        Ok(t) => seq_out.push(t),
        Err(e) => {
            return Err(e);
        },
    }

    proof {
        reveal_strlit("0");
        assert(seq_out.deep_view() =~~= payment_tokens(*payment));
    }
    Ok(seq_out)
}

} // verus!
