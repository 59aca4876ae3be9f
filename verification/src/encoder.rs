//! The complete encoding pipeline: sequences and validates the document,
//! frames the tokens with their checksum, compresses the frame, packs the
//! binary header, and re-encodes the payload into the 32-symbol alphabet.

use vstd::prelude::*;

use crate::base32::{base32_chars, to_base32};
use crate::compress::{compress_frame, compressed_body};
use crate::errors::EncodeError;
use crate::frame::{build_frame, frame_bytes};
use crate::models::{Pay, Payment};
use crate::packer::{build_payload, header_value, pack_header, payload_bytes};
use crate::sequence::{payment_first_error, payment_to_seq, payment_tokens};
use crate::text::dec_digits;

verus! {

/// The token sequences of all payment records, concatenated in document
/// order.
pub open spec fn payments_expand(ps: Seq<Payment>) -> Seq<Seq<char>>
    decreases ps.len(),
{
    if ps.len() == 0 {
        Seq::<Seq<char>>::empty()
    } else {
        payment_tokens(ps[0]) + payments_expand(ps.drop_first())
    }
}

/// The first error among the payment records, records checked in order.
pub open spec fn payments_first_error(ps: Seq<Payment>) -> Option<EncodeError>
    decreases ps.len(),
{
    if ps.len() == 0 {
        Option::None
    } else if payment_first_error(ps[0]) is Some {
        payment_first_error(ps[0])
    } else {
        payments_first_error(ps.drop_first())
    }
}

/// The document's whole token sequence: the record count first, then
/// every record's tokens in order.
pub open spec fn doc_tokens(pay: Pay) -> Seq<Seq<char>> {
    seq![dec_digits(pay.payments.payment@.len())] + payments_expand(pay.payments.payment@)
}

/// The first error of the whole document: a document without records is
/// a structural error; otherwise the first failing record decides.
pub open spec fn doc_first_error(pay: Pay) -> Option<EncodeError> {
    if pay.payments.payment@.len() == 0 {
        Option::Some(EncodeError::Structure)
    } else {
        payments_first_error(pay.payments.payment@)
    }
}

/// The final binary payload of an accepted document: the all-zero header,
/// the masked frame length, and the compressed frame.
pub open spec fn payload_of(pay: Pay) -> Seq<u8> {
    payload_bytes(
        header_value(0, 0, 0, 0),
        frame_bytes(doc_tokens(pay)).len(),
        compressed_body(frame_bytes(doc_tokens(pay))),
    )
}

/// The output string of an accepted document.
pub open spec fn encode_output(pay: Pay) -> Seq<char> {
    base32_chars(payload_of(pay))
}

/// Appending a record to a list expands to appending its tokens.
proof fn lemma_payments_expand_push(ps: Seq<Payment>, x: Payment)
    ensures
        payments_expand(ps.push(x)) == payments_expand(ps) + payment_tokens(x),
    decreases ps.len(),
{
    if ps.len() == 0 {
        assert(ps.push(x)[0] == x);
        assert(ps.push(x).drop_first() =~= Seq::<Payment>::empty());
        assert(payments_expand(ps.push(x)) == payment_tokens(x) + payments_expand(
            ps.push(x).drop_first(),
        ));
        assert(payments_expand(ps.push(x).drop_first()) == Seq::<Seq<char>>::empty());
        assert(payments_expand(ps) == Seq::<Seq<char>>::empty());
        assert(payments_expand(ps.push(x)) =~~= payments_expand(ps) + payment_tokens(x));
    } else {
        assert(ps.push(x)[0] == ps[0]);
        assert(ps.push(x).drop_first() =~= ps.drop_first().push(x));
        assert(payments_expand(ps.push(x)) == payment_tokens(ps[0]) + payments_expand(
            ps.drop_first().push(x),
        ));
        lemma_payments_expand_push(ps.drop_first(), x);
        assert(payments_expand(ps) == payment_tokens(ps[0]) + payments_expand(ps.drop_first()));
        assert(payments_expand(ps.push(x)) =~~= payments_expand(ps) + payment_tokens(x));
    }
}

/// Appending a record to a list keeps the earlier first error, or
/// surfaces the new record's own error.
proof fn lemma_payments_first_error_push(ps: Seq<Payment>, x: Payment)
    ensures
        payments_first_error(ps.push(x)) == (if payments_first_error(ps) is Some {
            payments_first_error(ps)
        } else {
            payment_first_error(x)
        }),
    decreases ps.len(),
{
    if ps.len() == 0 {
        assert(ps.push(x)[0] == x);
        assert(ps.push(x).drop_first() =~= Seq::<Payment>::empty());
        assert(payments_first_error(ps.push(x).drop_first()) is None);
        assert(payments_first_error(ps) is None);
    } else {
        assert(ps.push(x)[0] == ps[0]);
        assert(ps.push(x).drop_first() =~= ps.drop_first().push(x));
        lemma_payments_first_error_push(ps.drop_first(), x);
        if payment_first_error(ps[0]) is Some {
            assert(payments_first_error(ps.push(x)) == payment_first_error(ps[0]));
            assert(payments_first_error(ps) == payment_first_error(ps[0]));
        } else {
            assert(payments_first_error(ps.push(x)) == payments_first_error(
                ps.drop_first().push(x),
            ));
            assert(payments_first_error(ps) == payments_first_error(ps.drop_first()));
        }
    }
}

/// When no record before position `i` has an error and the record at `i`
/// has one, that error is the document's first error.
proof fn lemma_payments_error_at(ps: Seq<Payment>, i: int)
    requires
        0 <= i < ps.len(),
        payments_first_error(ps.take(i)) is None,
        payment_first_error(ps[i]) is Some,
    ensures
        payments_first_error(ps) == payment_first_error(ps[i]),
    decreases i,
{
    if i == 0 {
        assert(ps[0] == ps[i]);
    } else {
        assert(ps.take(i)[0] == ps[0]);
        assert(ps.take(i).drop_first() =~= ps.drop_first().take(i - 1));
        assert(ps.drop_first()[i - 1] == ps[i]);
        lemma_payments_error_at(ps.drop_first(), i - 1);
    }
}

/// Encodes a payment document into the restricted-alphabet output
/// string. Every field is validated in its fixed order; the first
/// violating field aborts the whole encode with its error and no partial
/// output. On an accepted document the result is a pure function of the
/// document, so repeated encodes are identical; it can fail then only
/// with a compression error.
#[verifier::loop_isolation(false)]
pub fn encode(pay: &Pay) -> (r: Result<String, EncodeError>)
    ensures
        r matches Ok(s) ==> doc_first_error(*pay) is None && s@ == encode_output(*pay),
        r matches Err(e) ==> (doc_first_error(*pay) == Option::Some(e) || (doc_first_error(*pay)
            is None && e == EncodeError::Compression)),
        doc_first_error(*pay) matches Some(e) ==> r == Err::<String, EncodeError>(e),
{
    let ghost ps = pay.payments.payment@;
    let count = pay.payments.payment.len();
    if count == 0 {
        return Err(EncodeError::Structure);
    }
    let mut tokens: Vec<String> = Vec::new();
    tokens.push(crate::text::u64_to_dec(count as u64));
    proof {
        assert(tokens.deep_view() =~~= seq![dec_digits(ps.len())]);
    }
    let ghost head = tokens.deep_view();
    for i in 0..count
        invariant
            tokens.deep_view() == head + payments_expand(ps.take(i as int)),
            payments_first_error(ps.take(i as int)) is None,
    {
        match payment_to_seq(&pay.payments.payment[i]) {
            Ok(mut v) => {
                proof {
                    lemma_payments_expand_push(ps.take(i as int), ps[i as int]);
                    lemma_payments_first_error_push(ps.take(i as int), ps[i as int]);
                    assert(ps.take(i as int).push(ps[i as int]) =~= ps.take(i + 1));
                }
                let ghost before = tokens.deep_view();
                let ghost added = v.deep_view();
                tokens.append(&mut v);
                proof {
                    assert(tokens.deep_view() =~~= before + added);
                    assert(tokens.deep_view() =~~= head + payments_expand(ps.take(i + 1)));
                }
            },
            Err(e) => {
                proof {
                    lemma_payments_error_at(ps, i as int);
                }
                return Err(e);
            },
        }
    }
    proof {
        assert(ps.take(count as int) =~= ps);
        assert(tokens.deep_view() =~~= doc_tokens(*pay));
    }
    let frame = build_frame(&tokens);
    let frame_len = frame.len();
    let compressed = match compress_frame(&frame) {
        Ok(c) => c,
        Err(e) => {
            return Err(e);
        },
    };
    let header = pack_header(0, 0, 0, 0);
    let payload = build_payload(header, frame_len, &compressed);
    let out = to_base32(&payload);
    proof {
        assert(out@ == encode_output(*pay));
    }
    Ok(out)
}

/// Determinism: the output is a pure function of the document, so any
/// two successful encodings of the same document are identical,
/// character for character.
pub proof fn lemma_encode_deterministic(pay: Pay, s1: Seq<char>, s2: Seq<char>)
    requires
        s1 == encode_output(pay),
        s2 == encode_output(pay),
    ensures
        s1 == s2,
{
}

} // verus!
