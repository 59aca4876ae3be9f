//! Frame builder: joins the tokens with the tab separator (one leading
//! separator before every token, so the text begins with the separator),
//! computes a CRC-32 checksum over the UTF-8 bytes of that text, and
//! prepends the four checksum bytes in little-endian order.

use vstd::prelude::*;
use vstd::string::StrSliceExecFns;
use vstd::string::StringExecFns;
use vstd::utf8::encode_utf8;

verus! {

/// The joined token text: a separator before every token. The very first
/// character is the separator — a fixed framing marker, not a token.
pub open spec fn joined_chars(tokens: Seq<Seq<char>>) -> Seq<char>
    decreases tokens.len(),
{
    if tokens.len() == 0 {
        Seq::<char>::empty()
    } else {
        seq!['\t'] + tokens[0] + joined_chars(tokens.drop_first())
    }
}

/// The UTF-8 bytes of the joined token text.
pub open spec fn frame_text_bytes(tokens: Seq<Seq<char>>) -> Seq<u8> {
    encode_utf8(joined_chars(tokens))
}

/// What `crc32fast::hash` returns: the standard CRC-32 (IEEE polynomial,
/// reflected) of the bytes, a function of the bytes alone.
pub uninterp spec fn crc32_of(data: Seq<u8>) -> u32;

/// Relies on `crc32fast::hash`, the standard IEEE CRC-32 checksum.
#[verifier::external_body]
fn crc32(data: &[u8]) -> (r: u32)
    ensures
        r == crc32_of(data@),
{
    crc32fast::hash(data)
}

/// A 32-bit value as four bytes, least significant first.
pub open spec fn u32_le_bytes(x: u32) -> Seq<u8> {
    seq![
        (x & 0xff) as u8,
        ((x >> 8) & 0xff) as u8,
        ((x >> 16) & 0xff) as u8,
        ((x >> 24) & 0xff) as u8,
    ]
}

/// The pre-compression frame: the four checksum bytes little-endian,
/// followed immediately by the joined text's bytes. Nothing else is
/// added at this stage.
pub open spec fn frame_bytes(tokens: Seq<Seq<char>>) -> Seq<u8> {
    u32_le_bytes(crc32_of(frame_text_bytes(tokens))) + frame_text_bytes(tokens)
}

/// Appending a token appends one separator and the token to the text.
proof fn lemma_joined_chars_push(tokens: Seq<Seq<char>>, x: Seq<char>)
    ensures
        joined_chars(tokens.push(x)) == joined_chars(tokens) + seq!['\t'] + x,
    decreases tokens.len(),
{
    if tokens.len() == 0 {
        assert(tokens.push(x)[0] == x);
        assert(tokens.push(x).drop_first() =~= Seq::<Seq<char>>::empty());
        assert(joined_chars(tokens.push(x).drop_first()) == Seq::<char>::empty());
        assert(joined_chars(tokens) == Seq::<char>::empty());
        assert(joined_chars(tokens.push(x)) =~= joined_chars(tokens) + seq!['\t'] + x);
    } else {
        assert(tokens.push(x)[0] == tokens[0]);
        assert(tokens.push(x).drop_first() =~= tokens.drop_first().push(x));
        assert(joined_chars(tokens.push(x)) == seq!['\t'] + tokens[0] + joined_chars(
            tokens.drop_first().push(x),
        ));
        lemma_joined_chars_push(tokens.drop_first(), x);
        assert(joined_chars(tokens) == seq!['\t'] + tokens[0] + joined_chars(
            tokens.drop_first(),
        ));
        assert(joined_chars(tokens.push(x)) =~= joined_chars(tokens) + seq!['\t'] + x);
    }
}

/// Builds the pre-compression frame from the token sequence: the CRC-32
/// of the joined-and-prefixed text's UTF-8 bytes, as four little-endian
/// bytes, then those text bytes.
pub fn build_frame(tokens: &Vec<String>) -> (frame: Vec<u8>)
    ensures
        frame@ == frame_bytes(tokens.deep_view()),
{
    let ghost toks = tokens.deep_view();
    let mut joined = String::new();
    for i in 0..tokens.len()
        invariant
            toks == tokens.deep_view(),
            toks.len() == tokens@.len(),
            joined@ == joined_chars(toks.take(i as int)),
    {
        joined.append("\t");
        joined.append(tokens[i].as_str());
        proof {
            reveal_strlit("\t");
            lemma_joined_chars_push(toks.take(i as int), toks[i as int]);
            assert(toks.take(i as int).push(toks[i as int]) =~= toks.take(i + 1));
            assert(joined@ =~= joined_chars(toks.take(i + 1)));
        }
    }
    proof {
        assert(toks.take(tokens@.len() as int) =~= toks);
    }
    let text = joined.as_str().as_bytes_vec();
    let crc = crc32(text.as_slice());
    proof {
        assert(crc & 0xff < 256 && (crc >> 8) & 0xff < 256 && (crc >> 16) & 0xff < 256 && (crc
            >> 24) & 0xff < 256) by (bit_vector);
    }
    let mut frame: Vec<u8> = Vec::new();
    frame.push((crc & 0xff) as u8);
    frame.push(((crc >> 8) & 0xff) as u8);
    frame.push(((crc >> 16) & 0xff) as u8);
    frame.push(((crc >> 24) & 0xff) as u8);
    let mut body = text;
    frame.append(&mut body);
    proof {
        assert(frame@ =~= frame_bytes(toks));
    }
    frame
}

} // verus!
