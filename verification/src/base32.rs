//! Alphabet re-encoder: renders the final payload as a flat bit sequence
//! (most significant bit first within each byte), zero-pads it to a
//! multiple of five bits, splits it into five-bit groups, and maps each
//! group's value through the fixed 32-symbol alphabet.

use vstd::prelude::*;
use vstd::string::StringExecFns;

verus! {

/// The fixed, ordered 32-symbol output alphabet: the digits, then the
/// letters `A` through `V`.
pub open spec fn alphabet() -> Seq<char> {
    seq![
        '0', '1', '2', '3', '4', '5', '6', '7', '8', '9', 'A', 'B', 'C', 'D', 'E', 'F', 'G', 'H',
        'I', 'J', 'K', 'L', 'M', 'N', 'O', 'P', 'Q', 'R', 'S', 'T', 'U', 'V',
    ]
}

/// Bit `k` of a byte, bit 0 being the most significant.
pub open spec fn bit_of(b: u8, k: int) -> u8 {
    (b >> ((7 - k) as u8)) & 1
}

/// The payload as a flat bit sequence: bytes in payload order, each
/// byte's bits most significant first.
pub open spec fn payload_bits(bytes: Seq<u8>) -> Seq<u8> {
    Seq::new(bytes.len() * 8, |i: int| bit_of(bytes[i / 8], i % 8))
}

/// How many zero bits padding appends to reach a multiple of five.
pub open spec fn pad_len(n: int) -> int {
    if n % 5 == 0 {
        0
    } else {
        5 - n % 5
    }
}

/// The padded bit sequence: the payload bits, then zero bits up to a
/// multiple of five.
pub open spec fn padded_bits(bytes: Seq<u8>) -> Seq<u8> {
    payload_bits(bytes) + Seq::new(pad_len((bytes.len() * 8) as int) as nat, |i: int| 0u8)
}

/// The value of the five-bit group starting at `5 * g`.
pub open spec fn group_value(bits: Seq<u8>, g: int) -> int {
    16 * bits[5 * g] + 8 * bits[5 * g + 1] + 4 * bits[5 * g + 2] + 2 * bits[5 * g + 3] + bits[5 * g
        + 4]
}

/// How many five-bit groups the padded payload has: the bit count
/// rounded up to the next multiple of five, divided by five.
pub open spec fn group_count(bytes: Seq<u8>) -> int {
    ((bytes.len() * 8 + 4) as int) / 5
}

/// The whole re-encoding: one alphabet symbol per five-bit group of the
/// padded payload.
pub open spec fn base32_chars(bytes: Seq<u8>) -> Seq<char> {
    Seq::new(group_count(bytes) as nat, |g: int| alphabet()[group_value(padded_bits(bytes), g)])
}

/// Every element of the padded bit sequence is a bit.
proof fn lemma_bits_are_bits(bytes: Seq<u8>)
    ensures
        forall|i: int| 0 <= i < padded_bits(bytes).len() ==> #[trigger] padded_bits(bytes)[i] <= 1,
{
    assert forall|i: int|
        0 <= i < padded_bits(bytes).len() implies #[trigger] padded_bits(bytes)[i] <= 1 by {
        if i < payload_bits(bytes).len() {
            let b = bytes[i / 8];
            let s = (7 - (i % 8)) as u8;
            assert((b >> s) & 1 <= 1) by (bit_vector);
        }
    }
}

/// The padded bit count is a multiple of five, and the group count is
/// the bit count rounded up.
proof fn lemma_padded_len(n: int)
    requires
        n >= 0,
    ensures
        (n * 8 + pad_len(n * 8)) % 5 == 0,
        (n * 8 + pad_len(n * 8)) / 5 == (n * 8 + 4) / 5,
{
}

/// Every five-bit group value lies below 32.
proof fn lemma_group_value_bound(bytes: Seq<u8>, g: int)
    requires
        0 <= g,
        5 * g + 5 <= padded_bits(bytes).len(),
    ensures
        0 <= group_value(padded_bits(bytes), g) < 32,
{
    lemma_bits_are_bits(bytes);
}

/// The one-character string slice for an alphabet symbol value.
fn symbol_str(v: u8) -> (s: &'static str)
    requires
        v < 32,
    ensures
        s@ == seq![alphabet()[v as int]],
{
    let s = match v {
        0 => "0",
        1 => "1",
        2 => "2",
        3 => "3",
        4 => "4",
        5 => "5",
        6 => "6",
        7 => "7",
        8 => "8",
        9 => "9",
        10 => "A",
        11 => "B",
        12 => "C",
        13 => "D",
        14 => "E",
        15 => "F",
        16 => "G",
        17 => "H",
        18 => "I",
        19 => "J",
        20 => "K",
        21 => "L",
        22 => "M",
        23 => "N",
        24 => "O",
        25 => "P",
        26 => "Q",
        27 => "R",
        28 => "S",
        29 => "T",
        30 => "U",
        _ => "V",
    };
    proof {
        reveal_strlit("0");
        reveal_strlit("1");
        reveal_strlit("2");
        reveal_strlit("3");
        reveal_strlit("4");
        reveal_strlit("5");
        reveal_strlit("6");
        reveal_strlit("7");
        reveal_strlit("8");
        reveal_strlit("9");
        reveal_strlit("A");
        reveal_strlit("B");
        reveal_strlit("C");
        reveal_strlit("D");
        reveal_strlit("E");
        reveal_strlit("F");
        reveal_strlit("G");
        reveal_strlit("H");
        reveal_strlit("I");
        reveal_strlit("J");
        reveal_strlit("K");
        reveal_strlit("L");
        reveal_strlit("M");
        reveal_strlit("N");
        reveal_strlit("O");
        reveal_strlit("P");
        reveal_strlit("Q");
        reveal_strlit("R");
        reveal_strlit("S");
        reveal_strlit("T");
        reveal_strlit("U");
        reveal_strlit("V");
        assert(s@ =~= seq![alphabet()[v as int]]);
    }
    s
}

/// Maps a sequence of five-bit symbol values through the 32-symbol
/// alphabet.
pub fn base32_encode(bytes: &[u8]) -> (s: String)
    requires
        forall|i: int| 0 <= i < bytes@.len() ==> #[trigger] bytes@[i] < 32,
    ensures
        s@ == Seq::new(bytes@.len(), |i: int| alphabet()[bytes@[i] as int]),
{
    let mut s = String::new();
    let n = bytes.len();
    for i in 0..n
        invariant
            n == bytes@.len(),
            forall|j: int| 0 <= j < n ==> #[trigger] bytes@[j] < 32,
            s@ == Seq::new(i as nat, |j: int| alphabet()[bytes@[j] as int]),
    {
        s.append(symbol_str(bytes[i]));
        proof {
            assert(s@ =~= Seq::new((i + 1) as nat, |j: int| alphabet()[bytes@[j] as int]));
        }
    }
    s
}

/// Re-encodes the final binary payload as the output string: bits most
/// significant first, zero-padded to a multiple of five, grouped in
/// fives, each group mapped through the 32-symbol alphabet.
pub fn to_base32(payload: &Vec<u8>) -> (s: String)
    ensures
        s@ == base32_chars(payload@),
{
    let n = payload.len();
    let mut bits: Vec<u8> = Vec::new();
    for i in 0..n
        invariant
            n == payload@.len(),
            bits@.len() == 8 * i,
            bits@ == payload_bits(payload@.take(i as int)),
    {
        let b = payload[i];
        for k in 0..8usize
            invariant
                n == payload@.len(),
                i < n,
                b == payload@[i as int],
                bits@.len() == 8 * i + k,
                bits@ == payload_bits(payload@.take(i as int)) + Seq::new(
                    k as nat,
                    |t: int| bit_of(b, t),
                ),
        {
            let shift = (7 - k) as u32;
            let v = ((b as u32) >> shift) & 1;
            proof {
                let s8 = (7 - (k as int)) as u8;
                assert((((b as u32) >> ((7 - (k as int)) as u32)) & 1) as u8 == (b >> s8) & 1
                    && ((b as u32) >> ((7 - (k as int)) as u32)) & 1 < 256) by (bit_vector)
                    requires
                        k < 8,
                        s8 == (7 - (k as int)) as u8,
                ;
            }
            bits.push(v as u8);
            proof {
                assert(bits@ =~= payload_bits(payload@.take(i as int)) + Seq::new(
                    (k + 1) as nat,
                    |t: int| bit_of(b, t),
                ));
            }
        }
        proof {
            assert(bits@ =~= payload_bits(payload@.take(i + 1)));
        }
    }
    proof {
        assert(payload@.take(n as int) =~= payload@);
        assert(bits@ =~= payload_bits(payload@));
    }
    let rem = bits.len() % 5;
    if rem != 0 {
        let pad = 5 - rem;
        for j in 0..pad
            invariant
                pad == pad_len(8 * (n as int)),
                bits@ == payload_bits(payload@) + Seq::new(j as nat, |t: int| 0u8),
        {
            bits.push(0);
            proof {
                assert(bits@ =~= payload_bits(payload@) + Seq::new((j + 1) as nat, |t: int| 0u8));
            }
        }
    }
    proof {
        assert(bits@ =~= padded_bits(payload@));
        lemma_padded_len(n as int);
        lemma_bits_are_bits(payload@);
    }
    let m = bits.len() / 5;
    let mut vals: Vec<u8> = Vec::new();
    for g in 0..m
        invariant
            bits@ == padded_bits(payload@),
            bits@.len() == 5 * m,
            forall|i: int| 0 <= i < bits@.len() ==> #[trigger] bits@[i] <= 1,
            vals@ == Seq::new(g as nat, |t: int| group_value(bits@, t) as u8),
    {
        proof {
            assert(5 * (g as int) + 4 < bits@.len());
            assert(bits@[5 * (g as int)] <= 1 && bits@[5 * (g as int) + 1] <= 1 && bits@[5 * (
            g as int) + 2] <= 1 && bits@[5 * (g as int) + 3] <= 1 && bits@[5 * (g as int) + 4]
                <= 1);
        }
        let b0 = bits[5 * g];
        let b1 = bits[5 * g + 1];
        let b2 = bits[5 * g + 2];
        let b3 = bits[5 * g + 3];
        let b4 = bits[5 * g + 4];
        let v = 16 * b0 + 8 * b1 + 4 * b2 + 2 * b3 + b4;
        vals.push(v);
        proof {
            assert(vals@ =~= Seq::new((g + 1) as nat, |t: int| group_value(bits@, t) as u8));
        }
    }
    proof {
        assert forall|i: int| 0 <= i < vals@.len() implies #[trigger] vals@[i] < 32 by {
            lemma_group_value_bound(payload@, i);
        }
    }
    let s = base32_encode(vals.as_slice());
    proof {
        lemma_padded_len(n as int);
        assert(s@ =~= base32_chars(payload@));
    }
    s
}

/// The output has one character for each five-bit group: its length in
/// characters equals the payload's bit length divided by five, rounded
/// up.
pub proof fn lemma_output_length(payload: Seq<u8>)
    ensures
        base32_chars(payload).len() == (payload.len() * 8 + 4) / 5,
{
}

/// Every character of the output is drawn from the 32-symbol table.
pub proof fn lemma_output_alphabet(payload: Seq<u8>)
    ensures
        forall|i: int|
            0 <= i < base32_chars(payload).len() ==> alphabet().contains(
                #[trigger] base32_chars(payload)[i],
            ),
{
    assert forall|i: int|
        0 <= i < base32_chars(payload).len() implies alphabet().contains(
        #[trigger] base32_chars(payload)[i],
    ) by {
        lemma_padded_len(payload.len() as int);
        lemma_group_value_bound(payload, i);
        let v = group_value(padded_bits(payload), i);
        assert(base32_chars(payload)[i] == alphabet()[v]);
        assert(alphabet()[v] == alphabet()[v]);
    }
}

/// The bits appended during padding are always zero: the padded sequence
/// extends the payload bits only by zero bits, up to a multiple of five.
pub proof fn lemma_padding_zero(payload: Seq<u8>)
    ensures
        padded_bits(payload).len() % 5 == 0,
        padded_bits(payload).take((payload.len() * 8) as int) == payload_bits(payload),
        forall|i: int|
            (payload.len() * 8) as int <= i < padded_bits(payload).len() ==> #[trigger] padded_bits(
                payload,
            )[i] == 0,
{
    lemma_padded_len(payload.len() as int);
    assert(padded_bits(payload).take((payload.len() * 8) as int) =~= payload_bits(payload));
}

} // verus!
