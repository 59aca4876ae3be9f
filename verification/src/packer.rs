//! Header packer: builds the small fixed-width binary header and length
//! field and concatenates them with the compressed bytes into the final
//! payload.

use vstd::prelude::*;

verus! {

/// The 16-bit header value packed from four 4-bit fields.
pub open spec fn header_value(square_type: u16, version: u16, document_type: u16, reserved: u16) -> u16 {
    ((square_type & 0xf) << 12) | ((version & 0xf) << 8) | ((document_type & 0xf) << 4) | (
    reserved & 0xf)
}

/// Packs the four 4-bit header fields into one 16-bit value:
/// `(type << 12) | (version << 8) | (doc_type << 4) | reserved`, each
/// field masked to its low four bits.
pub fn pack_header(square_type: u16, version: u16, document_type: u16, reserved: u16) -> (h: u16)
    ensures
        h == header_value(square_type, version, document_type, reserved),
{
    ((square_type & 0xf) << 12u16) | ((version & 0xf) << 8u16) | ((document_type & 0xf) << 4u16)
        | (reserved & 0xf)
}

/// The final binary payload: two header bytes little-endian, two length
/// bytes little-endian, then the compressed bytes. The length field
/// holds only the low 8 bits of the pre-compression frame length: the
/// high byte is deliberately discarded, even though the field is 16 bits
/// wide, because conforming scanners may depend on that exact masking.
pub open spec fn payload_bytes(header: u16, frame_len: nat, compressed: Seq<u8>) -> Seq<u8> {
    seq![
        (header & 0xff) as u8,
        ((header >> 8) & 0xff) as u8,
        (frame_len % 256) as u8,
        0u8,
    ] + compressed
}

/// Concatenates header, masked length and compressed bytes into the
/// final payload.
pub fn build_payload(header: u16, frame_len: usize, compressed: &Vec<u8>) -> (p: Vec<u8>)
    ensures
        p@ == payload_bytes(header, frame_len as nat, compressed@),
{
    proof {
        assert(header & 0xff < 256 && (header >> 8) & 0xff < 256) by (bit_vector);
    }
    let mut p: Vec<u8> = Vec::new();
    p.push((header & 0xff) as u8);
    p.push(((header >> 8) & 0xff) as u8);
    p.push((frame_len % 256) as u8);
    p.push(0);
    p.extend_from_slice(compressed.as_slice());
    proof {
        assert(p@ =~= payload_bytes(header, frame_len as nat, compressed@));
    }
    p
}

} // verus!
