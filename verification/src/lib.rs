//! Encoder for bank-transfer payment documents into the restricted-alphabet
//! text payload carried by a payment QR code.
//!
//! The pipeline validates every field of a payment document, linearizes the
//! document into positional string tokens, frames the joined tokens with a
//! CRC-32 checksum, compresses the frame with a fixed-parameter LZMA stream,
//! packs a small binary header, and re-encodes the resulting payload into a
//! fixed 32-symbol alphabet.

pub mod base32;
pub mod compress;
pub mod encoder;
pub mod errors;
pub mod frame;
pub mod models;
pub mod output;
pub mod packer;
pub mod qr;
pub mod sequence;
pub mod text;
