//! Re-decoding of inbound payload text.
//!
//! The transport reads received bytes as Latin-1 when it builds its text
//! payloads, so any non-ASCII text arrives garbled. Re-encoding such a
//! text as Latin-1 recovers the original bytes exactly (Latin-1 maps the
//! first 256 code points one-to-one onto bytes), and decoding those bytes
//! as UTF-8 restores the intended text.

use vstd::prelude::*;

verus! {

/// A received payload: the transport hands over either a text frame or a
/// binary frame.
#[derive(Clone, PartialEq, Eq, Debug)]
pub enum PayloadData {
    Text(String),
    Binary(Vec<u8>),
}

/// The Latin-1 encoding of a text, unencodable characters dropped: each
/// character up to U+00FF becomes the byte of its code point, anything
/// beyond is skipped.
pub open spec fn latin1_of(s: Seq<char>) -> Seq<u8> {
    s.filter(|c: char| c as int <= 255).map_values(|c: char| c as u8)
}

/// What UTF-8 decoding with invalid sequences dropped yields on a byte
/// string; a function of the bytes alone.
pub uninterp spec fn utf8_of(b: Seq<u8>) -> Seq<char>;

/// Relies on the encoding crate's `ISO_8859_1.encode` with the ignoring
/// trap: characters up to U+007F are written as their byte, characters up
/// to U+00FF map through the codec's backward index to the byte of their
/// code point, anything beyond is skipped, and with that trap the call
/// never fails.
#[verifier::external_body]
fn latin1_encode(s: &str) -> (r: Vec<u8>)
    ensures
        r@ == latin1_of(s@),
{
    match encoding::Encoding::encode(
        encoding::all::ISO_8859_1,
        s,
        encoding::EncoderTrap::Ignore,
    ) {
        Ok(v) => v,
        Err(_) => Vec::new(),
    }
}

/// Relies on the encoding crate's `UTF_8.decode` with the ignoring trap:
/// the result is computed from the bytes alone, nothing is produced from
/// no input, and with that trap the call never fails.
#[verifier::external_body]
fn utf8_decode(b: &Vec<u8>) -> (r: String)
    ensures
        r@ == utf8_of(b@),
        b@.len() == 0 ==> r@.len() == 0,
{
    match encoding::Encoding::decode(
        encoding::all::UTF_8,
        b.as_slice(),
        encoding::DecoderTrap::Ignore,
    ) {
        Ok(s) => s,
        Err(_) => String::new(),
    }
}

/// The bytes a payload originally carried: a text frame is re-encoded as
/// Latin-1 (undoing the transport's Latin-1 reading), a binary frame
/// passes through unchanged.
pub fn payload_str_to_bytes(payload: &PayloadData) -> (r: Vec<u8>)
    ensures
        r@ == match payload {
            PayloadData::Text(s) => latin1_of(s@),
            PayloadData::Binary(b) => b@,
        },
{
    match payload {
        PayloadData::Text(s) => latin1_encode(s.as_str()),
        PayloadData::Binary(bytes) => {
            let mut out: Vec<u8> = Vec::new();
            let mut i: usize = 0;
            while i < bytes.len()
                invariant
                    i <= bytes@.len(),
                    out@ == bytes@.subrange(0, i as int),
                decreases bytes@.len() - i,
            {
                out.push(bytes[i]);
                proof {
                    assert(out@ =~= bytes@.subrange(0, i + 1));
                }
                i += 1;
            }
            proof {
                assert(out@ =~= bytes@);
            }
            out
        },
    }
}

/// The text a payload originally carried, re-interpreted as UTF-8.
pub fn payload_str_to_utf8(payload: &PayloadData) -> (r: String)
    ensures
        r@ == utf8_of(
            match payload {
                PayloadData::Text(s) => latin1_of(s@),
                PayloadData::Binary(b) => b@,
            },
        ),
{
    let bytes = payload_str_to_bytes(payload);
    utf8_decode(&bytes)
}

/// Reads a value as the bytes it originally carried, and as those bytes
/// re-interpreted as UTF-8.
pub trait ToUtf8String {
    /// The bytes this value stands for.
    spec fn spec_bytes(&self) -> Seq<u8>;

    fn to_utf8_bytes(&self) -> (r: Vec<u8>)
        ensures
            r@ == self.spec_bytes(),
    ;

    fn to_utf8(&self) -> (r: String)
        ensures
            r@ == utf8_of(self.spec_bytes()),
    ;
}

impl ToUtf8String for PayloadData {
    open spec fn spec_bytes(&self) -> Seq<u8> {
        match self {
            PayloadData::Text(s) => latin1_of(s@),
            PayloadData::Binary(b) => b@,
        }
    }

    fn to_utf8_bytes(&self) -> (r: Vec<u8>) {
        payload_str_to_bytes(self)
    }

    fn to_utf8(&self) -> (r: String) {
        payload_str_to_utf8(self)
    }
}

} // verus!
