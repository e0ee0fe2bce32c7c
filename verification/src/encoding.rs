//! Character encoding of the wire: commands are transcoded to the vendor's
//! encoding before writing, and incoming bytes are decoded as UTF-8 with
//! replacement characters for invalid sequences.

use vstd::prelude::*;
use vstd::string::StringSliceAdditionalSpecFns;

verus! {

/// The longest command line the session layer accepts, in characters; it
/// keeps encoded lengths far below any machine limit.
pub const MAX_COMMAND_LEN: usize = 0x3fff_fffe;

/// The character encodings the supported vendors use on the wire.
#[derive(Clone, Copy, PartialEq, Eq, Structural, Debug)]
pub enum TextEncoding {
    Utf8,
    Gbk,
}

/// What `encoding_rs::GBK.encode` returns on `text`: the GBK bytes, or
/// `None` where some character has no GBK representation.
pub uninterp spec fn gbk_encoded(text: Seq<char>) -> Option<Seq<u8>>;

/// What `String::from_utf8_lossy` returns on `bytes`.
pub uninterp spec fn lossy_utf8(bytes: Seq<u8>) -> Seq<char>;

/// The on-wire bytes of `text` in `enc`, or `None` where a character cannot
/// be represented.
pub open spec fn spec_encoded(enc: TextEncoding, text: Seq<char>) -> Option<Seq<u8>> {
    match enc {
        TextEncoding::Utf8 => Some(vstd::utf8::encode_utf8(text)),
        TextEncoding::Gbk => gbk_encoded(text),
    }
}

/// Relies on `encoding_rs::GBK.encode`: the bytes depend on the text alone,
/// and `had_errors` reports characters with no GBK representation. The
/// length bound keeps the buffer-size calculation, documented to panic on
/// `usize` overflow, far from overflowing.
#[verifier::external_body]
fn encode_gbk(text: &str) -> (r: Option<Vec<u8>>)
    requires
        text@.len() <= 0x3fff_ffff,
    ensures
        r matches Some(v) ==> gbk_encoded(text@) == Some(v@),
        r is None <==> gbk_encoded(text@) is None,
{
    let (bytes, _, had_errors) = encoding_rs::GBK.encode(text);
    if had_errors {
        None
    } else {
        Some(bytes.into_owned())
    }
}

/// Relies on `String::from_utf8_lossy`: the text depends on the bytes alone
/// (invalid sequences become replacement characters).
#[verifier::external_body]
pub(crate) fn decode_lossy(bytes: &[u8]) -> (r: String)
    ensures
        r@ == lossy_utf8(bytes@),
{
    String::from_utf8_lossy(bytes).into_owned()
}

/// Encodes `text` for the wire in `enc`.
pub(crate) fn encode_text(enc: TextEncoding, text: &str) -> (r: Option<Vec<u8>>)
    requires
        text@.len() <= 0x3fff_ffff,
    ensures
        r matches Some(v) ==> spec_encoded(enc, text@) == Some(v@),
        r is None <==> spec_encoded(enc, text@) is None,
{
    match enc {
        TextEncoding::Utf8 => {
            let v = text.as_bytes_vec();
            assert(v@ == vstd::utf8::encode_utf8(text@));
            Some(v)
        },
        TextEncoding::Gbk => encode_gbk(text),
    }
}

} // verus!
