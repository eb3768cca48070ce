//! Content decoders of `mail_parser`: encoded words, Base64 and
//! Quoted-Printable.
use vstd::prelude::*;
use crate::section::Encoding;
use crate::text::chars_of;

verus! {

/// What `MessageStream::decode_rfc2047` yields for the text `s`.
pub uninterp spec fn rfc2047_decode(s: Seq<char>) -> Option<Seq<char>>;

/// What `base64_decode_stream` yields for the bytes `data` (no stop byte in use).
pub uninterp spec fn base64_decode(data: Seq<u8>) -> Option<Seq<u8>>;

/// What `quoted_printable_decode` yields for the bytes `data`.
pub uninterp spec fn quoted_printable_decode(data: Seq<u8>) -> Option<Seq<u8>>;

/// Calls `mail_parser::parsers::MessageStream::decode_rfc2047` on the bytes of
/// `s`. Claimed: the outcome is a function of `s`.
#[verifier::external_body]
fn decode_rfc2047(s: &str) -> (r: Option<String>)
    ensures
        r matches Some(d) ==> rfc2047_decode(s@) == Some(d@),
        r is None ==> rfc2047_decode(s@) is None,
{
    mail_parser::parsers::MessageStream::new(s.as_bytes()).decode_rfc2047()
}

/// Calls `mail_parser::decoders::base64::base64_decode_stream` with `u8::MAX` as
/// the stop byte. Claimed: the outcome is a function of the bytes.
#[verifier::external_body]
fn base64_decode_bytes(data: &[u8]) -> (r: Option<Vec<u8>>)
    ensures
        r matches Some(d) ==> base64_decode(data@) == Some(d@),
        r is None ==> base64_decode(data@) is None,
{
    mail_parser::decoders::base64::base64_decode_stream(data.iter(), data.len(), u8::MAX)
}

/// Calls `mail_parser::decoders::quoted_printable::quoted_printable_decode`.
/// Claimed: the outcome is a function of the bytes.
#[verifier::external_body]
fn quoted_printable_decode_bytes(data: &[u8]) -> (r: Option<Vec<u8>>)
    ensures
        r matches Some(d) ==> quoted_printable_decode(data@) == Some(d@),
        r is None ==> quoted_printable_decode(data@) is None,
{
    mail_parser::decoders::quoted_printable::quoted_printable_decode(data)
}

/// A header value decoded when it is an RFC 2047 encoded word: text that starts
/// with `=?` and ends with `?=` is decoded from its second character on; any
/// other text, and text that fails to decode, comes back as it is.
pub open spec fn decoded_header_text(s: Seq<char>) -> Seq<char> {
    if s.len() >= 2 && s[0] == '=' && s[1] == '?' && s[s.len() - 2] == '?' && s[s.len() - 1]
        == '=' {
        match rfc2047_decode(s.skip(1)) {
            Some(d) => d,
            None => s,
        }
    } else {
        s
    }
}

pub fn try_decode_string(encoded: &str) -> (r: String)
    ensures
        r@ == decoded_header_text(encoded@),
{
    let v = chars_of(encoded);
    let n = v.len();
    if n >= 2 && v[0] == '=' && v[1] == '?' && v[n - 2] == '?' && v[n - 1] == '=' {
        let rest = encoded.substring_char(1, encoded.unicode_len());
        assert(rest@ =~= encoded@.skip(1));
        if let Some(result) = decode_rfc2047(rest) {
            return result;
        }
    }
    encoded.to_owned()
}

pub open spec fn section_decode(data: Seq<u8>, enc: Encoding) -> Option<Seq<u8>> {
    match enc {
        Encoding::Base64 => base64_decode(data),
        Encoding::QuotedPrintable => quoted_printable_decode(data),
        Encoding::Unencoded => Some(data),
    }
}

/// Decodes the fetched bytes of a section by its transfer encoding.
pub fn decode_section(data: &[u8], enc: &Encoding) -> (r: Option<Vec<u8>>)
    ensures
        r matches Some(d) ==> section_decode(data@, *enc) == Some(d@),
        r is None ==> section_decode(data@, *enc) is None,
{
    match enc {
        Encoding::Base64 => base64_decode_bytes(data),
        Encoding::QuotedPrintable => quoted_printable_decode_bytes(data),
        Encoding::Unencoded => Some(vstd::slice::slice_to_vec(data)),
    }
}

} // verus!
