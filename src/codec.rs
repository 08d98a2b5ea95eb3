use vstd::prelude::*;

use crate::error::AuthError;

verus! {

/// The text form of a secret.
#[derive(Clone, Copy, Debug, PartialEq, Eq, Structural)]
pub enum Base {
    /// RFC 4648 Base32, without padding.
    BASE32,
    /// RFC 4648 standard Base64, with `=` padding.
    BASE64,
}

#[verifier::external_type_specification]
#[verifier::external_body]
pub struct ExDecodeError(data_encoding::DecodeError);

/// The unpadded Base32 text of `b`.
pub uninterp spec fn base32_text(b: Seq<u8>) -> Seq<char>;

/// The padded Base64 text of `b`.
pub uninterp spec fn base64_text(b: Seq<u8>) -> Seq<char>;

/// What unpadded Base32 decoding makes of `s`, `None` where it is refused.
pub uninterp spec fn base32_bytes(s: Seq<char>) -> Option<Seq<u8>>;

/// What padded Base64 decoding makes of `s`, `None` where it is refused.
pub uninterp spec fn base64_bytes(s: Seq<char>) -> Option<Seq<u8>>;

pub open spec fn is_base32_symbol(c: char) -> bool {
    ('A' <= c && c <= 'Z') || ('2' <= c && c <= '7')
}

pub open spec fn is_base64_symbol(c: char) -> bool {
    ('A' <= c && c <= 'Z') || ('a' <= c && c <= 'z') || ('0' <= c && c <= '9') || c == '+' || c
        == '/'
}

/// The characters that may stand in a secret's text under `base`.
pub open spec fn in_alphabet(base: Base, c: char) -> bool {
    match base {
        Base::BASE32 => is_base32_symbol(c),
        Base::BASE64 => is_base64_symbol(c) || c == '=',
    }
}

/// The length of the text of `n` bytes under `base`.
pub open spec fn encoded_len(base: Base, n: nat) -> nat {
    match base {
        Base::BASE32 => (8 * n + 4) / 5,
        Base::BASE64 => 4 * ((n + 2) / 3),
    }
}

pub open spec fn encoded(base: Base, b: Seq<u8>) -> Seq<char> {
    match base {
        Base::BASE32 => base32_text(b),
        Base::BASE64 => base64_text(b),
    }
}

pub open spec fn decoded(base: Base, s: Seq<char>) -> Option<Seq<u8>> {
    match base {
        Base::BASE32 => base32_bytes(s),
        Base::BASE64 => base64_bytes(s),
    }
}

/// The largest input the encoder takes without the risk of a panic.
pub open spec fn encodable(n: nat) -> bool {
    n <= usize::MAX / 512
}

/// Relies on `data_encoding::BASE32_NOPAD.encode`: `ceil(8n/5)` symbols of the
/// RFC 4648 Base32 alphabet, no padding.
#[verifier::external_body]
fn encode_base32(b: &[u8]) -> (r: String)
    requires
        encodable(b@.len()),
    ensures
        r@ == base32_text(b@),
        r@.len() == encoded_len(Base::BASE32, b@.len()),
        forall|i: int| 0 <= i < r@.len() ==> is_base32_symbol(#[trigger] r@[i]),
{
    data_encoding::BASE32_NOPAD.encode(b)
}

/// Relies on `data_encoding::BASE64.encode`: `4 * ceil(n/3)` characters of the
/// RFC 4648 Base64 alphabet and its `=` padding.
#[verifier::external_body]
fn encode_base64(b: &[u8]) -> (r: String)
    requires
        encodable(b@.len()),
    ensures
        r@ == base64_text(b@),
        r@.len() == encoded_len(Base::BASE64, b@.len()),
        forall|i: int| 0 <= i < r@.len() ==> in_alphabet(Base::BASE64, #[trigger] r@[i]),
{
    data_encoding::BASE64.encode(b)
}

/// Relies on `data_encoding::BASE32_NOPAD.decode`: it gives back the bytes of
/// every text its encoder produced, refuses any character outside the alphabet,
/// and, the encoding being canonical, accepts only texts its encoder produces.
#[verifier::external_body]
fn decode_base32(s: &str) -> (r: Result<Vec<u8>, data_encoding::DecodeError>)
    ensures
        r is Ok <==> base32_bytes(s@) is Some,
        r is Ok ==> r->Ok_0@ == base32_bytes(s@)->0,
        forall|b: Seq<u8>| #[trigger] base32_text(b) == s@ ==> (r is Ok && r->Ok_0@ == b),
        (exists|i: int| 0 <= i < s@.len() && !is_base32_symbol(#[trigger] s@[i])) ==> r is Err,
        r is Ok ==> base32_text(r->Ok_0@) == s@,
{
    data_encoding::BASE32_NOPAD.decode(s.as_bytes())
}

/// Relies on `data_encoding::BASE64.decode`: it gives back the bytes of every
/// text its encoder produced and refuses any character that is neither in the
/// alphabet nor the `=` padding.
#[verifier::external_body]
fn decode_base64(s: &str) -> (r: Result<Vec<u8>, data_encoding::DecodeError>)
    ensures
        r is Ok <==> base64_bytes(s@) is Some,
        r is Ok ==> r->Ok_0@ == base64_bytes(s@)->0,
        forall|b: Seq<u8>| #[trigger] base64_text(b) == s@ ==> (r is Ok && r->Ok_0@ == b),
        (exists|i: int| 0 <= i < s@.len() && !in_alphabet(Base::BASE64, #[trigger] s@[i]))
            ==> r is Err,
{
    data_encoding::BASE64.decode(s.as_bytes())
}

/// What decoding `text` under `base` returns: the decoder's bytes, or
/// `MalformedKey` where it refuses the text. The text of any bytes decodes back
/// to those bytes, a character outside the alphabet is refused, and an accepted
/// Base32 text is exactly the text of what it decodes to.
pub open spec fn decodes(base: Base, text: Seq<char>, r: Result<Vec<u8>, AuthError>) -> bool {
    &&& match decoded(base, text) {
        Some(v) => r is Ok && r->Ok_0@ == v,
        None => r == Err::<Vec<u8>, AuthError>(AuthError::MalformedKey),
    }
    &&& forall|b: Seq<u8>| #[trigger] encoded(base, b) == text ==> (r is Ok && r->Ok_0@ == b)
    &&& (exists|i: int| 0 <= i < text.len() && !in_alphabet(base, #[trigger] text[i])) ==> r is Err
    &&& (base == Base::BASE32 && r is Ok) ==> encoded(base, r->Ok_0@) == text
}

/// Encodes raw secret bytes as text under `base`.
pub fn encode_secret_key(base: Base, buffer: Vec<u8>) -> (r: String)
    requires
        encodable(buffer@.len()),
    ensures
        r@ == encoded(base, buffer@),
        r@.len() == encoded_len(base, buffer@.len()),
        forall|i: int| 0 <= i < r@.len() ==> in_alphabet(base, #[trigger] r@[i]),
{
    match base {
        Base::BASE32 => encode_base32(buffer.as_slice()),
        Base::BASE64 => encode_base64(buffer.as_slice()),
    }
}

/// Decodes a secret's text under `base` back to its raw bytes.
pub fn decode_secret_key(base: Base, key: String) -> (r: Result<Vec<u8>, AuthError>)
    ensures
        decodes(base, key@, r),
{
    let res = match base {
        Base::BASE32 => decode_base32(key.as_str()),
        Base::BASE64 => decode_base64(key.as_str()),
    };
    match res {
        Ok(v) => Ok(v),
        Err(_) => Err(AuthError::MalformedKey),
    }
}

/// Decoding the text of any bytes gives those bytes back, under either base.
pub proof fn lemma_round_trip(base: Base, b: Seq<u8>, r: Result<Vec<u8>, AuthError>)
    requires
        decodes(base, encoded(base, b), r),
    ensures
        r is Ok,
        r->Ok_0@ == b,
{
}

/// A text holding a character outside the alphabet of `base` is refused with
/// `MalformedKey`, never turned into bytes.
pub proof fn lemma_rejects_foreign_char(
    base: Base,
    text: Seq<char>,
    i: int,
    r: Result<Vec<u8>, AuthError>,
)
    requires
        decodes(base, text, r),
        0 <= i < text.len(),
        !in_alphabet(base, text[i]),
    ensures
        r == Err::<Vec<u8>, AuthError>(AuthError::MalformedKey),
{
}

/// Ten bytes encode under Base32 to sixteen characters, none of them `=`.
pub proof fn lemma_base32_ten_bytes()
    ensures
        encoded_len(Base::BASE32, 10) == 16,
        forall|c: char| in_alphabet(Base::BASE32, c) ==> c != '=',
{
}

} // verus!
