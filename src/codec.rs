use base64::Engine as _;
use vstd::prelude::*;

use crate::text::chars_of;

verus! {

/// What the standard padded Base64 engine writes for a byte sequence.
pub uninterp spec fn base64_encoding(b: Seq<u8>) -> Seq<char>;

/// What the standard padded Base64 engine reads back from a text, or `None`
/// where the text is not a valid encoding.
pub uninterp spec fn base64_decoding(s: Seq<char>) -> Option<Seq<u8>>;

#[verifier::external_type_specification]
#[verifier::external_body]
pub struct ExDecodeError(base64::DecodeError);

/// Relies on `base64::Engine::encode` with the `STANDARD` engine: the output
/// uses the alphabet `A-Z a-z 0-9 + /` and `=` padding (so never a comma), and
/// `Engine::decode` with the same engine gives the input back.
#[verifier::external_body]
fn base64_encode(b: &[u8]) -> (r: String)
    ensures
        r@ == base64_encoding(b@),
        base64_decoding(r@) == Some(b@),
        forall|i: int| 0 <= i < r@.len() ==> r@[i] != ',',
{
    base64::engine::general_purpose::STANDARD.encode(b)
}

/// Relies on `base64::Engine::decode` with the `STANDARD` engine: it fails
/// exactly on texts that are not a canonical padded encoding.
#[verifier::external_body]
fn base64_decode(s: &str) -> (r: Result<Vec<u8>, base64::DecodeError>)
    ensures
        match r {
            Ok(v) => base64_decoding(s@) == Some(v@),
            Err(_) => base64_decoding(s@) is None,
        },
{
    base64::engine::general_purpose::STANDARD.decode(s)
}

/// Why a data URI could not be turned into image bytes, or the bytes not
/// moved to or from a file.
#[derive(Debug, Clone, PartialEq, Eq)]
pub enum CodecError {
    /// The text has no comma-separated payload section.
    MalformedInput,
    /// The payload is not valid Base64.
    InvalidEncoding,
    /// A file could not be read or written; the text says why.
    IoFailure(String),
}

/// The media-type header that precedes the Base64 payload of an image.
pub open spec fn png_header() -> Seq<char> {
    "data:image/png;base64,"@
}

/// The data URI carrying the given Base64 text.
pub open spec fn data_uri_of_base64(b64: Seq<char>) -> Seq<char> {
    png_header() + b64
}

/// The data URI carrying the given image bytes.
pub open spec fn data_uri_of(bytes: Seq<u8>) -> Seq<char> {
    data_uri_of_base64(base64_encoding(bytes))
}

/// Index of the first comma at or after `k`, or the length where there is none.
pub open spec fn comma_from(s: Seq<char>, k: int) -> int
    decreases s.len() - k,
{
    if k < 0 || k >= s.len() {
        s.len() as int
    } else if s[k] == ',' {
        k
    } else {
        comma_from(s, k + 1)
    }
}

/// The second comma-separated part of `u`, or `None` where `u` has no comma.
pub open spec fn payload_of(u: Seq<char>) -> Option<Seq<char>> {
    let i = comma_from(u, 0);
    if i >= u.len() {
        None
    } else {
        Some(u.subrange(i + 1, comma_from(u, i + 1)))
    }
}

/// The image bytes that a data URI stands for.
pub open spec fn decoded_data_uri(u: Seq<char>) -> Result<Seq<u8>, CodecError> {
    match payload_of(u) {
        None => Err(CodecError::MalformedInput),
        Some(p) => match base64_decoding(p) {
            Some(b) => Ok(b),
            None => Err(CodecError::InvalidEncoding),
        },
    }
}

proof fn lemma_comma_from_skip(s: Seq<char>, k: int, m: int)
    requires
        0 <= k <= m <= s.len(),
        forall|j: int| k <= j < m ==> s[j] != ',',
    ensures
        comma_from(s, k) == comma_from(s, m),
    decreases m - k,
{
    if k < m {
        lemma_comma_from_skip(s, k + 1, m);
    }
}

/// Finds the first comma at or after `k`.
fn find_comma(s: &Vec<char>, k: usize) -> (r: usize)
    requires
        k <= s@.len(),
    ensures
        r as int == comma_from(s@, k as int),
        k <= r <= s@.len(),
{
    let mut i = k;
    while i < s.len() && s[i] != ','
        invariant
            k <= i <= s@.len(),
            comma_from(s@, k as int) == comma_from(s@, i as int),
        decreases s@.len() - i,
    {
        i = i + 1;
    }
    i
}

/// Decodes the Base64 payload of an image data URI: the part between its
/// first comma and the next one (or the end).
pub fn decode_data_uri(uri: &str) -> (r: Result<Vec<u8>, CodecError>)
    ensures
        match r {
            Ok(v) => decoded_data_uri(uri@) == Ok::<Seq<u8>, CodecError>(v@),
            Err(e) => decoded_data_uri(uri@) == Err::<Seq<u8>, CodecError>(e),
        },
{
    let cs = chars_of(uri);
    let i = find_comma(&cs, 0);
    if i >= cs.len() {
        return Err(CodecError::MalformedInput);
    }
    let j = find_comma(&cs, i + 1);
    let payload = vstd::string::StrSliceExecFns::substring_char(uri, i + 1, j);
    match base64_decode(payload) {
        Ok(v) => Ok(v),
        Err(_) => Err(CodecError::InvalidEncoding),
    }
}

/// The data URI that carries already Base64-encoded image text.
pub fn data_uri_from_base64(b64: &str) -> (r: String)
    ensures
        r@ == data_uri_of_base64(b64@),
{
    let mut r = "data:image/png;base64,".to_owned();
    vstd::string::StringExecFns::append(&mut r, b64);
    r
}

/// Base64-encodes image bytes into a PNG data URI. Decoding the result gives
/// the same bytes back.
pub fn encode_data_uri(bytes: &[u8]) -> (r: String)
    ensures
        r@ == data_uri_of(bytes@),
        decoded_data_uri(r@) == Ok::<Seq<u8>, CodecError>(bytes@),
{
    let enc = base64_encode(bytes);
    let r = data_uri_from_base64(enc.as_str());
    proof {
        lemma_data_uri_decodes(bytes@);
    }
    r
}

/// Where the Base64 engine round-trips `bytes` and writes no comma, the data
/// URI of `bytes` decodes back to `bytes`.
proof fn lemma_data_uri_decodes(bytes: Seq<u8>)
    requires
        base64_decoding(base64_encoding(bytes)) == Some(bytes),
        forall|i: int|
            0 <= i < base64_encoding(bytes).len() ==> base64_encoding(bytes)[i] != ',',
    ensures
        decoded_data_uri(data_uri_of(bytes)) == Ok::<Seq<u8>, CodecError>(bytes),
{
    let enc = base64_encoding(bytes);
    let u = data_uri_of(bytes);
    reveal_strlit("data:image/png;base64,");
    assert(png_header().len() == 22);
    lemma_comma_from_skip(u, 0, 21);
    assert(u[21] == ',');
    assert(comma_from(u, 0) == 21);
    assert forall|j: int| 22 <= j < u.len() implies u[j] != ',' by {
        assert(u[j] == enc[j - 22]);
    }
    lemma_comma_from_skip(u, 22, u.len() as int);
    assert(u.subrange(22, u.len() as int) == enc);
}

} // verus!
