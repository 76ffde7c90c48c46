//! The request/response protocol that carries song lists between peers.
use vstd::prelude::*;
use vstd::utf8::encode_utf8;

verus! {

/// The request/response protocol used to deliver song lists.
pub struct SongProtocol;

/// The name of the protocol on the wire: the ASCII bytes of `/song/1.0.0`.
pub open spec fn song_protocol_name() -> Seq<u8> {
    seq![0x2fu8, 0x73, 0x6f, 0x6e, 0x67, 0x2f, 0x31, 0x2e, 0x30, 0x2e, 0x30]
}

impl SongProtocol {
    /// The name under which the protocol is negotiated.
    pub fn protocol_name(&self) -> (name: &'static [u8])
        ensures
            name@ == song_protocol_name(),
    {
        let n: &'static [u8; 11] = &[0x2fu8, 0x73, 0x6f, 0x6e, 0x67, 0x2f, 0x31, 0x2e, 0x30, 0x2e, 0x30];
        n.as_slice()
    }
}

/// The codec that frames the messages of the song protocol. Requests carry a
/// [`crate::song::SongResponse`]; responses carry a short acknowledgement text, encoded as a
/// JSON string.
pub struct SongCodec;

/// Why a frame could not be decoded.
#[derive(Debug, PartialEq, Eq, Structural)]
pub enum CodecError {
    /// The bytes are not the JSON text of a string.
    InvalidJson,
    /// The bytes end before the JSON text of a string does.
    UnexpectedEof,
}

/// The JSON escape of one byte of UTF-8 text: the quote and the backslash are preceded by a backslash; the
/// control bytes backspace, tab, line feed, form feed and carriage return become `\b`, `\t`,
/// `\n`, `\f`, `\r`; the other bytes below 0x20 become `\u00` and two lowercase hex
/// digits; every other byte stands for itself.
pub open spec fn json_escaped_byte(b: u8) -> Seq<u8> {
    if b == 0x22 {
        seq![0x5cu8, 0x22]
    } else if b == 0x5c {
        seq![0x5cu8, 0x5c]
    } else if b == 0x08 {
        seq![0x5cu8, 0x62]
    } else if b == 0x09 {
        seq![0x5cu8, 0x74]
    } else if b == 0x0a {
        seq![0x5cu8, 0x6e]
    } else if b == 0x0c {
        seq![0x5cu8, 0x66]
    } else if b == 0x0d {
        seq![0x5cu8, 0x72]
    } else if b < 0x20 {
        seq![0x5cu8, 0x75, 0x30, 0x30, hex_digit(b / 16), hex_digit(b % 16)]
    } else {
        seq![b]
    }
}

/// The ASCII code of the lowercase hexadecimal digit for `n < 16`.
pub open spec fn hex_digit(n: u8) -> u8 {
    if n < 10 {
        (0x30 + n) as u8
    } else {
        (0x61 + n - 10) as u8
    }
}

/// The JSON escape of a byte sequence, byte by byte.
pub open spec fn json_escaped(bytes: Seq<u8>) -> Seq<u8>
    decreases bytes.len(),
{
    if bytes.len() == 0 {
        Seq::<u8>::empty()
    } else {
        json_escaped(bytes.drop_last()) + json_escaped_byte(bytes.last())
    }
}

/// The JSON text of the string `text`: its UTF-8 bytes, escaped, between double quotes.
pub open spec fn json_string(text: Seq<char>) -> Seq<u8> {
    seq![0x22u8] + json_escaped(encode_utf8(text)) + seq![0x22u8]
}

/// The string whose JSON text is `bytes`, as `serde_json` reads it (surrounding whitespace
/// allowed, escapes resolved), or `None` when `bytes` is not the JSON text of a string.
pub uninterp spec fn json_string_value(bytes: Seq<u8>) -> Option<Seq<char>>;

#[verifier::external_type_specification]
#[verifier::external_body]
pub struct ExJsonError(serde_json::Error);

/// Calls `serde_json::to_vec` on a `String`. serde_json writes an opening quote, the bytes of
/// the string escaped by its `ESCAPE` table (`format_escaped_str_contents`), and a closing
/// quote, into a `Vec<u8>`, which cannot fail; the contract states that result.
#[verifier::external_body]
fn json_encode_text(text: &String) -> (r: Result<Vec<u8>, serde_json::Error>)
    ensures
        r is Ok,
        r matches Ok(bytes) ==> bytes@ == json_string(text@),
{
    serde_json::to_vec(text)
}

/// How reading a JSON string failed: the `serde_json::error::Category` of the error.
#[derive(Debug, PartialEq, Eq, Structural)]
pub enum JsonFailure {
    /// Reading the input failed.
    Io,
    /// The input is not syntactically valid JSON.
    Syntax,
    /// The input is valid JSON but not a string.
    Data,
    /// The input ended before the string did.
    Eof,
}

/// Whether `serde_json` fails to read a string from `bytes` because the input ends too
/// early.
pub uninterp spec fn json_string_ends_early(bytes: Seq<u8>) -> bool;

/// Calls `serde_json::from_slice::<String>` and, on failure, gives the error's
/// `classify()` category. The contract names the text read, `json_string_value`, and
/// whether a failure is an early end, `json_string_ends_early`. Beside those names it states
/// what the reader shows: every text written by `serde_json::to_vec` (the quoted, escaped
/// form `json_string`) reads back as itself, since `parse_str_bytes` copies unescaped bytes,
/// `parse_escape` undoes each escape the writer emits, and UTF-8 is checked at the closing
/// quote; an empty input, or any shorter prefix of such a text, fails with the `Eof`
/// category (`EofWhileParsingValue`, or `EofWhileParsingString` when the input runs out
/// inside the string or inside an escape); and reading from a slice never fails with `Io`.
#[verifier::external_body]
fn json_decode_text(buf: &[u8]) -> (r: Result<String, JsonFailure>)
    ensures
        r is Ok <==> json_string_value(buf@) is Some,
        r matches Ok(text) ==> json_string_value(buf@) == Some(text@),
        r is Err ==> (r.unwrap_err() == JsonFailure::Eof <==> json_string_ends_early(buf@)),
        r is Err ==> r.unwrap_err() != JsonFailure::Io,
        forall|t: Seq<char>| #[trigger] json_string(t) == buf@ ==> r is Ok && r.unwrap()@ == t,
        forall|t: Seq<char>, k: int|
            0 <= k < json_string(t).len() && #[trigger] json_string(t).take(k) == buf@ ==> r is Err
                && r.unwrap_err() == JsonFailure::Eof,
{
    match serde_json::from_slice::<String>(buf) {
        Ok(text) => Ok(text),
        Err(e) => Err(match e.classify() {
            serde_json::error::Category::Io => JsonFailure::Io,
            serde_json::error::Category::Syntax => JsonFailure::Syntax,
            serde_json::error::Category::Data => JsonFailure::Data,
            serde_json::error::Category::Eof => JsonFailure::Eof,
        }),
    }
}

impl SongCodec {
    /// The frame that carries the acknowledgement `response`: its JSON text.
    pub fn encode_response(&self, response: &String) -> (r: Result<Vec<u8>, CodecError>)
        ensures
            r matches Ok(bytes) && bytes@ == json_string(response@),
    {
        match json_encode_text(response) {
            Ok(bytes) => Ok(bytes),
            Err(_) => Err(CodecError::InvalidJson),
        }
    }

    /// The acknowledgement carried by the frame `buf`. A frame that ends before its string
    /// does is `UnexpectedEof`; any other frame that is not the JSON text of a string is
    /// `InvalidJson`. Every frame written by [`Self::encode_response`] reads back as the text
    /// it was written from, and every shorter prefix of it is `UnexpectedEof`.
    pub fn decode_response(&self, buf: &[u8]) -> (r: Result<String, CodecError>)
        ensures
            r is Ok <==> json_string_value(buf@) is Some,
            r matches Ok(text) ==> json_string_value(buf@) == Some(text@),
            r is Err ==> (r.unwrap_err() == CodecError::UnexpectedEof <==> json_string_ends_early(
                buf@,
            )),
            forall|t: Seq<char>| #[trigger] json_string(t) == buf@ ==> r is Ok && r.unwrap()@ == t,
            forall|t: Seq<char>, k: int|
                0 <= k < json_string(t).len() && #[trigger] json_string(t).take(k) == buf@ ==> r
                    == Err::<String, CodecError>(CodecError::UnexpectedEof),
    {
        match json_decode_text(buf) {
            Ok(text) => Ok(text),
            Err(JsonFailure::Eof) => Err(CodecError::UnexpectedEof),
            Err(_) => Err(CodecError::InvalidJson),
        }
    }
}

} // verus!
