//! Response decoding.
//!
//! A response body is transformed according to its `Content-Encoding`
//! header: gzip and deflate are decompressed, identity and an absent header
//! leave the bytes as they are, and anything else is refused. Text results
//! are checked to be UTF-8 afterwards.

use crate::errors::ParseError;
use crate::text::{chars_of, is_text, lower, string_of, to_lower};
use async_compression::tokio::bufread::{GzipDecoder, ZlibDecoder};
use futures::FutureExt;
use tokio::io::{AsyncReadExt, BufReader};
use vstd::prelude::*;
use vstd::utf8::{decode_utf8, valid_utf8};

verus! {

/// The bytes that a gzip stream decompresses to, or `None` where the stream
/// is damaged.
pub uninterp spec fn gzip_decoded(body: Seq<u8>) -> Option<Seq<u8>>;

/// The bytes that a zlib (deflate) stream decompresses to, or `None` where
/// the stream is damaged.
pub uninterp spec fn zlib_decoded(body: Seq<u8>) -> Option<Seq<u8>>;

/// Decompresses `body` with `async_compression`'s `GzipDecoder`, read to its
/// end. The reader is a slice and never has to wait, so the read is polled
/// once (`now_or_never`) and no executor is entered. The contract only names
/// the result: it is whatever the decoder makes of these bytes, and `None`
/// where the decoder reports an error.
#[verifier::external_body]
fn gunzip(body: &[u8]) -> (r: Option<Vec<u8>>)
    ensures
        match r {
            Some(v) => gzip_decoded(body@) == Some(v@),
            None => gzip_decoded(body@) is None,
        },
{
    let mut decoder = GzipDecoder::new(BufReader::new(body));
    let mut decoded = Vec::new();
    match decoder.read_to_end(&mut decoded).now_or_never() {
        Some(Ok(_)) => Some(decoded),
        _ => None,
    }
}

/// Decompresses `body` with `async_compression`'s `ZlibDecoder`, read to its
/// end. The reader is a slice and never has to wait, so the read is polled
/// once (`now_or_never`) and no executor is entered. The contract only names
/// the result: it is whatever the decoder makes of these bytes, and `None`
/// where the decoder reports an error.
#[verifier::external_body]
fn inflate(body: &[u8]) -> (r: Option<Vec<u8>>)
    ensures
        match r {
            Some(v) => zlib_decoded(body@) == Some(v@),
            None => zlib_decoded(body@) is None,
        },
{
    let mut decoder = ZlibDecoder::new(BufReader::new(body));
    let mut decoded = Vec::new();
    match decoder.read_to_end(&mut decoded).now_or_never() {
        Some(Ok(_)) => Some(decoded),
        _ => None,
    }
}

/// `String::from_utf8`: the string that the bytes encode, where they are
/// valid UTF-8, and `None` where they are not.
#[verifier::external_body]
pub(crate) fn utf8_string(bytes: Vec<u8>) -> (r: Option<String>)
    ensures
        match r {
            Some(s) => valid_utf8(bytes@) && s@ == decode_utf8(bytes@),
            None => !valid_utf8(bytes@),
        },
{
    String::from_utf8(bytes).ok()
}

/// How a response body is encoded.
#[derive(Clone, Copy, Debug, PartialEq, Eq, Structural)]
pub enum ContentEncoding {
    /// The body is as the server holds it.
    Identity,
    /// The body is a gzip stream.
    Gzip,
    /// The body is a zlib stream.
    Deflate,
}

/// Why a body could not be decoded.
pub enum DecodeFailure {
    /// The encoding, in lower case, is not supported.
    Unsupported(Seq<char>),
    /// The compressed stream is damaged.
    Damaged,
    /// The decoded bytes are not valid UTF-8.
    NotUtf8,
}

/// The failure that a parse error of the decoder stands for.
pub open spec fn failure_of(e: ParseError) -> Option<DecodeFailure> {
    match e {
        ParseError::UnsupportedEncoding(name) => Some(DecodeFailure::Unsupported(name@)),
        ParseError::Decompress => Some(DecodeFailure::Damaged),
        ParseError::Utf8 => Some(DecodeFailure::NotUtf8),
        _ => None,
    }
}

/// The encoding that a `Content-Encoding` header selects. The value is read
/// without regard to ASCII case. No header, and the value `identity`, select
/// no transformation; a value that is not recognized is an error that
/// carries the value in lower case.
pub open spec fn encoding_of(header: Option<Seq<char>>) -> Result<ContentEncoding, DecodeFailure> {
    match header {
        None => Ok(ContentEncoding::Identity),
        Some(h) => {
            let name = lower(h);
            if name == "gzip"@ {
                Ok(ContentEncoding::Gzip)
            } else if name == "deflate"@ {
                Ok(ContentEncoding::Deflate)
            } else if name == "identity"@ {
                Ok(ContentEncoding::Identity)
            } else {
                Err(DecodeFailure::Unsupported(name))
            }
        },
    }
}

/// The bytes that `body` stands for under `encoding`.
pub open spec fn decompressed(encoding: ContentEncoding, body: Seq<u8>) -> Result<
    Seq<u8>,
    DecodeFailure,
> {
    match encoding {
        ContentEncoding::Identity => Ok(body),
        ContentEncoding::Gzip => match gzip_decoded(body) {
            Some(b) => Ok(b),
            None => Err(DecodeFailure::Damaged),
        },
        ContentEncoding::Deflate => match zlib_decoded(body) {
            Some(b) => Ok(b),
            None => Err(DecodeFailure::Damaged),
        },
    }
}

/// The bytes that a response body stands for, given its `Content-Encoding`
/// header.
pub open spec fn decoded_body(header: Option<Seq<char>>, body: Seq<u8>) -> Result<
    Seq<u8>,
    DecodeFailure,
> {
    match encoding_of(header) {
        Ok(encoding) => decompressed(encoding, body),
        Err(e) => Err(e),
    }
}

/// The text that a response body stands for.
pub open spec fn decoded_text(header: Option<Seq<char>>, body: Seq<u8>) -> Result<
    Seq<char>,
    DecodeFailure,
> {
    match decoded_body(header, body) {
        Ok(bytes) => if valid_utf8(bytes) {
            Ok(decode_utf8(bytes))
        } else {
            Err(DecodeFailure::NotUtf8)
        },
        Err(e) => Err(e),
    }
}

/// Whether `r` is the outcome `expected`, bytes for bytes and failure for
/// failure.
pub open spec fn is_decoding(r: Result<Vec<u8>, ParseError>, expected: Result<
    Seq<u8>,
    DecodeFailure,
>) -> bool {
    match r {
        Ok(v) => expected == Ok::<Seq<u8>, DecodeFailure>(v@),
        Err(e) => expected is Err && failure_of(e) == Some(expected->Err_0),
    }
}

/// Whether `r` is the outcome `expected`, text for text and failure for
/// failure.
pub open spec fn is_text_decoding(r: Result<String, ParseError>, expected: Result<
    Seq<char>,
    DecodeFailure,
>) -> bool {
    match r {
        Ok(s) => expected == Ok::<Seq<char>, DecodeFailure>(s@),
        Err(e) => expected is Err && failure_of(e) == Some(expected->Err_0),
    }
}

/// Decoder idempotence on identity encoding. Without a `Content-Encoding`
/// header, and with the value `identity` in any case, decoding returns the
/// input bytes unchanged.
pub proof fn lemma_identity_decoding(header: Option<Seq<char>>, body: Seq<u8>)
    requires
        header is None || lower(header->0) == "identity"@,
    ensures
        decoded_body(header, body) == Ok::<Seq<u8>, DecodeFailure>(body),
{
    reveal_strlit("identity");
    reveal_strlit("gzip");
    reveal_strlit("deflate");
    if header is Some {
        assert("identity"@.len() != "gzip"@.len());
        assert("identity"@.len() != "deflate"@.len());
    }
}

/// Selects the decompression that a `Content-Encoding` header asks for.
pub fn select_encoding(header: Option<&str>) -> (r: Result<ContentEncoding, ParseError>)
    ensures
        match r {
            Ok(encoding) => encoding_of(header_view(header)) == Ok::<
                ContentEncoding,
                DecodeFailure,
            >(encoding),
            Err(e) => encoding_of(header_view(header)) is Err && failure_of(e) == Some(
                encoding_of(header_view(header))->Err_0,
            ),
        },
{
    match header {
        None => Ok(ContentEncoding::Identity),
        Some(h) => {
            let name = to_lower(&chars_of(h));
            if is_text(&name, "gzip") {
                Ok(ContentEncoding::Gzip)
            } else if is_text(&name, "deflate") {
                Ok(ContentEncoding::Deflate)
            } else if is_text(&name, "identity") {
                Ok(ContentEncoding::Identity)
            } else {
                Err(ParseError::UnsupportedEncoding(string_of(&name)))
            }
        },
    }
}

/// The characters of an optional header value.
pub open spec fn header_view(header: Option<&str>) -> Option<Seq<char>> {
    match header {
        Some(h) => Some(h@),
        None => None,
    }
}

/// Applies the decompression of `encoding` to `body`.
pub fn decompress(encoding: ContentEncoding, body: Vec<u8>) -> (r: Result<Vec<u8>, ParseError>)
    ensures
        is_decoding(r, decompressed(encoding, body@)),
{
    match encoding {
        ContentEncoding::Identity => Ok(body),
        ContentEncoding::Gzip => match gunzip(body.as_slice()) {
            Some(v) => Ok(v),
            None => Err(ParseError::Decompress),
        },
        ContentEncoding::Deflate => match inflate(body.as_slice()) {
            Some(v) => Ok(v),
            None => Err(ParseError::Decompress),
        },
    }
}

/// Decodes a response body according to its `Content-Encoding` header.
/// Without a header the bytes come back unchanged.
pub fn decode_body(header: Option<&str>, body: Vec<u8>) -> (r: Result<Vec<u8>, ParseError>)
    ensures
        is_decoding(r, decoded_body(header_view(header), body@)),
        header is None ==> (r matches Ok(v) && v@ == body@),
{
    match select_encoding(header) {
        Ok(encoding) => decompress(encoding, body),
        Err(e) => Err(e),
    }
}

/// Reads decoded bytes as UTF-8 text.
pub fn text_of(bytes: Vec<u8>) -> (r: Result<String, ParseError>)
    ensures
        match r {
            Ok(s) => valid_utf8(bytes@) && s@ == decode_utf8(bytes@),
            Err(e) => !valid_utf8(bytes@) && e is Utf8,
        },
{
    match utf8_string(bytes) {
        Some(s) => Ok(s),
        None => Err(ParseError::Utf8),
    }
}

/// Decodes a response body and reads it as UTF-8 text.
pub fn decode_text(header: Option<&str>, body: Vec<u8>) -> (r: Result<String, ParseError>)
    ensures
        is_text_decoding(r, decoded_text(header_view(header), body@)),
{
    match decode_body(header, body) {
        Ok(bytes) => text_of(bytes),
        Err(e) => Err(e),
    }
}

} // verus!
