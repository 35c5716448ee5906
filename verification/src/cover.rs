//! Cover art as a data URI: `data:<mime>;base64,<payload>`.

use vstd::prelude::*;
use vstd::string::*;
use crate::encoding::{decode, encodable, encode, lemma_decode_encode, to_base64};
use crate::text::{owned_text, text_of};

verus! {

/// The MIME type that is written where a picture declares none.
pub open spec fn default_mime() -> Seq<char> {
    "image/jpeg"@
}

/// The declared MIME type, or the default.
pub open spec fn mime_or_default(mime: Option<Seq<char>>) -> Seq<char> {
    match mime {
        Some(m) => m,
        None => default_mime(),
    }
}

/// What stands before the payload of a data URI for the type `mime`.
pub open spec fn uri_header(mime: Seq<char>) -> Seq<char> {
    "data:"@ + mime + ";base64,"@
}

/// The data URI for a picture with the bytes `data` and the declared type `mime`.
pub open spec fn data_uri(mime: Option<Seq<char>>, data: Seq<u8>) -> Seq<char> {
    uri_header(mime_or_default(mime)) + encode(data)
}

/// The payload of a data URI that was written for the declared type `mime`:
/// what follows its header.
pub open spec fn payload(mime: Option<Seq<char>>, uri: Seq<char>) -> Seq<char> {
    uri.skip(uri_header(mime_or_default(mime)).len() as int)
}

/// The cover for a picture: its data URI, unless the bytes are too many to
/// encode on this machine.
pub open spec fn cover_text(mime: Option<Seq<char>>, data: Seq<u8>) -> Option<Seq<char>> {
    if encodable(data.len()) {
        Some(data_uri(mime, data))
    } else {
        None
    }
}

/// A data URI begins with the header for its MIME type, and its payload is
/// the encoding of the picture's bytes.
pub proof fn lemma_data_uri_parts(mime: Option<Seq<char>>, data: Seq<u8>)
    ensures
        uri_header(mime_or_default(mime)).is_prefix_of(data_uri(mime, data)),
        payload(mime, data_uri(mime, data)) == encode(data),
{
    let header = uri_header(mime_or_default(mime));
    let uri = data_uri(mime, data);
    assert(uri.subrange(0, header.len() as int) =~= header);
    assert(uri.skip(header.len() as int) =~= encode(data));
}

/// The payload of a picture's data URI decodes to the picture's bytes.
pub proof fn lemma_payload_round_trip(mime: Option<Seq<char>>, data: Seq<u8>)
    ensures
        decode(payload(mime, data_uri(mime, data))) == Some(data),
{
    lemma_data_uri_parts(mime, data);
    lemma_decode_encode(data);
}

/// A picture that declares no MIME type, or declares `image/jpeg`, gets a
/// data URI that starts with `data:image/jpeg;base64,`.
pub proof fn lemma_jpeg_header(mime: Option<Seq<char>>, data: Seq<u8>)
    requires
        mime is None || mime == Some("image/jpeg"@),
    ensures
        "data:image/jpeg;base64,"@.is_prefix_of(data_uri(mime, data)),
{
    reveal_strlit("data:image/jpeg;base64,");
    reveal_strlit("data:");
    reveal_strlit("image/jpeg");
    reveal_strlit(";base64,");
    lemma_data_uri_parts(mime, data);
    assert(uri_header("image/jpeg"@) =~= "data:image/jpeg;base64,"@);
}

/// Writes the data URI of a picture, or `None` where its bytes are too many
/// to encode.
pub fn cover_uri(mime: Option<&str>, data: &[u8]) -> (uri: Option<String>)
    ensures
        owned_text(uri) == cover_text(text_of(mime), data@),
{
    match to_base64(data) {
        Some(payload) => {
            let mut uri = String::from_str("data:");
            match mime {
                Some(m) => uri.append(m),
                None => uri.append("image/jpeg"),
            }
            uri.append(";base64,");
            uri.append(payload.as_str());
            proof {
                assert(uri@ =~= data_uri(text_of(mime), data@));
            }
            Some(uri)
        },
        None => None,
    }
}

} // verus!
