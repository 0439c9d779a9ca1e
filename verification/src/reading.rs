//! What is read in a line and what a response says, for every text and every description.

use crate::broadcast::{SetupError, SetupFault};
use crate::codec::{
    base64_encoded, base64_fault, decoded, encodable, encoded, is_base64, lemma_decoded, stands_for,
    utf8_error_bytes, DecodeError, DecodeFault,
};
use crate::description::{
    description_in, json_parsed, json_rendered, offer_in, parses_to, renderable, response_for,
    Description, OfferError, OfferFault, SessionDescription,
};
use vstd::prelude::*;
use vstd::utf8::*;

verus! {

/// A line that stands for bytes is decoded to the text that they are the UTF-8 form of, and refused,
/// with the bytes, where they are none. Every other line is refused as base64.
pub proof fn law_decoding_is_reading_utf8_in_base64(line: Seq<char>, bytes: Seq<u8>)
    ensures
        stands_for(line, bytes) && valid_utf8(bytes) ==> decoded(line) == Ok::<
            Seq<char>,
            DecodeFault,
        >(decode_utf8(bytes)),
        stands_for(line, bytes) && !valid_utf8(bytes) ==> decoded(line) == Err::<
            Seq<char>,
            DecodeFault,
        >(DecodeFault::Utf8(bytes)),
        !is_base64(line) ==> decoded(line) == Err::<Seq<char>, DecodeFault>(
            DecodeFault::Base64(base64_fault(line)),
        ),
        decoded(line) is Ok ==> is_base64(line),
{
    if stands_for(line, bytes) {
        lemma_decoded(line, bytes);
    }
}

/// What is encoded is the base64 form of the text's UTF-8 form, whole and padded.
pub proof fn law_encoding_is_base64_of_utf8(text: Seq<char>)
    ensures
        stands_for(encoded(text), encode_utf8(text)),
        encoded(text).len() == (encode_utf8(text).len() + 2) / 3 * 4,
        encoded(text) == base64_encoded(encode_utf8(text)),
{
    let line = encoded(text);
    assert(line.take(line.len() as int) =~= line);
}

/// The description in a text is the one that the JSON reader finds, for every text: none is lost, none
/// is changed, none is made up, and an error is the reader's own.
pub proof fn law_description_is_what_json_reads(text: Seq<char>, description: Description)
    ensures
        description_in(text) == Ok::<Description, OfferFault>(description) <==> json_parsed(text)
            == Ok::<Description, serde_json::Error>(description),
        parses_to(text, description) <==> json_parsed(text) == Ok::<Description, serde_json::Error>(
            description,
        ),
        json_parsed(text) matches Err(e) ==> description_in(text) == Err::<Description, OfferFault>(
            OfferFault::Json(e),
        ),
        description_in(text) is Err ==> json_parsed(text) is Err,
{
}

/// The offer in a line is the description that the JSON reader finds in the text that the line's base64
/// stands for, for every line; otherwise the fault is that of the first of the three readings that
/// fails.
pub proof fn law_offer_is_json_in_utf8_in_base64(line: Seq<char>, bytes: Seq<u8>)
    ensures
        stands_for(line, bytes) && valid_utf8(bytes) ==> match json_parsed(decode_utf8(bytes)) {
            Ok(description) => offer_in(line) == Ok::<Description, OfferFault>(description),
            Err(e) => offer_in(line) == Err::<Description, OfferFault>(OfferFault::Json(e)),
        },
        stands_for(line, bytes) && !valid_utf8(bytes) ==> offer_in(line) == Err::<
            Description,
            OfferFault,
        >(OfferFault::Decode(DecodeFault::Utf8(bytes))),
        !is_base64(line) ==> offer_in(line) == Err::<Description, OfferFault>(
            OfferFault::Decode(DecodeFault::Base64(base64_fault(line))),
        ),
{
    law_decoding_is_reading_utf8_in_base64(line, bytes);
}

/// Two lines that stand for the same bytes hold the same offer, or none for the same reason in the
/// bytes.
pub proof fn law_offer_depends_on_the_bytes_alone(line: Seq<char>, other: Seq<char>, bytes: Seq<u8>)
    requires
        stands_for(line, bytes),
        stands_for(other, bytes),
    ensures
        offer_in(line) == offer_in(other),
        decoded(line) == decoded(other),
{
    law_offer_is_json_in_utf8_in_base64(line, bytes);
    law_offer_is_json_in_utf8_in_base64(other, bytes);
    law_decoding_is_reading_utf8_in_base64(line, bytes);
    law_decoding_is_reading_utf8_in_base64(other, bytes);
}

/// A response is the base64 form of the JSON form of the description, and whoever reads JSON rightly
/// finds the description in it.
pub proof fn law_response_is_base64_of_json(description: Description)
    ensures
        stands_for(response_for(description), encode_utf8(json_rendered(description))),
        response_for(description) == base64_encoded(encode_utf8(json_rendered(description))),
        decoded(response_for(description)) == Ok::<Seq<char>, DecodeFault>(
            json_rendered(description),
        ),
        json_parsed(json_rendered(description)) == Ok::<Description, serde_json::Error>(description)
            ==> offer_in(response_for(description)) == Ok::<Description, OfferFault>(description),
{
    let text = json_rendered(description);
    law_encoding_is_base64_of_utf8(text);
    encode_utf8_valid_utf8(text);
    encode_utf8_decode_utf8(text);
    law_decoding_is_reading_utf8_in_base64(response_for(description), encode_utf8(text));
    law_offer_is_json_in_utf8_in_base64(response_for(description), encode_utf8(text));
}

/// Nothing but memory bounds what is encoded and sent: a text whose base64 form fits into one
/// allocation can be encoded, and a description sixteen times as long as which, and 64 bytes more, fits
/// can be sent.
pub proof fn law_only_memory_bounds(text: Seq<char>, description: Description)
    ensures
        encodable(text) <==> (encode_utf8(text).len() + 2) / 3 * 4 <= isize::MAX,
        renderable(description) <==> 16 * encode_utf8(description.sdp).len() + 64 <= isize::MAX,
{
}

/// A description is known by its role and its whole text.
pub proof fn law_description_is_role_and_text(a: SessionDescription, b: SessionDescription)
    ensures
        a@.sdp_type == a.sdp_type,
        a@.sdp == a.sdp@,
        a@ == b@ <==> a.sdp_type == b.sdp_type && a.sdp@ == b.sdp@,
{
}

/// An error is known by what it holds, layer by layer.
pub proof fn law_errors_keep_what_they_hold(
    decode: DecodeError,
    offer: OfferError,
    setup: SetupError,
)
    ensures
        decode matches DecodeError::Base64(e) ==> decode@ == DecodeFault::Base64(e),
        decode matches DecodeError::Utf8(e) ==> decode@ == DecodeFault::Utf8(utf8_error_bytes(e)),
        offer matches OfferError::Decode(e) ==> offer@ == OfferFault::Decode(e@),
        offer matches OfferError::Json(e) ==> offer@ == OfferFault::Json(e),
        setup matches SetupError::Peer(e) ==> setup@ == SetupFault::Peer(e),
        setup matches SetupError::Offer(e) ==> setup@ == SetupFault::Offer(e@),
        setup matches SetupError::Json(e) ==> setup@ == SetupFault::Json(e),
{
}

} // verus!
