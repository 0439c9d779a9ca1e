//! Session descriptions: what two peers tell each other to agree on a connection.

use crate::codec::{
    base64_encoded, decode, encode, is_base64, lemma_decoded, lemma_utf8_concat, stands_for,
    DecodeError, DecodeFault,
};
use vstd::prelude::*;
use vstd::utf8::*;
use webrtc::peer::sdp::sdp_type::RTCSdpType;
use webrtc::peer::sdp::session_description::RTCSessionDescription;

verus! {

/// The role of a description in the exchange.
#[derive(Debug, Clone, Copy, PartialEq, Eq, Structural)]
pub enum SdpType {
    Unspecified,
    Offer,
    Pranswer,
    Answer,
    Rollback,
}

/// A description as it is sent: its role and its text in the session description protocol.
#[derive(Debug)]
pub struct SessionDescription {
    pub sdp_type: SdpType,
    pub sdp: String,
}

/// A session description as a mathematical value.
pub struct Description {
    pub sdp_type: SdpType,
    pub sdp: Seq<char>,
}

impl View for SessionDescription {
    type V = Description;

    open spec fn view(&self) -> Description {
        Description { sdp_type: self.sdp_type, sdp: self.sdp@ }
    }
}

/// `serde_json::Error`, carried through as it is.
#[verifier::external_type_specification]
#[verifier::external_body]
pub struct ExJsonError(serde_json::Error);

/// Why a line holds no description.
#[derive(Debug)]
pub enum OfferError {
    /// The line cannot be decoded.
    Decode(DecodeError),
    /// The decoded text is not the JSON form of a description.
    Json(serde_json::Error),
}

/// What an [`OfferError`] says of the line.
pub enum OfferFault {
    Decode(DecodeFault),
    Json(serde_json::Error),
}

impl View for OfferError {
    type V = OfferFault;

    open spec fn view(&self) -> OfferFault {
        match *self {
            OfferError::Decode(e) => OfferFault::Decode(e@),
            OfferError::Json(e) => OfferFault::Json(e),
        }
    }
}

/// What `serde_json::from_str` returns for a text that is read as an `RTCSessionDescription`.
pub uninterp spec fn json_parsed(text: Seq<char>) -> Result<Description, serde_json::Error>;

/// The word for a role.
pub open spec fn role_name(sdp_type: SdpType) -> Seq<char> {
    match sdp_type {
        SdpType::Unspecified => "Unspecified"@,
        SdpType::Offer => "offer"@,
        SdpType::Pranswer => "pranswer"@,
        SdpType::Answer => "answer"@,
        SdpType::Rollback => "rollback"@,
    }
}

/// The hexadecimal digit for a number below sixteen.
pub open spec fn hex_digit(n: int) -> char {
    if n < 10 {
        ('0' as int + n) as char
    } else {
        ('a' as int + (n - 10)) as char
    }
}

/// How a character is written between the quotes of a JSON string.
pub open spec fn escaped_char(c: char) -> Seq<char> {
    if c == '"' || c == '\\' {
        seq!['\\', c]
    } else if c == '\u{8}' {
        seq!['\\', 'b']
    } else if c == '\t' {
        seq!['\\', 't']
    } else if c == '\n' {
        seq!['\\', 'n']
    } else if c == '\u{c}' {
        seq!['\\', 'f']
    } else if c == '\r' {
        seq!['\\', 'r']
    } else if ' ' > c {
        seq!['\\', 'u', '0', '0', hex_digit(c as int / 16), hex_digit(c as int % 16)]
    } else {
        seq![c]
    }
}

/// How a text is written between the quotes of a JSON string.
pub open spec fn escaped(text: Seq<char>) -> Seq<char>
    decreases text.len(),
{
    if text.len() == 0 {
        seq![]
    } else {
        escaped_char(text[0]) + escaped(text.drop_first())
    }
}

/// The JSON form of a description.
pub open spec fn json_rendered(description: Description) -> Seq<char> {
    "{\"type\":\""@ + role_name(description.sdp_type) + "\",\"sdp\":\""@ + escaped(description.sdp)
        + "\"}"@
}

/// The JSON form of the description, and the base64 form of that, fit into memory: JSON takes at
/// most six bytes for one.
pub open spec fn renderable(description: Description) -> bool {
    16 * encode_utf8(description.sdp).len() + 64 <= isize::MAX
}

/// The description that a line of base64 holds.
pub open spec fn offer_in(line: Seq<char>) -> Result<Description, OfferFault> {
    match crate::codec::decoded(line) {
        Ok(text) => description_in(text),
        Err(fault) => Err(OfferFault::Decode(fault)),
    }
}

/// The description that a JSON text holds.
pub open spec fn description_in(text: Seq<char>) -> Result<Description, OfferFault> {
    match json_parsed(text) {
        Ok(description) => Ok(description),
        Err(e) => Err(OfferFault::Json(e)),
    }
}

/// The line of base64 that tells a peer this description.
pub open spec fn response_for(description: Description) -> Seq<char> {
    crate::codec::encoded(json_rendered(description))
}

/// The text reads as this description.
pub open spec fn parses_to(text: Seq<char>, description: Description) -> bool {
    json_parsed(text) == Ok::<Description, serde_json::Error>(description)
}

/// `serde_json::from_str::<RTCSessionDescription>`: the named result, its role and its text, or its
/// error.
#[verifier::external_body]
fn from_json(text: &str) -> (r: Result<SessionDescription, serde_json::Error>)
    ensures
        match r {
            Ok(description) => parses_to(text@, description@),
            Err(e) => json_parsed(text@) == Err::<Description, serde_json::Error>(e),
        },
{
    let parsed = serde_json::from_str::<RTCSessionDescription>(text)?;
    let sdp_type = match parsed.sdp_type {
        RTCSdpType::Unspecified => SdpType::Unspecified,
        RTCSdpType::Offer => SdpType::Offer,
        RTCSdpType::Pranswer => SdpType::Pranswer,
        RTCSdpType::Answer => SdpType::Answer,
        RTCSdpType::Rollback => SdpType::Rollback,
    };
    Ok(SessionDescription { sdp_type, sdp: parsed.sdp })
}

/// `serde_json::to_string` on an `RTCSessionDescription` with the given role and text: it succeeds
/// with the JSON form of the two, without spaces, which `serde_json::from_str` reads as the same
/// description.
#[verifier::external_body]
fn to_json(description: &SessionDescription) -> (r: Result<String, serde_json::Error>)
    requires
        renderable(description@),
    ensures
        r is Ok,
        r matches Ok(text) ==> text@ == json_rendered(description@),
        r matches Ok(text) ==> parses_to(text@, description@),
{
    let mut outside = RTCSessionDescription::default();
    outside.sdp_type = match description.sdp_type {
        SdpType::Unspecified => RTCSdpType::Unspecified,
        SdpType::Offer => RTCSdpType::Offer,
        SdpType::Pranswer => RTCSdpType::Pranswer,
        SdpType::Answer => RTCSdpType::Answer,
        SdpType::Rollback => RTCSdpType::Rollback,
    };
    outside.sdp = description.sdp.clone();
    serde_json::to_string(&outside)
}

proof fn lemma_escaped_char_len(c: char)
    ensures
        encode_utf8(escaped_char(c)).len() <= 6 * encode_scalar(c as u32).len(),
{
    if escaped_char(c) =~= seq![c] {
        assert(seq![c].drop_first() =~= Seq::empty());
        assert(encode_utf8(Seq::empty()) =~= Seq::empty());
    } else {
        assert(is_ascii_chars(escaped_char(c)));
        is_ascii_chars_encode_utf8(escaped_char(c));
    }
}

/// Escaping takes at most six bytes for one.
proof fn lemma_escaped_len(text: Seq<char>)
    ensures
        encode_utf8(escaped(text)).len() <= 6 * encode_utf8(text).len(),
    decreases text.len(),
{
    if text.len() > 0 {
        lemma_escaped_char_len(text[0]);
        lemma_escaped_len(text.drop_first());
        lemma_utf8_concat(escaped_char(text[0]), escaped(text.drop_first()));
    }
}

proof fn lemma_rendered_len(description: Description)
    ensures
        encode_utf8(json_rendered(description)).len() <= 6 * encode_utf8(description.sdp).len()
            + 31,
{
    let open = "{\"type\":\""@;
    let role = role_name(description.sdp_type);
    let middle = "\",\"sdp\":\""@;
    let sdp = escaped(description.sdp);
    let close = "\"}"@;
    reveal_strlit("{\"type\":\"");
    reveal_strlit("\",\"sdp\":\"");
    reveal_strlit("\"}");
    reveal_strlit("Unspecified");
    reveal_strlit("offer");
    reveal_strlit("pranswer");
    reveal_strlit("answer");
    reveal_strlit("rollback");
    lemma_escaped_len(description.sdp);
    lemma_utf8_concat(open + role + middle + sdp, close);
    lemma_utf8_concat(open + role + middle, sdp);
    assert(is_ascii_chars(open + role + middle));
    is_ascii_chars_encode_utf8(open + role + middle);
    is_ascii_chars_encode_utf8(close);
}

/// Reads a description in its JSON form.
pub fn parse(text: &str) -> (r: Result<SessionDescription, OfferError>)
    ensures
        match r {
            Ok(description) => description_in(text@) == Ok::<Description, OfferFault>(
                description@,
            ),
            Err(e) => description_in(text@) == Err::<Description, OfferFault>(e@),
        },
        match r {
            Ok(description) => json_parsed(text@) == Ok::<Description, serde_json::Error>(
                description@,
            ),
            Err(OfferError::Json(e)) => json_parsed(text@) == Err::<
                Description,
                serde_json::Error,
            >(e),
            Err(_) => false,
        },
{
    match from_json(text) {
        Ok(description) => Ok(description),
        Err(e) => Err(OfferError::Json(e)),
    }
}

/// Reads the description that a peer sent as a line of base64.
pub fn read_offer(line: &str) -> (r: Result<SessionDescription, OfferError>)
    ensures
        match r {
            Ok(description) => offer_in(line@) == Ok::<Description, OfferFault>(description@),
            Err(e) => offer_in(line@) == Err::<Description, OfferFault>(e@),
        },
        forall|bytes: Seq<u8>| #[trigger]
            stands_for(line@, bytes) && valid_utf8(bytes) ==> match r {
                Ok(description) => json_parsed(decode_utf8(bytes)) == Ok::<
                    Description,
                    serde_json::Error,
                >(description@),
                Err(OfferError::Json(e)) => json_parsed(decode_utf8(bytes)) == Err::<
                    Description,
                    serde_json::Error,
                >(e),
                Err(_) => false,
            },
        r is Ok ==> is_base64(line@),
{
    proof {
        assert forall|bytes: Seq<u8>| #[trigger]
            stands_for(line@, bytes) && valid_utf8(bytes) implies crate::codec::decoded(line@) == Ok::<
            Seq<char>,
            DecodeFault,
        >(decode_utf8(bytes)) by {
            lemma_decoded(line@, bytes);
        }
    }
    match decode(line) {
        Ok(text) => parse(text.as_str()),
        Err(e) => Err(OfferError::Decode(e)),
    }
}

impl SessionDescription {
    /// Whether the description is short enough for [`render`](Self::render) and
    /// [`respond`](Self::respond).
    pub fn is_renderable(&self) -> (r: bool)
        ensures
            r == renderable(self@),
    {
        let len: usize = self.sdp.as_str().as_bytes().len();
        len <= (isize::MAX as usize - 64) / 16
    }

    /// The JSON form of the description.
    pub fn render(&self) -> (r: Result<String, serde_json::Error>)
        requires
            renderable(self@),
        ensures
            r matches Ok(text) && text@ == json_rendered(self@) && parses_to(text@, self@)
                && crate::codec::encodable(text@),
    {
        proof {
            lemma_rendered_len(self@);
        }
        to_json(self)
    }

    /// The line of base64 that tells the description to a peer.
    pub fn respond(&self) -> (r: Result<String, serde_json::Error>)
        requires
            renderable(self@),
        ensures
            r matches Ok(line) && line@ == response_for(self@) && offer_in(line@) == Ok::<
                Description,
                OfferFault,
            >(self@) && line@ == base64_encoded(encode_utf8(json_rendered(self@))),
    {
        match self.render() {
            Ok(text) => Ok(encode(text.as_str())),
            Err(e) => Err(e),
        }
    }
}

} // verus!
