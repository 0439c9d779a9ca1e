use broadcast_context::codec::{Base64Error, DecodeError};
use broadcast_context::description::{
    parse, read_offer, OfferError, SdpType, SessionDescription,
};
use broadcast_context::{decode, encode};

fn description(sdp_type: SdpType, sdp: &str) -> SessionDescription {
    SessionDescription { sdp_type, sdp: sdp.to_string() }
}

#[test]
fn each_role_has_its_json_form() {
    let cases = vec![
        (SdpType::Offer, "{\"type\":\"offer\",\"sdp\":\"sdp\"}"),
        (SdpType::Pranswer, "{\"type\":\"pranswer\",\"sdp\":\"sdp\"}"),
        (SdpType::Answer, "{\"type\":\"answer\",\"sdp\":\"sdp\"}"),
        (SdpType::Rollback, "{\"type\":\"rollback\",\"sdp\":\"sdp\"}"),
        (SdpType::Unspecified, "{\"type\":\"Unspecified\",\"sdp\":\"sdp\"}"),
    ];
    for (sdp_type, json) in cases {
        assert_eq!(description(sdp_type, "sdp").render().unwrap(), json);
        let read = parse(json).unwrap();
        assert_eq!(read.sdp_type, sdp_type);
        assert_eq!(read.sdp, "sdp");
    }
}

#[test]
fn rendering_escapes_and_parsing_undoes_it() {
    let sdp = "v=0\r\ns=\"a\\b\"\u{1}ü🎥";
    let json = description(SdpType::Answer, sdp).render().unwrap();
    assert_eq!(json, "{\"type\":\"answer\",\"sdp\":\"v=0\\r\\ns=\\\"a\\\\b\\\"\\u0001ü🎥\"}");
    let read = parse(&json).unwrap();
    assert_eq!(read.sdp_type, SdpType::Answer);
    assert_eq!(read.sdp, sdp);
}

#[test]
fn control_characters_have_their_escapes() {
    let json = description(SdpType::Offer, "\u{8}\t\n\u{c}\r\u{0}\u{b}\u{1f}/\u{7f}").render().unwrap();
    assert_eq!(
        json,
        "{\"type\":\"offer\",\"sdp\":\"\\b\\t\\n\\f\\r\\u0000\\u000b\\u001f/\u{7f}\"}"
    );
}

#[test]
fn what_is_no_description_is_refused() {
    for text in [
        "",
        "offer",
        "{}",
        "{\"type\":\"offer\"}",
        "{\"sdp\":\"sdp\"}",
        "{\"type\":\"proposal\",\"sdp\":\"sdp\"}",
        "{\"type\":\"offer\",\"sdp\":1}",
        "{\"type\":\"offer\",\"sdp\":\"sdp\"} x",
    ] {
        assert!(matches!(parse(text), Err(OfferError::Json(_))), "{}", text);
    }
}

#[test]
fn further_fields_are_passed_over() {
    let read = parse("{ \"sdp\": \"s\", \"extra\": [1, 2], \"type\": \"offer\" }").unwrap();
    assert_eq!(read.sdp_type, SdpType::Offer);
    assert_eq!(read.sdp, "s");
}

#[test]
fn an_offer_is_read_from_its_line() {
    let line = encode("{\"type\":\"offer\",\"sdp\":\"v=0\\r\\n\"}");
    let read = read_offer(&line).unwrap();
    assert_eq!(read.sdp_type, SdpType::Offer);
    assert_eq!(read.sdp, "v=0\r\n");
}

#[test]
fn a_line_without_an_offer_is_refused() {
    assert!(matches!(
        read_offer("%"),
        Err(OfferError::Decode(DecodeError::Base64(Base64Error::InvalidByte(0, b'%'))))
    ));
    assert!(matches!(read_offer("/w=="), Err(OfferError::Decode(DecodeError::Utf8(_)))));
    assert!(matches!(read_offer("aGVsbG8="), Err(OfferError::Json(_))));
}

#[test]
fn a_response_is_read_back_by_the_peer() {
    let local = description(SdpType::Answer, "v=0\r\na=candidate:1\r\n");
    let line = local.respond().unwrap();
    assert_eq!(decode(&line).unwrap(), local.render().unwrap());
    let read = read_offer(&line).unwrap();
    assert_eq!(read.sdp_type, SdpType::Answer);
    assert_eq!(read.sdp, local.sdp);
}

#[test]
fn ordinary_descriptions_are_renderable() {
    assert!(description(SdpType::Answer, "").is_renderable());
    assert!(description(SdpType::Answer, &"x".repeat(100000)).is_renderable());
}
