use broadcast_context::description::{parse, OfferError, SdpType, SessionDescription};
use broadcast_context::engine::default_api;
use broadcast_context::peer::{Progress, Reply, Request, Turn};
use broadcast_context::recipient::{
    deliver, drain_rtcp, Delivery, HandleError, Recipient, RecipientError, RecipientLocalTrackMessage,
    RecipientResponse,
};
use std::sync::Arc;
use webrtc::media::rtp::rtp_codec::RTCRtpCodecCapability;
use webrtc::media::track::track_local::track_local_static_rtp::TrackLocalStaticRTP;

fn described(sdp_type: SdpType, sdp: &str) -> Reply {
    Reply::Described(SessionDescription { sdp_type, sdp: sdp.to_string() })
}

fn offer(sdp: &str) -> SessionDescription {
    SessionDescription { sdp_type: SdpType::Offer, sdp: sdp.to_string() }
}

fn track() -> Arc<TrackLocalStaticRTP> {
    Arc::new(TrackLocalStaticRTP::new(
        RTCRtpCodecCapability::default(),
        "video".to_string(),
        "webrtc-rs".to_string(),
    ))
}

fn name(request: &Request) -> &'static str {
    match request {
        Request::AddTrack(_) => "add track",
        Request::DrainRtcp(1500) => "drain",
        Request::WatchState => "watch state",
        Request::TakeOffer => "take offer",
        Request::SetRemoteDescription(_) => "set remote",
        Request::CreateAnswer => "create answer",
        Request::PromiseGathering => "promise gathering",
        Request::SetLocalDescription(_) => "set local",
        Request::AwaitGathering => "await gathering",
        Request::FetchLocalDescription => "fetch local",
        _ => "other",
    }
}

const STEPS: [&str; 10] = [
    "add track",
    "drain",
    "watch state",
    "take offer",
    "set remote",
    "create answer",
    "promise gathering",
    "set local",
    "await gathering",
    "fetch local",
];

/// Works on a message with a connection that does what it is asked but for one request.
fn work(
    at: &str,
    other: Option<Reply>,
) -> (Vec<&'static str>, Result<Delivery<&'static str>, HandleError>) {
    let track = track();
    let (mut handling, mut request) = Recipient::handle(RecipientLocalTrackMessage {
        address: "address",
        local_track: Arc::clone(&track),
    });
    let mut other = other;
    let mut requests = vec![];
    loop {
        requests.push(name(&request));
        let mut reply = match &request {
            Request::AddTrack(added) => {
                assert!(Arc::ptr_eq(added, &track));
                Reply::Done
            }
            Request::TakeOffer => Recipient::take_offer(Ok(Recipient { offer: offer("remote") })),
            Request::SetRemoteDescription(d) => {
                assert_eq!(d.sdp_type, SdpType::Offer);
                assert_eq!(d.sdp, "remote");
                Reply::Done
            }
            Request::CreateAnswer => described(SdpType::Answer, "answer"),
            Request::SetLocalDescription(d) => {
                assert_eq!(d.sdp, "answer");
                Reply::Done
            }
            Request::FetchLocalDescription => described(SdpType::Answer, "local"),
            _ => Reply::Done,
        };
        if name(&request) == at {
            if let Some(given) = other.take() {
                reply = given;
            }
        }
        assert!(request.admits(&reply));
        match handling.resume(reply) {
            Progress::Ask(next, asked) => {
                handling = next;
                request = asked;
            }
            Progress::Finish(end) => return (requests, end),
        }
    }
}

#[test]
fn a_recipient_responds_with_its_description() {
    let (requests, end) = work("", None);
    assert_eq!(requests, STEPS);
    let delivery = end.ok().unwrap();
    assert_eq!(delivery.address, "address");
    let RecipientResponse(json) = delivery.response;
    assert_eq!(json, "{\"type\":\"answer\",\"sdp\":\"local\"}");
    assert_eq!(parse(&json).unwrap().sdp, "local");
}

#[test]
fn the_first_failure_leaves_the_message_without_response() {
    for failing in ["add track", "set remote", "create answer", "set local"] {
        let (requests, end) = work(failing, Some(Reply::Failed(anyhow::Error::msg("failed"))));
        assert_eq!(requests.last(), Some(&failing));
        match end {
            Err(HandleError::Peer(e)) => assert_eq!(e.to_string(), "failed"),
            _ => panic!("another end"),
        }
    }
}

#[test]
fn a_shared_offer_cannot_be_taken() {
    let (requests, end) = work("take offer", Some(Reply::Undescribed));
    assert_eq!(requests, STEPS[..4]);
    assert!(matches!(end, Err(HandleError::OfferShared)));
}

#[test]
fn control_packets_are_read_until_a_read_fails() {
    assert_eq!(drain_rtcp(&Ok(12)), Turn::Again);
    assert_eq!(drain_rtcp(&Ok(0)), Turn::Again);
    assert_eq!(drain_rtcp(&Err(anyhow::Error::msg("closed"))), Turn::End);
}

#[test]
fn the_error_of_the_key_is_handed_on() {
    for key in ["", "{}", "{\"type\":\"offer\",\"sdp\":1}"] {
        let expected = match parse(key) {
            Err(OfferError::Json(e)) => e.to_string(),
            _ => panic!("read"),
        };
        match Recipient::new(key.to_string()) {
            Err(RecipientError::Offer(OfferError::Json(e))) => assert_eq!(e.to_string(), expected),
            _ => panic!("made"),
        }
    }
}

#[test]
fn the_offer_is_taken_by_its_only_holder() {
    match Recipient::take_offer(Arc::try_unwrap(Arc::new(Recipient { offer: offer("own") }))) {
        Reply::Described(taken) => {
            assert_eq!(taken.sdp_type, SdpType::Offer);
            assert_eq!(taken.sdp, "own");
        }
        _ => panic!("not taken"),
    }
    let held = Arc::new(Recipient { offer: offer("own") });
    let taken = Recipient::take_offer(Arc::try_unwrap(Arc::clone(&held)));
    assert!(matches!(taken, Reply::Undescribed));
}

#[test]
fn without_an_api_there_is_no_recipient() {
    match Recipient::new_with(offer("own"), Err(anyhow::Error::msg("clock"))) {
        Err(RecipientError::Codecs(e)) => assert_eq!(e.to_string(), "clock"),
        _ => panic!("made"),
    }
    let (recipient, request) = Recipient::new_with(offer("own"), default_api()).unwrap();
    assert_eq!(recipient.offer.sdp, "own");
    assert!(matches!(request, Request::Connect(_, _)));
}

#[test]
fn a_missing_local_description_is_an_error() {
    let (requests, end) = work("fetch local", Some(Reply::Undescribed));
    assert_eq!(requests, STEPS);
    assert!(matches!(end, Err(HandleError::NoLocalDescription)));
}

#[test]
fn a_recipient_is_made_from_the_json_form_of_an_offer() {
    let (recipient, request) =
        Recipient::new("{\"type\":\"offer\",\"sdp\":\"remote\"}".to_string()).unwrap();
    assert_eq!(recipient.offer.sdp_type, SdpType::Offer);
    assert_eq!(recipient.offer.sdp, "remote");
    match request {
        Request::Connect(_, config) => {
            assert_eq!(config.ice_servers[0].urls[0], "stun:stun.l.google.com:19302")
        }
        _ => panic!("another request"),
    }
}

#[test]
fn a_key_that_is_no_offer_is_refused() {
    for key in ["", "{}", "eyJ0eXBlIjoib2ZmZXIifQ=="] {
        assert!(matches!(
            Recipient::new(key.to_string()),
            Err(RecipientError::Offer(OfferError::Json(_)))
        ));
    }
}

#[test]
fn a_response_goes_to_its_address() {
    let local = SessionDescription { sdp_type: SdpType::Answer, sdp: "v=0".to_string() };
    let delivery = deliver(3u8, &local).ok().unwrap();
    assert_eq!(delivery.address, 3);
    assert_eq!(delivery.response.0, "{\"type\":\"answer\",\"sdp\":\"v=0\"}");
}
