use broadcast_context::answer::{Answered, Answering};
use broadcast_context::description::{SdpType, SessionDescription};
use broadcast_context::engine::{api_with, default_api};
use broadcast_context::peer::{
    configuration, connect, state_report, ConnectionState, MediaKind, Progress, Reply, Request,
};
use webrtc::api::media_engine::MediaEngine;
use webrtc::media::rtp::rtp_codec::RTPCodecType;
use webrtc::peer::configuration::RTCConfiguration;

fn description(sdp: &str) -> SessionDescription {
    SessionDescription { sdp_type: SdpType::Answer, sdp: sdp.to_string() }
}

/// The offer that a connection of the API makes for video.
fn video_offer(api: webrtc::api::API) -> String {
    let runtime = tokio::runtime::Builder::new_current_thread().enable_all().build().unwrap();
    runtime.block_on(async {
        let connection = api.new_peer_connection(RTCConfiguration::default()).await.unwrap();
        connection.add_transceiver_from_kind(RTPCodecType::Video, &[]).await.unwrap();
        connection.add_transceiver_from_kind(RTPCodecType::Audio, &[]).await.unwrap();
        let offer = connection.create_offer(None).await.unwrap();
        connection.close().await.unwrap();
        offer.sdp
    })
}

#[test]
fn connections_offer_the_default_codecs() {
    let sdp = video_offer(default_api().unwrap());
    for codec in [
        "a=rtpmap:96 VP8/90000",
        "a=rtpmap:98 VP9/90000",
        "a=rtpmap:102 H264/90000",
        "a=rtpmap:123 H264/90000",
        "a=rtpmap:116 ulpfec/90000",
        "a=rtpmap:111 opus/48000/2",
        "a=rtpmap:9 G722/8000",
        "a=rtpmap:0 PCMU/8000",
        "a=rtpmap:8 PCMA/8000",
    ] {
        assert!(sdp.contains(codec), "{} in {}", codec, sdp);
    }
    // The codec's own feedback is joined by that of the default interceptors.
    assert_eq!(sdp.matches("a=rtcp-fb:96 nack pli").count(), 2);
    assert_eq!(sdp.matches("a=rtcp-fb:96 ccm fir").count(), 1);
    assert_eq!(sdp.matches("a=rtcp-fb:96 goog-remb").count(), 1);
    assert_eq!(sdp.matches("a=rtcp-fb:97 nack pli").count(), 1);
    assert_eq!(sdp.matches("a=rtcp-fb:97 ccm fir").count(), 0);
    assert_eq!(sdp.matches("a=rtcp-fb:111 nack").count(), 0);
}

#[test]
fn an_api_keeps_the_codecs_of_its_engine() {
    let mut engine = MediaEngine::default();
    engine.register_default_codecs().unwrap();
    let sdp = video_offer(api_with(engine, Ok(())).unwrap());
    assert!(sdp.contains("a=rtpmap:96 VP8/90000"));
}

#[test]
fn unregistered_codecs_end_in_their_error() {
    let failed = api_with(MediaEngine::default(), Err(anyhow::Error::msg("clock")));
    assert_eq!(failed.err().unwrap().to_string(), "clock");
}

#[test]
fn one_stun_server_is_configured() {
    let config = configuration();
    assert_eq!(config.ice_servers.len(), 1);
    assert_eq!(config.ice_servers[0].urls, vec!["stun:stun.l.google.com:19302"]);
}

#[test]
fn connections_are_opened_with_the_configuration() {
    match connect(default_api().unwrap()) {
        Request::Connect(_, config) => {
            assert_eq!(config.ice_servers[0].urls[0], "stun:stun.l.google.com:19302")
        }
        _ => panic!("another request"),
    }
}

#[test]
fn requests_admit_their_replies_only() {
    let failed = Reply::Failed(anyhow::Error::msg("failed"));
    let described = Reply::Described(description("sdp"));
    let adding = Request::AddTransceiver(MediaKind::Video);
    assert!(adding.admits(&Reply::Done));
    assert!(adding.admits(&failed));
    assert!(!adding.admits(&described));
    assert!(!adding.admits(&Reply::Undescribed));
    assert!(Request::WatchTracks.admits(&Reply::Done));
    assert!(!Request::WatchTracks.admits(&failed));
    assert!(Request::CreateAnswer.admits(&described));
    assert!(Request::CreateAnswer.admits(&failed));
    assert!(!Request::CreateAnswer.admits(&Reply::Done));
    assert!(Request::TakeOffer.admits(&described));
    assert!(Request::TakeOffer.admits(&Reply::Undescribed));
    assert!(!Request::TakeOffer.admits(&failed));
    assert!(Request::FetchLocalDescription.admits(&described));
    assert!(Request::FetchLocalDescription.admits(&Reply::Undescribed));
    assert!(!Request::FetchLocalDescription.admits(&Reply::Done));
}

#[test]
fn a_change_of_state_is_reported() {
    for (state, name) in [
        (ConnectionState::Unspecified, "Unspecified"),
        (ConnectionState::New, "new"),
        (ConnectionState::Connecting, "connecting"),
        (ConnectionState::Connected, "connected"),
        (ConnectionState::Disconnected, "disconnected"),
        (ConnectionState::Failed, "failed"),
        (ConnectionState::Closed, "closed"),
    ] {
        let report = format!("Peer Connection State has changed: {}\n", name);
        assert_eq!(state_report(state), report);
    }
}

fn ask<M, T>(progress: Progress<M, T>) -> (M, Request) {
    match progress {
        Progress::Ask(machine, request) => (machine, request),
        Progress::Finish(_) => panic!("over"),
    }
}

#[test]
fn an_answer_is_created_installed_and_fetched() {
    let (answering, request) = Answering::create_answer();
    assert!(matches!(request, Request::CreateAnswer));
    let (answering, request) = ask(answering.resume(Reply::Described(description("answer"))));
    assert!(matches!(request, Request::PromiseGathering));
    let (answering, request) = ask(answering.resume(Reply::Done));
    match request {
        Request::SetLocalDescription(answer) => assert_eq!(answer.sdp, "answer"),
        _ => panic!("another request"),
    }
    let (answering, request) = ask(answering.resume(Reply::Done));
    assert!(matches!(request, Request::AwaitGathering));
    let (answering, request) = ask(answering.resume(Reply::Done));
    assert!(matches!(request, Request::FetchLocalDescription));
    match answering.resume(Reply::Described(description("local"))) {
        Progress::Finish(Answered::Local(local)) => assert_eq!(local.sdp, "local"),
        _ => panic!("no description"),
    }
}

#[test]
fn a_failed_answer_is_over() {
    let (answering, _) = Answering::create_answer();
    match answering.resume(Reply::Failed(anyhow::Error::msg("no answer"))) {
        Progress::Finish(Answered::Failed(e)) => assert_eq!(e.to_string(), "no answer"),
        _ => panic!("goes on"),
    }
}

#[test]
fn an_answered_connection_may_lack_a_description() {
    let (answering, _) = Answering::create_answer();
    let (answering, _) = ask(answering.resume(Reply::Described(description("answer"))));
    let (answering, _) = ask(answering.resume(Reply::Done));
    let (answering, _) = ask(answering.resume(Reply::Done));
    let (answering, _) = ask(answering.resume(Reply::Done));
    assert!(matches!(answering.resume(Reply::Undescribed), Progress::Finish(Answered::Missing)));
}
