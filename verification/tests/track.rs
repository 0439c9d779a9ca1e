use broadcast_context::track::{
    on_track, write_error_report, ForwardEvent, ForwardStep, Forwarding, KeyframeEvent,
    KeyframeRequest, KeyframeStep, Keyframes,
};
use std::sync::Arc;
use webrtc::error::Error;
use webrtc::media::rtp::rtp_codec::RTCRtpCodecCapability;
use webrtc::media::track::track_local::track_local_static_rtp::TrackLocalStaticRTP;
use webrtc::media::track::track_local::TrackLocal;

fn codec() -> RTCRtpCodecCapability {
    RTCRtpCodecCapability {
        mime_type: "video/VP8".to_string(),
        clock_rate: 90000,
        channels: 0,
        sdp_fmtp_line: "".to_string(),
        rtcp_feedback: vec![],
    }
}

const REQUEST: KeyframeRequest = KeyframeRequest { sender_ssrc: 0, media_ssrc: 42 };

#[test]
fn keyframes_are_asked_for_every_three_seconds_until_that_fails() {
    let (mut keyframes, mut step) = Keyframes::new(42);
    for _ in 0..5 {
        assert_eq!(step, KeyframeStep::Sleep(3));
        assert!(step.admits(&KeyframeEvent::Elapsed));
        assert!(!step.admits(&KeyframeEvent::Sent(12)));
        let (next, send) = keyframes.resume(KeyframeEvent::Elapsed).unwrap();
        assert_eq!(send, KeyframeStep::Send(REQUEST));
        assert!(send.admits(&KeyframeEvent::Sent(12)));
        assert!(!send.admits(&KeyframeEvent::Elapsed));
        (keyframes, step) = next.resume(KeyframeEvent::Sent(12)).unwrap();
    }
    let (keyframes, _) = keyframes.resume(KeyframeEvent::Elapsed).unwrap();
    assert!(keyframes.resume(KeyframeEvent::Failed(anyhow::Error::msg("closed"))).is_none());
}

/// A forwarder that is about to read.
fn reading() -> (Forwarding<u32>, ForwardStep<u32>) {
    let (forwarding, step) = Forwarding::new();
    assert!(matches!(step, ForwardStep::FetchCodec));
    let (forwarding, _) = forwarding.resume(ForwardEvent::Codec(codec())).next.unwrap();
    forwarding.resume(ForwardEvent::Announced).next.unwrap()
}

#[test]
fn a_local_track_with_the_codec_is_announced_first() {
    let (forwarding, step) = Forwarding::<u32>::new();
    assert!(step.admits(&ForwardEvent::Codec(codec())));
    assert!(!step.admits(&ForwardEvent::Announced));
    let forwarded = forwarding.resume(ForwardEvent::Codec(codec()));
    assert!(forwarded.report.is_none());
    match forwarded.next {
        Some((_, ForwardStep::Announce(message))) => {
            assert_eq!(message.local_track.codec(), codec());
            assert_eq!(message.local_track.id(), "video");
            assert_eq!(message.local_track.stream_id(), "webrtc-rs");
        }
        _ => panic!("not announced"),
    }
}

#[test]
fn packets_are_written_as_they_are_read() {
    let (mut forwarding, mut step) = reading();
    let mut written = vec![];
    for packet in [3u32, 1, 4, 1, 5] {
        assert!(matches!(step, ForwardStep::Read));
        assert!(step.admits(&ForwardEvent::Packet(packet)));
        let (next, write) = forwarding.resume(ForwardEvent::Packet(packet)).next.unwrap();
        assert!(write.admits(&ForwardEvent::Written));
        match write {
            ForwardStep::Write(_, packet) => written.push(packet),
            _ => panic!("not written"),
        }
        (forwarding, step) = next.resume(ForwardEvent::Written).next.unwrap();
    }
    assert_eq!(written, vec![3, 1, 4, 1, 5]);
}

/// A forwarder that is about to read, and the local track that it announced.
fn announced() -> (Forwarding<u32>, Arc<TrackLocalStaticRTP>) {
    let (forwarding, _) = Forwarding::new();
    match forwarding.resume(ForwardEvent::Codec(codec())).next {
        Some((forwarding, ForwardStep::Announce(message))) => {
            let (forwarding, _) = forwarding.resume(ForwardEvent::Announced).next.unwrap();
            (forwarding, message.local_track)
        }
        _ => panic!("not announced"),
    }
}

/// The local track that the packet is to be written to.
fn target(forwarding: Forwarding<u32>, packet: u32) -> (Forwarding<u32>, Arc<TrackLocalStaticRTP>) {
    match forwarding.resume(ForwardEvent::Packet(packet)).next {
        Some((forwarding, ForwardStep::Write(track, written))) => {
            assert_eq!(written, packet);
            (forwarding, track)
        }
        _ => panic!("not written"),
    }
}

#[test]
fn packets_go_to_the_announced_track() {
    let (mut forwarding, track) = announced();
    for packet in [3u32, 1, 4] {
        let (next, written_to) = target(forwarding, packet);
        assert!(Arc::ptr_eq(&track, &written_to));
        forwarding = next.resume(ForwardEvent::Written).next.unwrap().0;
    }
}

#[test]
fn two_tracks_do_not_meet() {
    let first = on_track::<u32>(Some(1)).unwrap();
    let second = on_track::<u32>(Some(2)).unwrap();
    let (keyframes, _) = first.keyframes.0.resume(KeyframeEvent::Elapsed).unwrap();
    assert!(keyframes.resume(KeyframeEvent::Failed(anyhow::Error::msg("closed"))).is_none());
    match second.keyframes.0.resume(KeyframeEvent::Elapsed) {
        Some((_, KeyframeStep::Send(request))) => assert_eq!(request.media_ssrc, 2),
        _ => panic!("not asked"),
    }
    let (one, one_track) = announced();
    let (other, other_track) = announced();
    assert!(!Arc::ptr_eq(&one_track, &other_track));
    assert!(one.resume(ForwardEvent::ReadFailed).next.is_none());
    let (_, written_to) = target(other, 7);
    assert!(Arc::ptr_eq(&other_track, &written_to));
}

#[test]
fn a_failed_read_is_the_end() {
    let (forwarding, step) = reading();
    assert!(step.admits(&ForwardEvent::ReadFailed));
    let forwarded = forwarding.resume(ForwardEvent::ReadFailed);
    assert!(forwarded.next.is_none());
    assert!(forwarded.report.is_none());
}

/// What comes of a write that fails with the error.
fn failed_write(error: anyhow::Error) -> (Option<String>, bool) {
    let (forwarding, _) = reading();
    let (forwarding, step) = forwarding.resume(ForwardEvent::Packet(9)).next.unwrap();
    let event = ForwardEvent::write_failed(error);
    assert!(step.admits(&event));
    let forwarded = forwarding.resume(event);
    (forwarded.report, matches!(forwarded.next, Some((_, ForwardStep::Read))))
}

#[test]
fn a_closed_pipe_is_reported_and_reading_goes_on() {
    let (report, goes_on) = failed_write(anyhow::Error::new(Error::ErrClosedPipe));
    assert_eq!(
        report.unwrap(),
        "output track write_rtp got error: DataChannel is not opened"
    );
    assert!(goes_on);
}

#[test]
fn another_failed_write_is_reported_and_the_end() {
    let (report, goes_on) = failed_write(anyhow::Error::new(Error::ErrUnsupportedCodec));
    assert!(report.unwrap().ends_with(" and break"));
    assert!(!goes_on);
    let (report, goes_on) = failed_write(anyhow::Error::msg("gone"));
    assert_eq!(report.unwrap(), "output track write_rtp got error: gone and break");
    assert!(!goes_on);
}

#[test]
fn whether_the_pipe_was_closed_decides() {
    let (forwarding, _) = reading();
    let forwarded = forwarding.failed_write("e", true);
    assert_eq!(forwarded.report.unwrap(), "output track write_rtp got error: e");
    assert!(matches!(forwarded.next, Some((_, ForwardStep::Read))));
    let (forwarding, _) = reading();
    let forwarded = forwarding.failed_write("e", false);
    assert_eq!(forwarded.report.unwrap(), "output track write_rtp got error: e and break");
    assert!(forwarded.next.is_none());
}

#[test]
fn reports_name_the_error() {
    assert_eq!(write_error_report("x", true), "output track write_rtp got error: x");
    assert_eq!(write_error_report("x", false), "output track write_rtp got error: x and break");
}

#[test]
fn a_track_starts_both_tasks() {
    let tasks = on_track::<u32>(Some(42)).unwrap();
    assert_eq!(tasks.keyframes.1, KeyframeStep::Sleep(3));
    let (_, send) = tasks.keyframes.0.resume(KeyframeEvent::Elapsed).unwrap();
    assert_eq!(send, KeyframeStep::Send(REQUEST));
    assert!(matches!(tasks.forwarding.1, ForwardStep::FetchCodec));
}

#[test]
fn no_track_starts_nothing() {
    assert!(on_track::<u32>(None).is_none());
}
