use broadcast_context::broadcast::{ActorState, SetupError};
use broadcast_context::description::{read_offer, OfferError, SdpType, SessionDescription};
use broadcast_context::engine::default_api;
use broadcast_context::peer::{MediaKind, Progress, Reply, Request, Turn};
use broadcast_context::{decode, encode, BroadcastContext, BroadcastContextFuture};

fn offer_line() -> String {
    encode("{\"type\":\"offer\",\"sdp\":\"remote\"}")
}

fn answer(sdp: &str) -> Reply {
    Reply::Described(SessionDescription { sdp_type: SdpType::Answer, sdp: sdp.to_string() })
}

fn failure() -> Reply {
    Reply::Failed(anyhow::Error::msg("peer failed"))
}

fn name(request: &Request) -> &'static str {
    match request {
        Request::Connect(_, _) => "connect",
        Request::AddTransceiver(MediaKind::Video) => "add video transceiver",
        Request::AddTransceiver(_) => "add transceiver",
        Request::WatchTracks => "watch tracks",
        Request::WatchState => "watch state",
        Request::SetRemoteDescription(_) => "set remote",
        Request::CreateAnswer => "create answer",
        Request::PromiseGathering => "promise gathering",
        Request::SetLocalDescription(_) => "set local",
        Request::AwaitGathering => "await gathering",
        Request::FetchLocalDescription => "fetch local",
        Request::SpawnStream => "spawn stream",
        _ => "other",
    }
}

/// The reply of a connection that does what it is asked.
fn good_reply(request: &Request) -> Reply {
    match request {
        Request::CreateAnswer => answer("answer"),
        Request::FetchLocalDescription => answer("local"),
        _ => Reply::Done,
    }
}

/// Sets up the line with a connection that fails at the given request, and returns the requests.
fn set_up(
    line: &str,
    failing: Option<&str>,
) -> (Vec<&'static str>, Result<String, SetupError>) {
    let (mut future, mut request) = BroadcastContextFuture::setup(line);
    let mut requests = vec![];
    loop {
        requests.push(name(&request));
        match &request {
            Request::SetRemoteDescription(d) => assert_eq!(d.sdp, "remote"),
            Request::SetLocalDescription(d) => assert_eq!(d.sdp, "answer"),
            _ => {}
        }
        let reply = if failing == Some(name(&request)) { failure() } else { good_reply(&request) };
        assert!(request.admits(&reply));
        match future.resume(reply) {
            Progress::Ask(next, asked) => {
                future = next;
                request = asked;
            }
            Progress::Finish(end) => return (requests, end),
        }
    }
}

const STEPS: [&str; 9] = [
    "add video transceiver",
    "watch tracks",
    "set remote",
    "watch state",
    "create answer",
    "promise gathering",
    "set local",
    "await gathering",
    "fetch local",
];

#[test]
fn an_offer_is_answered_with_the_local_description() {
    let (requests, end) = set_up(&offer_line(), None);
    assert_eq!(requests, STEPS);
    let response = end.unwrap();
    assert_eq!(decode(&response).unwrap(), "{\"type\":\"answer\",\"sdp\":\"local\"}");
    assert_eq!(response, "eyJ0eXBlIjoiYW5zd2VyIiwic2RwIjoibG9jYWwifQ==");
    assert_eq!(read_offer(&response).unwrap().sdp, "local");
}

#[test]
fn the_first_failure_ends_the_setup() {
    for (at, step) in STEPS.iter().enumerate() {
        if !["add video transceiver", "set remote", "create answer", "set local"].contains(step) {
            continue;
        }
        let (requests, end) = set_up(&offer_line(), Some(step));
        assert_eq!(requests, STEPS[..=at]);
        match end {
            Err(SetupError::Peer(e)) => assert_eq!(e.to_string(), "peer failed"),
            _ => panic!("another end"),
        }
    }
}

#[test]
fn a_bad_line_is_found_after_the_handler_of_tracks_is_registered() {
    let (requests, end) = set_up("not base64", None);
    assert_eq!(requests, STEPS[..2]);
    assert!(matches!(end, Err(SetupError::Offer(OfferError::Decode(_)))));
    let (requests, end) = set_up(&encode("no json"), None);
    assert_eq!(requests, STEPS[..2]);
    assert!(matches!(end, Err(SetupError::Offer(OfferError::Json(_)))));
}

#[test]
fn the_offer_read_becomes_the_remote_description() {
    match BroadcastContextFuture::set_remote_description(read_offer(&offer_line())) {
        Ok(Request::SetRemoteDescription(d)) => {
            assert_eq!(d.sdp_type, SdpType::Offer);
            assert_eq!(d.sdp, "remote");
        }
        _ => panic!("no request"),
    }
    assert!(matches!(
        BroadcastContextFuture::set_remote_description(read_offer("aGVsbG8=")),
        Err(SetupError::Offer(OfferError::Json(_)))
    ));
}

#[test]
fn the_response_tells_the_local_description() {
    let local = SessionDescription { sdp_type: SdpType::Answer, sdp: "v=0".to_string() };
    let response = BroadcastContextFuture::get_response(&local).unwrap();
    assert_eq!(decode(&response).unwrap(), "{\"type\":\"answer\",\"sdp\":\"v=0\"}");
}

#[test]
fn a_connection_is_opened_first() {
    assert!(matches!(BroadcastContextFuture::new(), Ok(Request::Connect(_, _))));
}

#[test]
fn without_an_api_nothing_is_opened() {
    let api = Err(anyhow::Error::msg("clock"));
    let connecting = BroadcastContextFuture::connect_with(api);
    assert_eq!(connecting.as_ref().err().unwrap().to_string(), "clock");
    let opening = BroadcastContext::open_with(offer_line(), 7u32, connecting);
    assert_eq!(opening.err().unwrap().to_string(), "clock");
}

#[test]
fn an_api_opens_its_connection() {
    let connecting = BroadcastContextFuture::connect_with(default_api());
    match BroadcastContext::open_with(offer_line(), 7u32, connecting) {
        Ok((opening, request)) => {
            assert_eq!(name(&request), "connect");
            match opening.resume(Reply::Done) {
                Progress::Ask(_, asked) => assert_eq!(name(&asked), "add video transceiver"),
                Progress::Finish(_) => panic!("over"),
            }
        }
        Err(_) => panic!("not opened"),
    }
}

fn open(
    line: &str,
    failing: Option<&str>,
) -> (Vec<&'static str>, Result<(u32, String), SetupError>) {
    let (mut opening, mut request) =
        BroadcastContext::create_with_addr(line.to_string(), 7u32).unwrap();
    let mut requests = vec![];
    loop {
        requests.push(name(&request));
        let reply = if failing == Some(name(&request)) { failure() } else { good_reply(&request) };
        assert!(request.admits(&reply));
        match opening.resume(reply) {
            Progress::Ask(next, asked) => {
                opening = next;
                request = asked;
            }
            Progress::Finish(end) => return (requests, end),
        }
    }
}

#[test]
fn the_stream_is_started_last() {
    let (requests, end) = open(&offer_line(), None);
    assert_eq!(requests[0], "connect");
    assert_eq!(requests[1..10], STEPS);
    assert_eq!(requests[10], "spawn stream");
    assert_eq!(requests.len(), 11);
    let (address, response) = end.unwrap();
    assert_eq!(address, 7);
    assert_eq!(read_offer(&response).unwrap().sdp, "local");
}

#[test]
fn the_stream_is_not_started_after_a_failure() {
    for failing in ["connect", "add video transceiver", "set remote", "create answer", "set local"]
    {
        let (requests, end) = open(&offer_line(), Some(failing));
        assert_eq!(requests.last(), Some(&failing));
        assert!(!requests.contains(&"spawn stream"));
        assert!(matches!(end, Err(SetupError::Peer(_))));
    }
    let (requests, end) = open("%%%%", None);
    assert!(!requests.contains(&"spawn stream"));
    assert!(matches!(end, Err(SetupError::Offer(_))));
}

#[test]
fn a_context_waits_for_futures_and_once_the_actor_ends() {
    let waiting = |parts_waiting, state| BroadcastContext { parts_waiting, state }.waiting();
    assert!(!waiting(false, ActorState::Started));
    assert!(!waiting(false, ActorState::Running));
    assert!(waiting(false, ActorState::Stopping));
    assert!(waiting(false, ActorState::Stopped));
    assert!(waiting(true, ActorState::Running));
    assert!(waiting(true, ActorState::Stopped));
}

#[test]
fn the_stream_is_polled_until_it_ends() {
    assert_eq!(BroadcastContextFuture::poll_again(Some(())), Turn::Again);
    assert_eq!(BroadcastContextFuture::poll_again(None), Turn::End);
    let mut polls = 0;
    for alive in [true, true, true, false, true] {
        let polled = BroadcastContextFuture::poll_next(alive);
        polls += 1;
        if BroadcastContextFuture::poll_again(polled.item) == Turn::End {
            break;
        }
    }
    assert_eq!(polls, 4);
}

#[test]
fn the_stream_lasts_as_long_as_the_actor() {
    let polled = BroadcastContextFuture::poll_next(true);
    assert!(polled.poll_actor);
    assert_eq!(polled.item, Some(()));
    let polled = BroadcastContextFuture::poll_next(false);
    assert!(!polled.poll_actor);
    assert_eq!(polled.item, None);
}
