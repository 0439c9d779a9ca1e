//! What a peer connection is asked to do, and what it can reply.

use crate::description::{renderable, Description, SessionDescription};
use crate::engine::{
    api_codecs, api_feedback, api_interceptors, InterceptorKind, VideoFeedback,
};
use std::sync::Arc;
use vstd::prelude::*;
use webrtc::api::API;
use webrtc::media::track::track_local::track_local_static_rtp::TrackLocalStaticRTP;
use webrtc::peer::peer_connection_state::RTCPeerConnectionState;

verus! {

/// `webrtc`'s local track, to which packets are written.
#[verifier::external_type_specification]
#[verifier::external_body]
pub struct ExTrackLocalStaticRtp(TrackLocalStaticRTP);

/// A server that helps a peer to find its own address.
#[derive(Debug)]
pub struct IceServer {
    pub urls: Vec<String>,
}

/// How a connection is opened. Whatever is not named here keeps its default.
#[derive(Debug)]
pub struct Configuration {
    pub ice_servers: Vec<IceServer>,
}

impl View for IceServer {
    type V = Seq<Seq<char>>;

    open spec fn view(&self) -> Seq<Seq<char>> {
        self.urls@.map_values(|url: String| url@)
    }
}

impl View for Configuration {
    type V = Seq<Seq<Seq<char>>>;

    open spec fn view(&self) -> Seq<Seq<Seq<char>>> {
        self.ice_servers@.map_values(|server: IceServer| server@)
    }
}

/// One server with one address.
pub open spec fn default_servers() -> Seq<Seq<Seq<char>>> {
    seq![seq!["stun:stun.l.google.com:19302"@]]
}

/// The configuration that every connection is opened with.
pub fn configuration() -> (r: Configuration)
    ensures
        r@ == default_servers(),
        r.ice_servers@.len() == 1,
        r.ice_servers@[0].urls@.len() == 1,
        r.ice_servers@[0].urls@[0]@ == "stun:stun.l.google.com:19302"@,
{
    let mut urls: Vec<String> = Vec::new();
    urls.push("stun:stun.l.google.com:19302".to_owned());
    let server = IceServer { urls };
    assert(server@ =~= default_servers()[0]);
    let mut ice_servers: Vec<IceServer> = Vec::new();
    ice_servers.push(server);
    let config = Configuration { ice_servers };
    assert(config@ =~= default_servers());
    config
}

/// The kind of media that a transceiver carries.
#[derive(Debug, Clone, Copy, PartialEq, Eq, Structural)]
pub enum MediaKind {
    Audio,
    Video,
}

/// One thing to be done to or around a peer connection.
pub enum Request {
    /// Open the connection.
    Connect(API, Configuration),
    /// Add a transceiver, with no further settings.
    AddTransceiver(MediaKind),
    /// Register the handler of remote tracks.
    WatchTracks,
    /// Register the handler that reports the connection's state.
    WatchState,
    /// Add a local track.
    AddTrack(Arc<TrackLocalStaticRTP>),
    /// Start reading, into a buffer of this length, the control packets that come back for the
    /// added track, until a read fails.
    DrainRtcp(usize),
    /// Take the offer out of its shared place.
    TakeOffer,
    SetRemoteDescription(SessionDescription),
    CreateAnswer,
    /// Get the channel that tells when all candidates are gathered.
    PromiseGathering,
    SetLocalDescription(SessionDescription),
    /// Wait on that channel, whatever it delivers.
    AwaitGathering,
    FetchLocalDescription,
    /// Start polling the stream until it ends.
    SpawnStream,
}

/// How a request ended.
#[derive(Debug)]
pub enum Reply {
    Done,
    Failed(anyhow::Error),
    Described(SessionDescription),
    /// There is no description to be had.
    Undescribed,
}

/// A request as a mathematical value.
pub enum RequestView {
    Connect {
        codecs: Set<(Seq<char>, u8)>,
        feedback: VideoFeedback,
        interceptors: Seq<InterceptorKind>,
        servers: Seq<Seq<Seq<char>>>,
    },
    AddTransceiver(MediaKind),
    WatchTracks,
    WatchState,
    AddTrack(TrackLocalStaticRTP),
    DrainRtcp(usize),
    TakeOffer,
    SetRemoteDescription(Description),
    CreateAnswer,
    PromiseGathering,
    SetLocalDescription(Description),
    AwaitGathering,
    FetchLocalDescription,
    SpawnStream,
}

/// A reply as a mathematical value.
pub enum ReplyView {
    Done,
    Failed(anyhow::Error),
    Described(Description),
    Undescribed,
}

impl View for Request {
    type V = RequestView;

    open spec fn view(&self) -> RequestView {
        match *self {
            Request::Connect(api, config) => RequestView::Connect {
                codecs: api_codecs(api),
                feedback: api_feedback(api),
                interceptors: api_interceptors(api),
                servers: config@,
            },
            Request::AddTransceiver(kind) => RequestView::AddTransceiver(kind),
            Request::WatchTracks => RequestView::WatchTracks,
            Request::WatchState => RequestView::WatchState,
            Request::AddTrack(track) => RequestView::AddTrack(*track),
            Request::DrainRtcp(len) => RequestView::DrainRtcp(len),
            Request::TakeOffer => RequestView::TakeOffer,
            Request::SetRemoteDescription(d) => RequestView::SetRemoteDescription(d@),
            Request::CreateAnswer => RequestView::CreateAnswer,
            Request::PromiseGathering => RequestView::PromiseGathering,
            Request::SetLocalDescription(d) => RequestView::SetLocalDescription(d@),
            Request::AwaitGathering => RequestView::AwaitGathering,
            Request::FetchLocalDescription => RequestView::FetchLocalDescription,
            Request::SpawnStream => RequestView::SpawnStream,
        }
    }
}

impl View for Reply {
    type V = ReplyView;

    open spec fn view(&self) -> ReplyView {
        match *self {
            Reply::Done => ReplyView::Done,
            Reply::Failed(e) => ReplyView::Failed(e),
            Reply::Described(d) => ReplyView::Described(d@),
            Reply::Undescribed => ReplyView::Undescribed,
        }
    }
}

/// The replies that a request can get. A fetched description has to be short enough to be sent on.
pub open spec fn admits(request: RequestView, reply: ReplyView) -> bool {
    match request {
        RequestView::Connect { .. }
        | RequestView::AddTransceiver(_)
        | RequestView::AddTrack(_)
        | RequestView::SetRemoteDescription(_)
        | RequestView::SetLocalDescription(_) => reply is Done || reply is Failed,
        RequestView::CreateAnswer => reply is Described || reply is Failed,
        RequestView::TakeOffer => reply is Described || reply is Undescribed,
        RequestView::FetchLocalDescription => match reply {
            ReplyView::Described(d) => renderable(d),
            ReplyView::Undescribed => true,
            _ => false,
        },
        _ => reply is Done,
    }
}

impl Request {
    /// Whether the request can get the reply.
    pub fn admits(&self, reply: &Reply) -> (r: bool)
        ensures
            r == admits(self@, reply@),
    {
        match self {
            Request::Connect(_, _)
            | Request::AddTransceiver(_)
            | Request::AddTrack(_)
            | Request::SetRemoteDescription(_)
            | Request::SetLocalDescription(_) => match reply {
                Reply::Done => true,
                Reply::Failed(_) => true,
                _ => false,
            },
            Request::CreateAnswer => match reply {
                Reply::Described(_) => true,
                Reply::Failed(_) => true,
                _ => false,
            },
            Request::TakeOffer => match reply {
                Reply::Described(_) => true,
                Reply::Undescribed => true,
                _ => false,
            },
            Request::FetchLocalDescription => match reply {
                Reply::Described(d) => d.is_renderable(),
                Reply::Undescribed => true,
                _ => false,
            },
            _ => match reply {
                Reply::Done => true,
                _ => false,
            },
        }
    }
}

/// The request to open one of the API's connections.
pub fn connect(api: API) -> (r: Request)
    ensures
        r@ == (RequestView::Connect {
            codecs: api_codecs(api),
            feedback: api_feedback(api),
            interceptors: api_interceptors(api),
            servers: default_servers(),
        }),
{
    Request::Connect(api, configuration())
}

/// Where a negotiation stands after a reply: it asks for one thing more, or it is over.
pub enum Progress<M, T> {
    Ask(M, Request),
    Finish(T),
}

/// What a negotiation does next, as a mathematical value.
pub enum Next<T> {
    Ask(RequestView),
    Finish(T),
}

/// The reply is one that the negotiation is waiting for.
pub open spec fn awaits<T>(next: Next<T>, reply: ReplyView) -> bool {
    next matches Next::Ask(request) && admits(request, reply)
}

/// Whether a loop goes on after a turn.
#[derive(Debug, Clone, Copy, PartialEq, Eq, Structural)]
pub enum Turn {
    Again,
    End,
}

/// The state of a connection.
#[derive(Debug, Clone, Copy, PartialEq, Eq, Structural)]
pub enum ConnectionState {
    Unspecified,
    New,
    Connecting,
    Connected,
    Disconnected,
    Failed,
    Closed,
}

/// The word for a state.
pub open spec fn state_name(state: ConnectionState) -> Seq<char> {
    match state {
        ConnectionState::Unspecified => "Unspecified"@,
        ConnectionState::New => "new"@,
        ConnectionState::Connecting => "connecting"@,
        ConnectionState::Connected => "connected"@,
        ConnectionState::Disconnected => "disconnected"@,
        ConnectionState::Failed => "failed"@,
        ConnectionState::Closed => "closed"@,
    }
}

/// `RTCPeerConnectionState`'s `Display`: one word for each state.
#[verifier::external_body]
fn display_state(state: ConnectionState) -> (r: String)
    ensures
        r@ == state_name(state),
{
    let outside = match state {
        ConnectionState::Unspecified => RTCPeerConnectionState::Unspecified,
        ConnectionState::New => RTCPeerConnectionState::New,
        ConnectionState::Connecting => RTCPeerConnectionState::Connecting,
        ConnectionState::Connected => RTCPeerConnectionState::Connected,
        ConnectionState::Disconnected => RTCPeerConnectionState::Disconnected,
        ConnectionState::Failed => RTCPeerConnectionState::Failed,
        ConnectionState::Closed => RTCPeerConnectionState::Closed,
    };
    outside.to_string()
}

/// The report on a change of the connection's state.
pub fn state_report(state: ConnectionState) -> (r: String)
    ensures
        r@ == "Peer Connection State has changed: "@ + state_name(state) + "\n"@,
{
    let mut report = "Peer Connection State has changed: ".to_owned();
    report.append(display_state(state).as_str());
    report.append("\n");
    report
}

} // verus!
