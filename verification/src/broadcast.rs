//! The broadcaster: an actor context whose peer connection takes in the tracks to be broadcast.

use crate::answer::{answer_next, Answered, Answering};
use crate::codec::base64_encoded;
use crate::description::{
    json_rendered, offer_in, read_offer, renderable, response_for, Description, OfferError, OfferFault,
    SessionDescription,
};
use crate::engine::{
    api_codecs, api_feedback, api_interceptors, default_api, default_codecs, default_feedback,
    default_interceptors, with_nack,
};
use crate::peer::{
    awaits, connect, default_servers, MediaKind, Next, Progress, Reply, ReplyView, Request,
    RequestView, Turn,
};
use vstd::pervasive::unreached;
use vstd::prelude::*;
use vstd::utf8::encode_utf8;
use webrtc::api::API;

verus! {

/// The state of an actor's execution.
#[derive(Debug, Clone, Copy, PartialEq, Eq, Structural)]
pub enum ActorState {
    Started,
    Running,
    Stopping,
    Stopped,
}

/// What the parts of a broadcaster's actor context report.
#[derive(Debug, Clone, Copy)]
pub struct BroadcastContext {
    /// A future that the actor waits for is pending.
    pub parts_waiting: bool,
    pub state: ActorState,
}

/// Why a broadcast could not be set up.
#[derive(Debug)]
pub enum SetupError {
    /// The peer connection failed.
    Peer(anyhow::Error),
    /// The line holds no offer.
    Offer(OfferError),
    /// The response could not be written.
    Json(serde_json::Error),
}

/// Why a broadcast could not be set up, as a mathematical value.
pub enum SetupFault {
    Peer(anyhow::Error),
    Offer(OfferFault),
    Json(serde_json::Error),
}

impl View for SetupError {
    type V = SetupFault;

    open spec fn view(&self) -> SetupFault {
        match *self {
            SetupError::Peer(e) => SetupFault::Peer(e),
            SetupError::Offer(e) => SetupFault::Offer(e@),
            SetupError::Json(e) => SetupFault::Json(e),
        }
    }
}

/// The response to a line, or why there is none.
pub type SetupEnd = Result<Seq<char>, SetupFault>;

/// Opening a connection with the default codecs, interceptors and servers.
pub open spec fn connect_request() -> RequestView {
    RequestView::Connect {
        codecs: default_codecs(),
        feedback: with_nack(default_feedback()),
        interceptors: default_interceptors(),
        servers: default_servers(),
    }
}

/// What setting up a broadcast does once these replies have come: a video transceiver is added, the
/// handler of tracks is registered, the offer in the line becomes the remote description, the
/// handler of the state is registered, the offer is answered, and the local description is encoded
/// as the response. The first failure ends it.
pub open spec fn setup_next(line: Seq<char>, replies: Seq<ReplyView>) -> Next<SetupEnd> {
    if replies.len() > 0 && replies.last() is Failed {
        Next::Finish(Err(SetupFault::Peer(replies.last()->Failed_0)))
    } else if replies.len() == 0 {
        Next::Ask(RequestView::AddTransceiver(MediaKind::Video))
    } else if replies.len() == 1 {
        Next::Ask(RequestView::WatchTracks)
    } else if replies.len() == 2 {
        match offer_in(line) {
            Ok(offer) => Next::Ask(RequestView::SetRemoteDescription(offer)),
            Err(fault) => Next::Finish(Err(SetupFault::Offer(fault))),
        }
    } else if replies.len() == 3 {
        Next::Ask(RequestView::WatchState)
    } else {
        match answer_next(replies.skip(4)) {
            Next::Ask(request) => Next::Ask(request),
            Next::Finish(end) => Next::Finish(Ok(response_for(end->Local_0))),
        }
    }
}

/// What opening a broadcast does once these replies have come: the connection is opened, the
/// broadcast is set up, and only then the stream is started.
pub open spec fn opening_next(line: Seq<char>, replies: Seq<ReplyView>) -> Next<SetupEnd> {
    if replies.len() == 0 {
        Next::Ask(connect_request())
    } else if replies[0] is Failed {
        Next::Finish(Err(SetupFault::Peer(replies[0]->Failed_0)))
    } else if replies.len() <= 10 {
        match setup_next(line, replies.skip(1)) {
            Next::Finish(Ok(_)) => Next::Ask(RequestView::SpawnStream),
            next => next,
        }
    } else {
        setup_next(line, replies.subrange(1, 10))
    }
}

/// Each reply is one that setting up was waiting for, and the fetched description was there.
pub open spec fn setup_run(line: Seq<char>, replies: Seq<ReplyView>) -> bool
    decreases replies.len(),
{
    replies.len() == 0 || {
        &&& setup_run(line, replies.drop_last())
        &&& awaits(setup_next(line, replies.drop_last()), replies.last())
        &&& !(replies.last() is Undescribed)
    }
}

/// Each reply is one that opening was waiting for, and the fetched description was there.
pub open spec fn opening_run(line: Seq<char>, replies: Seq<ReplyView>) -> bool
    decreases replies.len(),
{
    replies.len() == 0 || {
        &&& opening_run(line, replies.drop_last())
        &&& awaits(opening_next(line, replies.drop_last()), replies.last())
        &&& !(replies.last() is Undescribed)
    }
}

/// The item that polling yields.
pub open spec fn polled_item(alive: bool) -> Option<()> {
    if alive {
        Some(())
    } else {
        None
    }
}

/// Whether the stream is polled on, once these items have come: until it has ended.
pub open spec fn stream_next(items: Seq<Option<()>>) -> Turn {
    if items.len() > 0 && items.last() is None {
        Turn::End
    } else {
        Turn::Again
    }
}

/// Each item comes after one upon which polling goes on.
pub open spec fn stream_run(items: Seq<Option<()>>) -> bool
    decreases items.len(),
{
    items.len() == 0 || {
        &&& stream_run(items.drop_last())
        &&& stream_next(items.drop_last()) == Turn::Again
    }
}

enum Stage {
    AddingTransceiver,
    WatchingTracks,
    SettingRemote,
    WatchingState,
    Answering(Answering),
}

/// A broadcast that is being set up for a line.
pub struct BroadcastContextFuture {
    line: String,
    stage: Stage,
    replies: Ghost<Seq<ReplyView>>,
}

/// What polling a broadcaster's stream comes to.
#[derive(Debug, Clone, Copy, PartialEq, Eq)]
pub struct Polled {
    /// The actor is polled once.
    pub poll_actor: bool,
    /// The item that the stream yields: it ends with `None`.
    pub item: Option<()>,
}

impl BroadcastContext {
    /// The context makes no progress: a future is waited for, or the actor is ending.
    pub fn waiting(&self) -> (r: bool)
        ensures
            r == (self.parts_waiting || self.state == ActorState::Stopping || self.state
                == ActorState::Stopped),
    {
        self.parts_waiting || self.state == ActorState::Stopping || self.state
            == ActorState::Stopped
    }

    /// Starts opening a broadcast for the line, under the context's address. An error is one of
    /// registering the codecs: whether it comes rests on the system clock, and
    /// [`open_with`](Self::open_with) says what it leads to.
    pub fn create_with_addr<A>(line: String, address: A) -> (r: Result<
        (Opening<A>, Request),
        anyhow::Error,
    >)
        ensures
            r matches Ok((opening, request)) ==> opening.line() == line@ && opening.address()
                == address && opening.replies() == Seq::<ReplyView>::empty() && opening_next(
                line@,
                Seq::empty(),
            ) == Next::<SetupEnd>::Ask(request@) && request@ == (RequestView::Connect {
                codecs: default_codecs(),
                feedback: with_nack(default_feedback()),
                interceptors: default_interceptors(),
                servers: seq![seq!["stun:stun.l.google.com:19302"@]],
            }),
    {
        Self::open_with(line, address, BroadcastContextFuture::new())
    }

    /// Starts opening a broadcast for the line, under the address, given the request that opens its
    /// connection or why there is none.
    pub fn open_with<A>(line: String, address: A, connecting: Result<Request, anyhow::Error>) -> (r:
        Result<(Opening<A>, Request), anyhow::Error>)
        ensures
            match connecting {
                Ok(request) => r matches Ok((opening, asked)) && asked == request && opening.line()
                    == line@ && opening.address() == address && opening.replies() == Seq::<
                    ReplyView,
                >::empty(),
                Err(e) => r == Err::<(Opening<A>, Request), anyhow::Error>(e),
            },
    {
        match connecting {
            Ok(request) => Ok(
                (
                    Opening { line, address, phase: Phase::Connecting, replies: Ghost(Seq::empty()) },
                    request,
                ),
            ),
            Err(e) => Err(e),
        }
    }
}

impl BroadcastContextFuture {
    pub closed spec fn line(&self) -> Seq<char> {
        self.line@
    }

    /// The replies that have come.
    pub closed spec fn replies(&self) -> Seq<ReplyView> {
        self.replies@
    }

    #[verifier::type_invariant]
    closed spec fn wf(self) -> bool {
        let replies = self.replies@;
        &&& setup_run(self.line@, replies)
        &&& setup_next(self.line@, replies) is Ask
        &&& match self.stage {
            Stage::AddingTransceiver => replies.len() == 0,
            Stage::WatchingTracks => replies.len() == 1,
            Stage::SettingRemote => replies.len() == 2,
            Stage::WatchingState => replies.len() == 3,
            Stage::Answering(answering) => replies.len() >= 4 && answering@ == replies.skip(4),
        }
    }

    /// How a broadcaster's connection is opened. An error is one of registering the codecs: whether
    /// it comes rests on the system clock, and [`connect_with`](Self::connect_with) says what it leads
    /// to.
    pub fn new() -> (r: Result<Request, anyhow::Error>)
        ensures
            r matches Ok(request) ==> request@ == connect_request() && request@ == (
            RequestView::Connect {
                codecs: default_codecs(),
                feedback: with_nack(default_feedback()),
                interceptors: default_interceptors(),
                servers: seq![seq!["stun:stun.l.google.com:19302"@]],
            }),
    {
        Self::connect_with(default_api())
    }

    /// The request that opens one of the API's connections, or why there is no API.
    pub fn connect_with(api: Result<API, anyhow::Error>) -> (r: Result<Request, anyhow::Error>)
        ensures
            match api {
                Ok(api) => r matches Ok(request) && request@ == (RequestView::Connect {
                    codecs: api_codecs(api),
                    feedback: api_feedback(api),
                    interceptors: api_interceptors(api),
                    servers: default_servers(),
                }),
                Err(e) => r == Err::<Request, anyhow::Error>(e),
            },
    {
        match api {
            Ok(api) => Ok(connect(api)),
            Err(e) => Err(e),
        }
    }

    /// Starts setting up the broadcast that the line offers.
    pub fn setup(line: &str) -> (r: (BroadcastContextFuture, Request))
        ensures
            r.0.line() == line@,
            r.0.replies() == Seq::<ReplyView>::empty(),
            setup_next(line@, Seq::empty()) == Next::<SetupEnd>::Ask(r.1@),
            r.1@ == RequestView::AddTransceiver(MediaKind::Video),
    {
        (
            BroadcastContextFuture {
                line: line.to_owned(),
                stage: Stage::AddingTransceiver,
                replies: Ghost(Seq::empty()),
            },
            Request::AddTransceiver(MediaKind::Video),
        )
    }

    /// Goes on once the pending request has got its reply. A connection that has been answered has
    /// a local description.
    pub fn resume(self, reply: Reply) -> (r: Progress<
        BroadcastContextFuture,
        Result<String, SetupError>,
    >)
        requires
            awaits(setup_next(self.line(), self.replies()), reply@),
            !(reply is Undescribed),
        ensures
            setup_run(self.line(), self.replies().push(reply@)),
            ({
                let next = setup_next(self.line(), self.replies().push(reply@));
                match r {
                    Progress::Ask(future, request) => future.line() == self.line()
                        && future.replies() == self.replies().push(reply@) && next == Next::<
                        SetupEnd,
                    >::Ask(request@),
                    Progress::Finish(Ok(response)) => next == Next::Finish(
                        Ok::<Seq<char>, SetupFault>(response@),
                    ) && offer_in(response@) == Ok::<Description, OfferFault>(
                        reply@->Described_0,
                    ),
                    Progress::Finish(Err(e)) => next == Next::Finish(
                        Err::<Seq<char>, SetupFault>(e@),
                    ),
                }
            }),
    {
        proof {
            use_type_invariant(&self);
        }
        let ghost replies = self.replies@.push(reply@);
        assert(replies.drop_last() =~= self.replies@);
        let BroadcastContextFuture { line, stage, .. } = self;
        match stage {
            Stage::Answering(answering) => {
                assert(replies.skip(4) =~= answering@.push(reply@));
                match answering.resume(reply) {
                    Progress::Ask(answering, request) => Progress::Ask(
                        BroadcastContextFuture {
                            line,
                            stage: Stage::Answering(answering),
                            replies: Ghost(replies),
                        },
                        request,
                    ),
                    Progress::Finish(Answered::Failed(e)) => Progress::Finish(
                        Err(SetupError::Peer(e)),
                    ),
                    Progress::Finish(Answered::Local(description)) => Progress::Finish(
                        Self::get_response(&description),
                    ),
                    Progress::Finish(Answered::Missing) => unreached(),
                }
            },
            _ => match reply {
                Reply::Failed(e) => Progress::Finish(Err(SetupError::Peer(e))),
                _ => Self::advance(line, stage, Ghost(replies)),
            },
        }
    }

    /// Leaves a stage before the answer, whose request is done.
    fn advance(line: String, stage: Stage, replies: Ghost<Seq<ReplyView>>) -> (r: Progress<
        BroadcastContextFuture,
        Result<String, SetupError>,
    >)
        requires
            replies@.len() > 0,
            !(replies@.last() is Failed),
            setup_run(line@, replies@),
            match stage {
                Stage::AddingTransceiver => replies@.len() == 1,
                Stage::WatchingTracks => replies@.len() == 2,
                Stage::SettingRemote => replies@.len() == 3,
                Stage::WatchingState => replies@.len() == 4,
                Stage::Answering(_) => false,
            },
        ensures
            ({
                let next = setup_next(line@, replies@);
                match r {
                    Progress::Ask(future, request) => future.line() == line@ && future.replies()
                        == replies@ && next == Next::<SetupEnd>::Ask(request@),
                    Progress::Finish(Ok(_)) => false,
                    Progress::Finish(Err(e)) => next == Next::Finish(
                        Err::<Seq<char>, SetupFault>(e@),
                    ),
                }
            }),
    {
        match stage {
            Stage::AddingTransceiver => Progress::Ask(
                BroadcastContextFuture { line, stage: Stage::WatchingTracks, replies },
                Request::WatchTracks,
            ),
            Stage::WatchingTracks => match Self::set_remote_description(
                read_offer(line.as_str()),
            ) {
                Ok(request) => Progress::Ask(
                    BroadcastContextFuture { line, stage: Stage::SettingRemote, replies },
                    request,
                ),
                Err(e) => Progress::Finish(Err(e)),
            },
            Stage::SettingRemote => Progress::Ask(
                BroadcastContextFuture { line, stage: Stage::WatchingState, replies },
                Request::WatchState,
            ),
            _ => {
                let (answering, request) = Answering::create_answer();
                assert(replies@.skip(4) =~= Seq::<ReplyView>::empty());
                Progress::Ask(
                    BroadcastContextFuture { line, stage: Stage::Answering(answering), replies },
                    request,
                )
            },
        }
    }

    /// The request that hands what was read as the offer to the connection.
    pub fn set_remote_description(offer: Result<SessionDescription, OfferError>) -> (r: Result<
        Request,
        SetupError,
    >)
        ensures
            match offer {
                Ok(description) => r == Ok::<Request, SetupError>(
                    Request::SetRemoteDescription(description),
                ),
                Err(e) => r == Err::<Request, SetupError>(SetupError::Offer(e)),
            },
    {
        match offer {
            Ok(description) => Ok(Request::SetRemoteDescription(description)),
            Err(e) => Err(SetupError::Offer(e)),
        }
    }

    /// The response that tells the local description.
    pub fn get_response(description: &SessionDescription) -> (r: Result<String, SetupError>)
        requires
            renderable(description@),
        ensures
            r matches Ok(response) && response@ == response_for(description@) && offer_in(response@)
                == Ok::<Description, OfferFault>(description@) && response@ == base64_encoded(
                encode_utf8(json_rendered(description@)),
            ),
    {
        match description.respond() {
            Ok(response) => Ok(response),
            Err(e) => Err(SetupError::Json(e)),
        }
    }

    /// Polls the stream: as long as the actor is alive it is polled and the stream goes on.
    pub fn poll_next(alive: bool) -> (r: Polled)
        ensures
            r.poll_actor == alive,
            r.item == polled_item(alive),
            r.item is Some <==> alive,
    {
        if alive {
            Polled { poll_actor: true, item: Some(()) }
        } else {
            Polled { poll_actor: false, item: None }
        }
    }

    /// Decides whether the stream is polled on after this item, whatever came before it.
    pub fn poll_again(item: Option<()>) -> (r: Turn)
        ensures
            r == (if item is Some { Turn::Again } else { Turn::End }),
            forall|before: Seq<Option<()>>| #[trigger] stream_next(before.push(item)) == r,
    {
        match item {
            Some(_) => Turn::Again,
            None => Turn::End,
        }
    }
}

enum Phase {
    Connecting,
    SettingUp(BroadcastContextFuture),
    Spawning(String),
}

/// A broadcast that is being opened for a line, under an address.
pub struct Opening<A> {
    line: String,
    address: A,
    phase: Phase,
    replies: Ghost<Seq<ReplyView>>,
}

impl<A> Opening<A> {
    pub closed spec fn line(&self) -> Seq<char> {
        self.line@
    }

    pub closed spec fn address(&self) -> A {
        self.address
    }

    /// The replies that have come.
    pub closed spec fn replies(&self) -> Seq<ReplyView> {
        self.replies@
    }

    #[verifier::type_invariant]
    closed spec fn wf(self) -> bool {
        let replies = self.replies@;
        &&& opening_run(self.line@, replies)
        &&& opening_next(self.line@, replies) is Ask
        &&& match self.phase {
            Phase::Connecting => replies.len() == 0,
            Phase::SettingUp(future) => {
                &&& 1 <= replies.len() <= 9
                &&& !(replies[0] is Failed)
                &&& future.line() == self.line@
                &&& future.replies() == replies.skip(1)
                &&& setup_next(self.line@, replies.skip(1)) is Ask
            },
            Phase::Spawning(response) => {
                &&& replies.len() == 10
                &&& !(replies[0] is Failed)
                &&& setup_next(self.line@, replies.skip(1)) == Next::Finish(
                    Ok::<Seq<char>, SetupFault>(response@),
                )
                &&& offer_in(response@) == Ok::<Description, OfferFault>(
                    replies.last()->Described_0,
                )
            },
        }
    }

    /// Goes on once the pending request has got its reply. A connection that has been answered has
    /// a local description.
    pub fn resume(self, reply: Reply) -> (r: Progress<Opening<A>, Result<(A, String), SetupError>>)
        requires
            awaits(opening_next(self.line(), self.replies()), reply@),
            !(reply is Undescribed),
        ensures
            opening_run(self.line(), self.replies().push(reply@)),
            ({
                let next = opening_next(self.line(), self.replies().push(reply@));
                match r {
                    Progress::Ask(opening, request) => opening.line() == self.line()
                        && opening.address() == self.address() && opening.replies()
                        == self.replies().push(reply@) && next == Next::<SetupEnd>::Ask(request@),
                    Progress::Finish(Ok((address, response))) => address == self.address() && next
                        == Next::Finish(Ok::<Seq<char>, SetupFault>(response@)) && offer_in(
                        response@,
                    ) == Ok::<Description, OfferFault>(self.replies().last()->Described_0),
                    Progress::Finish(Err(e)) => next == Next::Finish(
                        Err::<Seq<char>, SetupFault>(e@),
                    ),
                }
            }),
    {
        proof {
            use_type_invariant(&self);
        }
        let ghost replies = self.replies@.push(reply@);
        assert(replies.drop_last() =~= self.replies@);
        let Opening { line, address, phase, .. } = self;
        match phase {
            Phase::Connecting => match reply {
                Reply::Failed(e) => Progress::Finish(Err(SetupError::Peer(e))),
                _ => {
                    let (future, request) = BroadcastContextFuture::setup(line.as_str());
                    assert(replies.skip(1) =~= Seq::<ReplyView>::empty());
                    Progress::Ask(
                        Opening {
                            line,
                            address,
                            phase: Phase::SettingUp(future),
                            replies: Ghost(replies),
                        },
                        request,
                    )
                },
            },
            Phase::SettingUp(future) => {
                assert(replies.skip(1) =~= future.replies().push(reply@));
                assert(replies[0] == self.replies@[0]);
                match future.resume(reply) {
                    Progress::Ask(future, request) => Progress::Ask(
                        Opening {
                            line,
                            address,
                            phase: Phase::SettingUp(future),
                            replies: Ghost(replies),
                        },
                        request,
                    ),
                    Progress::Finish(Ok(response)) => Progress::Ask(
                        Opening {
                            line,
                            address,
                            phase: Phase::Spawning(response),
                            replies: Ghost(replies),
                        },
                        Request::SpawnStream,
                    ),
                    Progress::Finish(Err(e)) => Progress::Finish(Err(e)),
                }
            },
            Phase::Spawning(response) => {
                assert(replies.subrange(1, 10) =~= self.replies@.skip(1));
                Progress::Finish(Ok((address, response)))
            },
        }
    }
}

} // verus!
