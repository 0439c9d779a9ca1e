//! Recipients: peers that a broadcast track is passed on to.

use crate::answer::{answer_next, AnswerEnd, Answered, Answering};
use crate::broadcast::connect_request;
use crate::description::{
    description_in, json_parsed, json_rendered, parse, parses_to, renderable, Description, OfferError,
    OfferFault, SessionDescription,
};
use crate::engine::{api_codecs, api_feedback, api_interceptors, default_api};
use crate::peer::{
    awaits, connect, default_servers, Next, Progress, Reply, ReplyView, Request, RequestView,
    Turn,
};
use std::sync::Arc;
use vstd::prelude::*;
use webrtc::api::API;
use webrtc::media::track::track_local::track_local_static_rtp::TrackLocalStaticRTP;

verus! {

/// A recipient, with the offer that it was made from.
#[derive(Debug)]
pub struct Recipient {
    pub offer: SessionDescription,
}

/// The recipient's own description, in its JSON form.
#[derive(Debug)]
pub struct RecipientResponse(pub String);

/// Asks a recipient to take a track, and to respond to the address.
pub struct RecipientLocalTrackMessage<A> {
    pub address: A,
    pub local_track: Arc<TrackLocalStaticRTP>,
}

impl<A> RecipientLocalTrackMessage<A> {
    pub open spec fn track(&self) -> TrackLocalStaticRTP {
        *self.local_track
    }
}

/// Why a recipient could not be made.
#[derive(Debug)]
pub enum RecipientError {
    /// The key is no offer.
    Offer(OfferError),
    /// The codecs could not be registered.
    Codecs(anyhow::Error),
}

/// The length of the buffer for the control packets that come back for a track.
pub const RTCP_BUFFER_LEN: usize = 1500;

/// Why a recipient did not respond.
#[derive(Debug)]
pub enum HandleError {
    /// The peer connection failed.
    Peer(anyhow::Error),
    /// The offer is still in use elsewhere.
    OfferShared,
    /// The connection has no description of its own.
    NoLocalDescription,
    /// The response could not be written.
    Json(serde_json::Error),
}

/// The response to a message, or why there is none.
pub type HandleEnd = Result<Seq<char>, HandleError>;

/// What a recipient does with a track once these replies have come: the track is added, its control
/// packets are drained, the handler of the state is registered, the offer is taken and becomes the
/// remote description, the offer is answered, and the local description is written as the response.
/// The first failure ends it.
pub open spec fn handle_next(track: TrackLocalStaticRTP, replies: Seq<ReplyView>) -> Next<
    HandleEnd,
> {
    if replies.len() > 0 && replies.last() is Failed {
        Next::Finish(Err(HandleError::Peer(replies.last()->Failed_0)))
    } else if replies.len() == 0 {
        Next::Ask(RequestView::AddTrack(track))
    } else if replies.len() == 1 {
        Next::Ask(RequestView::DrainRtcp(RTCP_BUFFER_LEN))
    } else if replies.len() == 2 {
        Next::Ask(RequestView::WatchState)
    } else if replies.len() == 3 {
        Next::Ask(RequestView::TakeOffer)
    } else if replies.len() == 4 {
        match replies[3] {
            ReplyView::Described(offer) => Next::Ask(RequestView::SetRemoteDescription(offer)),
            _ => Next::Finish(Err(HandleError::OfferShared)),
        }
    } else {
        match answer_next(replies.skip(5)) {
            Next::Ask(request) => Next::Ask(request),
            Next::Finish(AnswerEnd::Local(d)) => Next::Finish(Ok(json_rendered(d))),
            Next::Finish(_) => Next::Finish(Err(HandleError::NoLocalDescription)),
        }
    }
}

/// The reply to the request for this offer: it can be had by whoever holds it alone.
pub open spec fn offer_reply(offer: Description, alone: bool) -> ReplyView {
    if alone {
        ReplyView::Described(offer)
    } else {
        ReplyView::Undescribed
    }
}

/// Each reply is one that the work was waiting for.
pub open spec fn handle_run(track: TrackLocalStaticRTP, replies: Seq<ReplyView>) -> bool
    decreases replies.len(),
{
    replies.len() == 0 || {
        &&& handle_run(track, replies.drop_last())
        &&& awaits(handle_next(track, replies.drop_last()), replies.last())
    }
}

enum Stage {
    AddingTrack,
    Draining,
    WatchingState,
    TakingOffer,
    SettingRemote,
    Answering(Answering),
}

/// A message that a recipient is working on.
pub struct Handling<A> {
    address: A,
    track: Ghost<TrackLocalStaticRTP>,
    stage: Stage,
    replies: Ghost<Seq<ReplyView>>,
}

/// A response on its way to the address of the message.
pub struct Delivery<A> {
    pub address: A,
    pub response: RecipientResponse,
}

impl Recipient {
    /// Makes a recipient from the JSON form of an offer, and the request that opens its connection. The
    /// offer is read first. Whether the codecs can be registered rests on the system clock, and
    /// [`new_with`](Self::new_with) says what comes of it.
    pub fn new(key: String) -> (r: Result<(Recipient, Request), RecipientError>)
        ensures
            match r {
                Ok((recipient, request)) => description_in(key@) == Ok::<Description, OfferFault>(
                    recipient.offer@,
                ) && request@ == connect_request(),
                Err(RecipientError::Offer(e)) => description_in(key@) == Err::<
                    Description,
                    OfferFault,
                >(e@),
                Err(RecipientError::Codecs(_)) => description_in(key@) is Ok,
            },
            match r {
                Ok((recipient, _)) => json_parsed(key@) == Ok::<Description, serde_json::Error>(
                    recipient.offer@,
                ),
                Err(RecipientError::Offer(e)) => e is Json && json_parsed(key@) == Err::<
                    Description,
                    serde_json::Error,
                >(e->Json_0),
                Err(RecipientError::Codecs(_)) => json_parsed(key@) is Ok,
            },
    {
        match parse(key.as_str()) {
            Ok(offer) => Self::new_with(offer, default_api()),
            Err(e) => Err(RecipientError::Offer(e)),
        }
    }

    /// Makes a recipient of the offer, and the request that opens one of the API's connections, or says
    /// why there is no API.
    pub fn new_with(offer: SessionDescription, api: Result<API, anyhow::Error>) -> (r: Result<
        (Recipient, Request),
        RecipientError,
    >)
        ensures
            match api {
                Ok(api) => r matches Ok((recipient, request)) && recipient.offer == offer
                    && request@ == (RequestView::Connect {
                    codecs: api_codecs(api),
                    feedback: api_feedback(api),
                    interceptors: api_interceptors(api),
                    servers: default_servers(),
                }),
                Err(e) => r == Err::<(Recipient, Request), RecipientError>(
                    RecipientError::Codecs(e),
                ),
            },
    {
        match api {
            Ok(api) => Ok((Recipient { offer }, connect(api))),
            Err(e) => Err(RecipientError::Codecs(e)),
        }
    }

    /// The reply to the request for the offer, once it was tried to take the recipient out of its
    /// shared place.
    pub fn take_offer(taken: Result<Recipient, Arc<Recipient>>) -> (r: Reply)
        ensures
            match taken {
                Ok(recipient) => r@ == offer_reply(recipient.offer@, true),
                Err(recipient) => r@ == offer_reply(recipient.offer@, false),
            },
            match taken {
                Ok(recipient) => r == Reply::Described(recipient.offer),
                Err(_) => r is Undescribed,
            },
    {
        match taken {
            Ok(recipient) => Reply::Described(recipient.offer),
            Err(_) => Reply::Undescribed,
        }
    }

    /// Starts the work on a message.
    pub fn handle<A>(msg: RecipientLocalTrackMessage<A>) -> (r: (Handling<A>, Request))
        ensures
            r.0.address() == msg.address,
            r.0.track() == msg.track(),
            r.0.replies() == Seq::<ReplyView>::empty(),
            handle_next(msg.track(), Seq::empty()) == Next::<HandleEnd>::Ask(r.1@),
            r.1 == Request::AddTrack(msg.local_track),
    {
        let ghost track = msg.track();
        let RecipientLocalTrackMessage { address, local_track } = msg;
        (
            Handling {
                address,
                track: Ghost(track),
                stage: Stage::AddingTrack,
                replies: Ghost(Seq::empty()),
            },
            Request::AddTrack(local_track),
        )
    }
}

impl<A> Handling<A> {
    pub closed spec fn address(&self) -> A {
        self.address
    }

    pub closed spec fn track(&self) -> TrackLocalStaticRTP {
        self.track@
    }

    /// The replies that have come.
    pub closed spec fn replies(&self) -> Seq<ReplyView> {
        self.replies@
    }

    #[verifier::type_invariant]
    closed spec fn wf(self) -> bool {
        let replies = self.replies@;
        &&& handle_run(self.track@, replies)
        &&& handle_next(self.track@, replies) is Ask
        &&& match self.stage {
            Stage::AddingTrack => replies.len() == 0,
            Stage::Draining => replies.len() == 1,
            Stage::WatchingState => replies.len() == 2,
            Stage::TakingOffer => replies.len() == 3,
            Stage::SettingRemote => replies.len() == 4,
            Stage::Answering(answering) => replies.len() >= 5 && answering@ == replies.skip(5),
        }
    }

    /// Goes on once the pending request has got its reply.
    pub fn resume(self, reply: Reply) -> (r: Progress<
        Handling<A>,
        Result<Delivery<A>, HandleError>,
    >)
        requires
            awaits(handle_next(self.track(), self.replies()), reply@),
        ensures
            handle_run(self.track(), self.replies().push(reply@)),
            ({
                let next = handle_next(self.track(), self.replies().push(reply@));
                match r {
                    Progress::Ask(handling, request) => handling.address() == self.address()
                        && handling.track() == self.track() && handling.replies()
                        == self.replies().push(reply@) && next == Next::<HandleEnd>::Ask(request@),
                    Progress::Finish(Ok(delivery)) => delivery.address == self.address() && next
                        == Next::Finish(Ok::<Seq<char>, HandleError>(delivery.response.0@))
                        && parses_to(delivery.response.0@, reply@->Described_0),
                    Progress::Finish(Err(e)) => next == Next::Finish(
                        Err::<Seq<char>, HandleError>(e),
                    ),
                }
            }),
    {
        proof {
            use_type_invariant(&self);
        }
        let ghost replies = self.replies@.push(reply@);
        assert(replies.drop_last() =~= self.replies@);
        let Handling { address, track, stage, .. } = self;
        match stage {
            Stage::Answering(answering) => {
                assert(replies.skip(5) =~= answering@.push(reply@));
                match answering.resume(reply) {
                    Progress::Ask(answering, request) => Progress::Ask(
                        Handling {
                            address,
                            track,
                            stage: Stage::Answering(answering),
                            replies: Ghost(replies),
                        },
                        request,
                    ),
                    Progress::Finish(Answered::Failed(e)) => Progress::Finish(
                        Err(HandleError::Peer(e)),
                    ),
                    Progress::Finish(Answered::Local(description)) => Progress::Finish(
                        deliver(address, &description),
                    ),
                    Progress::Finish(Answered::Missing) => Progress::Finish(
                        Err(HandleError::NoLocalDescription),
                    ),
                }
            },
            _ => match reply {
                Reply::Failed(e) => Progress::Finish(Err(HandleError::Peer(e))),
                Reply::Done => {
                    let (stage, request) = advance(stage);
                    assert(replies.len() == 5 ==> replies.skip(5) =~= Seq::empty());
                    Progress::Ask(
                        Handling { address, track, stage, replies: Ghost(replies) },
                        request,
                    )
                },
                Reply::Described(offer) => Progress::Ask(
                    Handling {
                        address,
                        track,
                        stage: Stage::SettingRemote,
                        replies: Ghost(replies),
                    },
                    Request::SetRemoteDescription(offer),
                ),
                Reply::Undescribed => Progress::Finish(Err(HandleError::OfferShared)),
            },
        }
    }
}

/// The stage after one whose request is done, with its request.
fn advance(stage: Stage) -> (r: (Stage, Request))
    requires
        !(stage is TakingOffer),
        !(stage is Answering),
    ensures
        match stage {
            Stage::AddingTrack => r.0 is Draining && r.1@ == RequestView::DrainRtcp(
                RTCP_BUFFER_LEN,
            ),
            Stage::Draining => r.0 is WatchingState && r.1@ == RequestView::WatchState,
            Stage::WatchingState => r.0 is TakingOffer && r.1@ == RequestView::TakeOffer,
            _ => r.0 is Answering && r.0->Answering_0@ == Seq::<ReplyView>::empty() && r.1@
                == RequestView::CreateAnswer,
        },
{
    match stage {
        Stage::AddingTrack => (Stage::Draining, Request::DrainRtcp(RTCP_BUFFER_LEN)),
        Stage::Draining => (Stage::WatchingState, Request::WatchState),
        Stage::WatchingState => (Stage::TakingOffer, Request::TakeOffer),
        _ => {
            let (answering, request) = Answering::create_answer();
            (Stage::Answering(answering), request)
        },
    }
}

/// Whether control packets are read on, once these reads have ended: as long as none has failed.
pub open spec fn drain_next(reads: Seq<Result<usize, anyhow::Error>>) -> Turn {
    if reads.len() > 0 && reads.last() is Err {
        Turn::End
    } else {
        Turn::Again
    }
}

/// Each read comes after one upon which reading goes on.
pub open spec fn drain_run(reads: Seq<Result<usize, anyhow::Error>>) -> bool
    decreases reads.len(),
{
    reads.len() == 0 || {
        &&& drain_run(reads.drop_last())
        &&& drain_next(reads.drop_last()) == Turn::Again
    }
}

/// Decides whether control packets are read on after this read, whatever came before it.
pub fn drain_rtcp(read: &Result<usize, anyhow::Error>) -> (r: Turn)
    ensures
        r == (if read is Ok { Turn::Again } else { Turn::End }),
        forall|before: Seq<Result<usize, anyhow::Error>>| #[trigger]
            drain_next(before.push(*read)) == r,
{
    match read {
        Ok(_) => Turn::Again,
        Err(_) => Turn::End,
    }
}

/// The response that tells the local description to the address.
pub fn deliver<A>(address: A, description: &SessionDescription) -> (r: Result<
    Delivery<A>,
    HandleError,
>)
    requires
        renderable(description@),
    ensures
        r matches Ok(delivery) && delivery.address == address && delivery.response.0@
            == json_rendered(description@) && parses_to(delivery.response.0@, description@),
{
    match description.render() {
        Ok(text) => Ok(Delivery { address, response: RecipientResponse(text) }),
        Err(e) => Err(HandleError::Json(e)),
    }
}

} // verus!
