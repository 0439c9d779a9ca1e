//! The course of every negotiation: what a peer connection is asked for, in which order, and with
//! what, from the first request to the end.

use crate::answer::{answer_next, AnswerEnd, Answered};
use crate::broadcast::{
    connect_request, opening_next, opening_run, setup_next, setup_run, SetupEnd, SetupFault,
};
use crate::codec::base64_encoded;
use crate::description::{json_rendered, offer_in, Description};
use crate::engine::{
    api_codecs, api_feedback, api_interceptors, default_codecs, default_feedback,
    default_interceptors, with_nack,
};
use crate::laws::{
    law_handle_is_bounded, law_handle_outcome, law_handle_stops_at_failure, law_opening_is_bounded,
    law_opening_starts_the_stream_last, law_setup_is_bounded, law_setup_outcome,
    law_setup_stops_at_failure, lemma_handle_prefix, lemma_opening_prefix, lemma_opening_sets_up,
    lemma_setup_prefix,
};
use crate::peer::{
    admits, awaits, Configuration, MediaKind, Next, Reply, ReplyView, Request, RequestView,
};
use crate::recipient::{handle_next, handle_run, HandleEnd, HandleError};
use vstd::prelude::*;
use vstd::utf8::encode_utf8;
use webrtc::media::track::track_local::track_local_static_rtp::TrackLocalStaticRTP;

verus! {

/// Answering asks for five things, in this order, each as soon as the one before it did not fail: the
/// answer that was created is the one that becomes the local description, before gathering is awaited
/// and before the local description is fetched.
pub proof fn law_answer_course(replies: Seq<ReplyView>, k: int)
    requires
        0 <= k <= replies.len(),
        k < 5,
        k == 0 || !(replies[k - 1] is Failed),
    ensures
        answer_next(replies.take(k)) == Next::<AnswerEnd>::Ask(
            seq![
                RequestView::CreateAnswer,
                RequestView::PromiseGathering,
                RequestView::SetLocalDescription(replies[0]->Described_0),
                RequestView::AwaitGathering,
                RequestView::FetchLocalDescription,
            ][k],
        ),
{
    let begun = replies.take(k);
    if k > 0 {
        assert(begun.last() == replies[k - 1]);
        assert(begun[0] == replies[0]);
    }
}

/// Answering ends with the description that was fetched, with none where there is none, and with the
/// error of the request that failed.
pub proof fn law_answer_end(replies: Seq<ReplyView>)
    requires
        0 < replies.len() <= 5,
    ensures
        replies.last() is Failed ==> answer_next(replies) == Next::Finish(
            AnswerEnd::Failed(replies.last()->Failed_0),
        ),
        replies.len() == 5 && replies[4] is Described ==> answer_next(replies) == Next::Finish(
            AnswerEnd::Local(replies[4]->Described_0),
        ),
        replies.len() == 5 && replies[4] is Undescribed ==> answer_next(replies) == Next::<
            AnswerEnd,
        >::Finish(AnswerEnd::Missing),
        replies.len() < 5 && !(replies.last() is Failed) ==> answer_next(replies) is Ask,
{
}

/// Setting up asks for nine things, in this order, each as soon as the one before it is done: the video
/// transceiver and the handler of tracks come before the offer in the line becomes the remote
/// description, and the answer that was created becomes the local description before gathering is
/// awaited and before the local description is fetched. Only a line that holds no offer stops it after
/// the first two.
pub proof fn law_setup_course(line: Seq<char>, replies: Seq<ReplyView>, k: int)
    requires
        setup_run(line, replies),
        0 <= k <= replies.len(),
        k < 9,
        k == 0 || !(replies[k - 1] is Failed),
    ensures
        k < 2 || offer_in(line) is Ok ==> setup_next(line, replies.take(k)) == Next::<
            SetupEnd,
        >::Ask(
            seq![
                RequestView::AddTransceiver(MediaKind::Video),
                RequestView::WatchTracks,
                RequestView::SetRemoteDescription(offer_in(line)->Ok_0),
                RequestView::WatchState,
                RequestView::CreateAnswer,
                RequestView::PromiseGathering,
                RequestView::SetLocalDescription(replies[4]->Described_0),
                RequestView::AwaitGathering,
                RequestView::FetchLocalDescription,
            ][k],
        ),
        offer_in(line) is Err ==> k <= 2,
        k == 2 && offer_in(line) is Err ==> setup_next(line, replies.take(k)) == Next::<
            SetupEnd,
        >::Finish(Err(SetupFault::Offer(offer_in(line)->Err_0))),
        k > 0 ==> if k == 5 {
            replies[k - 1] is Described
        } else {
            replies[k - 1] is Done
        },
{
    let begun = replies.take(k);
    law_setup_stops_at_failure(line, replies);
    if k > 0 {
        lemma_setup_prefix(line, replies, k - 1);
        assert(begun.last() == replies[k - 1]);
        if k >= 2 {
            assert(replies.take(k - 1).last() == replies[k - 2]);
        }
    }
    if k > 2 {
        lemma_setup_prefix(line, replies, 2);
        assert(replies.take(2).last() == replies[1]);
    }
    if k >= 4 {
        let answering = replies.skip(4);
        assert(begun.skip(4) =~= answering.take(k - 4));
        if k > 4 {
            assert(answering[0] == replies[4]);
            assert(answering[k - 5] == replies[k - 1]);
            assert(replies.take(k - 1).skip(4) =~= answering.take(k - 5));
            if k > 5 {
                assert(answering[k - 6] == replies[k - 2]);
            }
            law_answer_course(answering, k - 5);
        }
        law_answer_course(answering, k - 4);
    }
}

/// A setup that is over after nine replies without a failure gives the base64 form of the JSON form of
/// the description that was fetched, and every setup that gives a response has had these nine: what was
/// set as the local description is the answer that was created.
pub proof fn law_setup_response(line: Seq<char>, replies: Seq<ReplyView>)
    requires
        setup_run(line, replies),
    ensures
        replies.len() == 9 && !(replies[8] is Failed) ==> setup_next(line, replies) == Next::<
            SetupEnd,
        >::Finish(
            Ok(base64_encoded(encode_utf8(json_rendered(replies[8]->Described_0)))),
        ) && replies[8] is Described,
        setup_next(line, replies) matches Next::Finish(Ok(_)) ==> replies.len() == 9
            && offer_in(line) is Ok && (forall|i: int|
            0 <= i < 9 && i != 4 && i != 8 ==> #[trigger] replies[i] is Done)
            && replies[4] is Described && setup_next(line, replies.take(0)) == Next::<
            SetupEnd,
        >::Ask(RequestView::AddTransceiver(MediaKind::Video)) && setup_next(line, replies.take(1))
            == Next::<SetupEnd>::Ask(RequestView::WatchTracks) && setup_next(line, replies.take(2))
            == Next::<SetupEnd>::Ask(RequestView::SetRemoteDescription(offer_in(line)->Ok_0))
            && setup_next(line, replies.take(6)) == Next::<SetupEnd>::Ask(
            RequestView::SetLocalDescription(replies[4]->Described_0),
        ),
{
    law_setup_stops_at_failure(line, replies);
    law_setup_is_bounded(line, replies);
    if replies.len() == 9 && !(replies[8] is Failed) {
        lemma_setup_prefix(line, replies, 8);
        law_setup_course(line, replies, 8);
        assert(replies.skip(4)[4] == replies[8]);
        assert(replies.skip(4).last() == replies.last());
        law_answer_end(replies.skip(4));
    }
    if setup_next(line, replies) matches Next::Finish(Ok(_)) {
        law_setup_outcome(line, replies);
        assert forall|i: int| 0 <= i < 9 && i != 4 && i != 8 implies #[trigger] replies[i] is Done by {
            law_setup_course(line, replies, i + 1);
        }
        law_setup_course(line, replies, 5);
        law_setup_course(line, replies, 0);
        law_setup_course(line, replies, 1);
        law_setup_course(line, replies, 2);
        law_setup_course(line, replies, 6);
    }
}

/// Opening begins with the connection, whatever the line: with the default codecs, feedback and
/// interceptors and the one server. The setup follows once that is done, and the stream comes last.
pub proof fn law_opening_course(line: Seq<char>, replies: Seq<ReplyView>, k: int)
    requires
        opening_run(line, replies),
        0 <= k <= replies.len(),
        k < 11,
        k == 0 || !(replies[k - 1] is Failed),
    ensures
        k < 3 || offer_in(line) is Ok ==> opening_next(line, replies.take(k)) == Next::<
            SetupEnd,
        >::Ask(
            seq![
                RequestView::Connect {
                    codecs: default_codecs(),
                    feedback: with_nack(default_feedback()),
                    interceptors: default_interceptors(),
                    servers: seq![seq!["stun:stun.l.google.com:19302"@]],
                },
                RequestView::AddTransceiver(MediaKind::Video),
                RequestView::WatchTracks,
                RequestView::SetRemoteDescription(offer_in(line)->Ok_0),
                RequestView::WatchState,
                RequestView::CreateAnswer,
                RequestView::PromiseGathering,
                RequestView::SetLocalDescription(replies[5]->Described_0),
                RequestView::AwaitGathering,
                RequestView::FetchLocalDescription,
                RequestView::SpawnStream,
            ][k],
        ),
        k == 3 && offer_in(line) is Err ==> opening_next(line, replies.take(k)) == Next::<
            SetupEnd,
        >::Finish(Err(SetupFault::Offer(offer_in(line)->Err_0))),
        k > 0 ==> replies[0] is Done,
{
    let begun = replies.take(k);
    if k > 0 {
        lemma_opening_prefix(line, replies, 0);
        if k < replies.len() {
            lemma_opening_prefix(line, replies, k);
        } else {
            assert(begun =~= replies);
        }
        assert(begun[0] == replies[0]);
        if k > 1 {
            lemma_opening_prefix(line, replies, 1);
            assert(replies.take(1)[0] == replies[0]);
        }
        lemma_opening_sets_up(line, begun);
        let rest = begun.skip(1);
        assert(rest.take(k - 1) =~= rest);
        if k > 1 {
            assert(rest[k - 2] == replies[k - 1]);
        }
        if k > 5 {
            assert(rest[4] == replies[5]);
        }
        if k < 10 {
            law_setup_course(line, rest, k - 1);
        } else {
            law_setup_response(line, rest);
        }
    }
}

/// Opening that gives a response has asked for the connection once, as the first thing, and got it; the
/// response is the base64 form of the JSON form of the description that was fetched.
pub proof fn law_opening_response(line: Seq<char>, replies: Seq<ReplyView>)
    requires
        opening_run(line, replies),
    ensures
        replies.len() == 11 ==> opening_next(line, replies) == Next::<SetupEnd>::Finish(
            Ok(base64_encoded(encode_utf8(json_rendered(replies[9]->Described_0)))),
        ) && replies[9] is Described,
        opening_next(line, replies) matches Next::Finish(Ok(_)) ==> replies.len() == 11
            && replies[0] is Done && opening_next(line, replies.take(0)) is Ask && opening_next(
            line,
            replies.take(0),
        )->Ask_0 is Connect && forall|k: int|
            1 <= k < 11 ==> !((#[trigger] opening_next(line, replies.take(k)))->Ask_0 is Connect),
{
    law_opening_is_bounded(line, replies);
    law_opening_starts_the_stream_last(line, replies);
    if replies.len() == 11 {
        let ten = replies.take(10);
        lemma_opening_prefix(line, replies, 10);
        lemma_opening_prefix(line, replies, 0);
        lemma_opening_prefix(line, replies, 1);
        assert(replies.take(1)[0] == replies[0]);
        assert(ten[0] == replies[0]);
        lemma_opening_sets_up(line, ten);
        let rest = ten.skip(1);
        assert(rest =~= replies.subrange(1, 10));
        assert(rest[8] == replies[9]);
        law_opening_starts_the_stream_last(line, ten);
        law_setup_stops_at_failure(line, rest);
        law_setup_response(line, rest);
        law_opening_course(line, replies, 0);
        assert forall|k: int| 1 <= k < 11 implies !((#[trigger] opening_next(
            line,
            replies.take(k),
        ))->Ask_0 is Connect) by {
            assert(rest[k - 2] == replies[k - 1] || k == 1);
            assert(offer_in(line) is Ok) by {
                law_setup_outcome(line, rest);
            }
            assert(!(replies[k - 1] is Failed)) by {
                if k > 1 {
                    law_setup_outcome(line, rest);
                }
            }
            law_opening_course(line, replies, k);
        }
    }
}

/// The work on a message asks for ten things, in this order, each as soon as the one before it is done:
/// the message's track is added, its control packets are read into a buffer of 1500 bytes, the offer
/// that was taken becomes the remote description, and the answer that was created becomes the local
/// description before gathering is awaited and before the local description is fetched. Only an offer
/// that is not to be had stops it after the first four.
pub proof fn law_handle_course(track: TrackLocalStaticRTP, replies: Seq<ReplyView>, k: int)
    requires
        handle_run(track, replies),
        0 <= k <= replies.len(),
        k < 10,
        k == 0 || !(replies[k - 1] is Failed),
    ensures
        k < 4 || replies[3] is Described ==> handle_next(track, replies.take(k)) == Next::<
            HandleEnd,
        >::Ask(
            seq![
                RequestView::AddTrack(track),
                RequestView::DrainRtcp(1500),
                RequestView::WatchState,
                RequestView::TakeOffer,
                RequestView::SetRemoteDescription(replies[3]->Described_0),
                RequestView::CreateAnswer,
                RequestView::PromiseGathering,
                RequestView::SetLocalDescription(replies[5]->Described_0),
                RequestView::AwaitGathering,
                RequestView::FetchLocalDescription,
            ][k],
        ),
        k >= 4 ==> replies[3] is Described || (k == 4 && replies[3] is Undescribed && handle_next(
            track,
            replies.take(k),
        ) == Next::<HandleEnd>::Finish(Err(HandleError::OfferShared))),
        k > 0 && k != 4 ==> if k == 6 {
            replies[k - 1] is Described
        } else {
            replies[k - 1] is Done
        },
{
    let begun = replies.take(k);
    law_handle_stops_at_failure(track, replies);
    if k > 0 {
        lemma_handle_prefix(track, replies, k - 1);
        assert(begun.last() == replies[k - 1]);
        if k >= 2 {
            assert(replies.take(k - 1).last() == replies[k - 2]);
        }
    }
    if k >= 4 {
        lemma_handle_prefix(track, replies, 3);
        assert(replies.take(3).last() == replies[2]);
        assert(begun[3] == replies[3]);
        if k > 4 {
            lemma_handle_prefix(track, replies, 4);
            assert(replies.take(4).last() == replies[3]);
            assert(replies.take(4)[3] == replies[3]);
        }
    }
    if k >= 5 {
        let answering = replies.skip(5);
        assert(begun.skip(5) =~= answering.take(k - 5));
        if k > 5 {
            assert(answering[0] == replies[5]);
            assert(answering[k - 6] == replies[k - 1]);
            assert(replies.take(k - 1).skip(5) =~= answering.take(k - 6));
            if k > 6 {
                assert(answering[k - 7] == replies[k - 2]);
            }
            law_answer_course(answering, k - 6);
        }
        law_answer_course(answering, k - 5);
    }
}

/// A message that is worked off after ten replies with the local description at hand is answered with
/// its JSON form, and every message that is answered has had these ten: what was set as the local
/// description is the answer that was created.
pub proof fn law_handle_response(track: TrackLocalStaticRTP, replies: Seq<ReplyView>)
    requires
        handle_run(track, replies),
    ensures
        replies.len() == 10 && replies[9] is Described ==> handle_next(track, replies) == Next::<
            HandleEnd,
        >::Finish(Ok(json_rendered(replies[9]->Described_0))),
        replies.len() == 10 && replies[9] is Undescribed ==> handle_next(track, replies) == Next::<
            HandleEnd,
        >::Finish(Err(HandleError::NoLocalDescription)),
        handle_next(track, replies) matches Next::Finish(Ok(_)) ==> replies.len() == 10
            && replies[3] is Described && replies[5] is Described && handle_next(
            track,
            replies.take(4),
        ) == Next::<HandleEnd>::Ask(RequestView::SetRemoteDescription(replies[3]->Described_0))
            && replies[4] is Done && handle_next(track, replies.take(7)) == Next::<HandleEnd>::Ask(
            RequestView::SetLocalDescription(replies[5]->Described_0),
        ) && replies[7] is Done,
{
    law_handle_stops_at_failure(track, replies);
    law_handle_is_bounded(track, replies);
    if replies.len() == 10 {
        assert(replies.skip(5)[4] == replies[9]);
        assert(replies.skip(5).last() == replies.last());
        law_answer_end(replies.skip(5));
    }
    if handle_next(track, replies) matches Next::Finish(Ok(_)) {
        law_handle_outcome(track, replies);
        law_handle_course(track, replies, 4);
        law_handle_course(track, replies, 5);
        law_handle_course(track, replies, 6);
        law_handle_course(track, replies, 7);
        law_handle_course(track, replies, 8);
    }
}

/// Which replies come to which request: what the connection may refuse is done or fails, an answer is
/// created or fails, a description is had or not, and everything else is done. A description that was
/// fetched is of any length that can be sent on.
pub proof fn law_every_outcome_is_admitted(
    request: RequestView,
    description: Description,
    error: anyhow::Error,
)
    ensures
        admits(request, ReplyView::Failed(error)) <==> request is Connect
            || request is AddTransceiver || request is AddTrack || request is SetRemoteDescription
            || request is SetLocalDescription || request is CreateAnswer,
        admits(request, ReplyView::Done) <==> !(request is CreateAnswer || request is TakeOffer
            || request is FetchLocalDescription),
        admits(request, ReplyView::Undescribed) <==> request is TakeOffer
            || request is FetchLocalDescription,
        admits(request, ReplyView::Described(description)) <==> request is CreateAnswer
            || request is TakeOffer || (request is FetchLocalDescription && 16 * encode_utf8(
            description.sdp,
        ).len() + 64 <= isize::MAX),
{
}

/// Every reply that the pending request admits carries a negotiation on: none is ruled out beyond that,
/// but for the missing local description of a broadcaster.
pub proof fn law_runs_go_on(
    line: Seq<char>,
    track: TrackLocalStaticRTP,
    replies: Seq<ReplyView>,
    reply: ReplyView,
)
    ensures
        setup_run(line, Seq::empty()),
        opening_run(line, Seq::empty()),
        handle_run(track, Seq::empty()),
        setup_run(line, replies) && setup_next(line, replies) is Ask && admits(
            setup_next(line, replies)->Ask_0,
            reply,
        ) && !(reply is Undescribed) ==> setup_run(line, replies.push(reply)),
        opening_run(line, replies) && opening_next(line, replies) is Ask && admits(
            opening_next(line, replies)->Ask_0,
            reply,
        ) && !(reply is Undescribed) ==> opening_run(line, replies.push(reply)),
        handle_run(track, replies) && handle_next(track, replies) is Ask && admits(
            handle_next(track, replies)->Ask_0,
            reply,
        ) ==> handle_run(track, replies.push(reply)),
{
    assert(replies.push(reply).drop_last() =~= replies);
}

/// What is pending waits for the replies that it admits, and what is over for none.
pub proof fn law_what_is_awaited(request: RequestView, reply: ReplyView, end: SetupEnd)
    ensures
        awaits(Next::<SetupEnd>::Ask(request), reply) <==> admits(request, reply),
        awaits(Next::<HandleEnd>::Ask(request), reply) <==> admits(request, reply),
        awaits(Next::<AnswerEnd>::Ask(request), reply) <==> admits(request, reply),
        !awaits(Next::Finish(end), reply),
{
}

/// Connections are opened with the default codecs, feedback and interceptors, and with one server at
/// one address.
pub proof fn law_connections_have_the_defaults(config: Configuration)
    ensures
        connect_request() == (RequestView::Connect {
            codecs: default_codecs(),
            feedback: with_nack(default_feedback()),
            interceptors: default_interceptors(),
            servers: seq![seq!["stun:stun.l.google.com:19302"@]],
        }),
        config@.len() == config.ice_servers@.len(),
        forall|i: int|
            0 <= i < config@.len() ==> (#[trigger] config@[i]).len()
                == config.ice_servers@[i].urls@.len(),
        forall|i: int, j: int|
            0 <= i < config@.len() && 0 <= j < config@[i].len() ==> #[trigger] config@[i][j]
                == config.ice_servers@[i].urls@[j]@,
{
}

/// A request is known by its kind and by all that the connection is given with it.
pub proof fn law_requests_keep_what_they_carry(request: Request)
    ensures
        request matches Request::Connect(api, config) ==> request@ == (RequestView::Connect {
            codecs: api_codecs(api),
            feedback: api_feedback(api),
            interceptors: api_interceptors(api),
            servers: config@,
        }),
        request matches Request::AddTransceiver(kind) ==> request@ == RequestView::AddTransceiver(
            kind,
        ),
        request matches Request::AddTrack(track) ==> request@ == RequestView::AddTrack(*track),
        request matches Request::DrainRtcp(len) ==> request@ == RequestView::DrainRtcp(len),
        request matches Request::SetRemoteDescription(d) ==> request@
            == RequestView::SetRemoteDescription(d@),
        request matches Request::SetLocalDescription(d) ==> request@
            == RequestView::SetLocalDescription(d@),
        request is WatchTracks <==> request@ is WatchTracks,
        request is WatchState <==> request@ is WatchState,
        request is TakeOffer <==> request@ is TakeOffer,
        request is CreateAnswer <==> request@ is CreateAnswer,
        request is PromiseGathering <==> request@ is PromiseGathering,
        request is AwaitGathering <==> request@ is AwaitGathering,
        request is FetchLocalDescription <==> request@ is FetchLocalDescription,
        request is SpawnStream <==> request@ is SpawnStream,
{
}

/// A reply is known by its kind and by the error or the description that came with it.
pub proof fn law_replies_keep_what_they_carry(reply: Reply, answered: Answered)
    ensures
        reply matches Reply::Failed(e) ==> reply@ == ReplyView::Failed(e),
        reply matches Reply::Described(d) ==> reply@ == ReplyView::Described(d@),
        reply is Done <==> reply@ is Done,
        reply is Undescribed <==> reply@ is Undescribed,
        answered matches Answered::Failed(e) ==> answered@ == AnswerEnd::Failed(e),
        answered matches Answered::Local(d) ==> answered@ == AnswerEnd::Local(d@),
        answered is Missing <==> answered@ is Missing,
{
}

} // verus!
