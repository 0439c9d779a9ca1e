//! What holds of every run of the library's negotiations and loops.

use crate::broadcast::{
    opening_next, opening_run, polled_item, setup_next, setup_run, stream_next, stream_run, SetupEnd,
    SetupFault,
};
use crate::codec::{
    base64_decoded, base64_fault, decoded, encoded, is_base64, is_base64_char,
    lemma_base64_concat, lemma_base64_is_ascii, lemma_decoded, lemma_full_length, lemma_utf8_concat, stands_for,
    DecodeFault,
};
use crate::description::{json_rendered, offer_in, response_for, Description, OfferFault};
use crate::peer::{awaits, Next, ReplyView, RequestView, Turn};
use crate::recipient::{
    drain_next, drain_run, handle_next, handle_run, offer_reply, HandleEnd, HandleError,
};
use crate::track::{
    forward_admits, forward_admitted, forward_next, forward_report, forward_run, is_closed_pipe,
    keyframe_admits, keyframe_next, keyframe_run, local_track_of, write_error_text, ForwardEvent,
    ForwardEventView, ForwardStep, ForwardStepView, KeyframeEvent, KeyframeRequest, KeyframeStep, LocalTrack,
    KEYFRAME_INTERVAL,
};
use vstd::prelude::*;
use vstd::utf8::*;
use webrtc::media::track::track_local::track_local_static_rtp::TrackLocalStaticRTP;

verus! {

/// None of the replies is a failure.
pub open spec fn none_failed(replies: Seq<ReplyView>) -> bool {
    forall|i: int| 0 <= i < replies.len() ==> !(#[trigger] replies[i] is Failed)
}

pub(crate) proof fn lemma_setup_prefix(line: Seq<char>, replies: Seq<ReplyView>, n: int)
    requires
        setup_run(line, replies),
        0 <= n < replies.len(),
    ensures
        setup_run(line, replies.take(n)),
        awaits(setup_next(line, replies.take(n)), replies[n]),
        !(replies[n] is Undescribed),
    decreases replies.len(),
{
    let shorter = replies.drop_last();
    if n == replies.len() - 1 {
        assert(replies.take(n) =~= shorter);
    } else {
        lemma_setup_prefix(line, shorter, n);
        assert(replies.take(n) =~= shorter.take(n));
    }
}

/// A failed reply is the last one: nothing is asked for after it.
pub proof fn law_setup_stops_at_failure(line: Seq<char>, replies: Seq<ReplyView>)
    requires
        setup_run(line, replies),
    ensures
        forall|i: int|
            0 <= i < replies.len() && #[trigger] replies[i] is Failed ==> i == replies.len() - 1,
        replies.len() > 0 && replies.last() is Failed ==> setup_next(line, replies)
            == Next::<SetupEnd>::Finish(Err(SetupFault::Peer(replies.last()->Failed_0))),
{
    assert forall|i: int| 0 <= i < replies.len() && #[trigger] replies[i] is Failed implies i
        == replies.len() - 1 by {
        if i < replies.len() - 1 {
            lemma_setup_prefix(line, replies, i + 1);
            assert(replies.take(i + 1).last() == replies[i]);
        }
    }
}

/// Setting up takes nine replies at most.
pub proof fn law_setup_is_bounded(line: Seq<char>, replies: Seq<ReplyView>)
    requires
        setup_run(line, replies),
    ensures
        replies.len() <= 9,
        replies.len() == 9 ==> setup_next(line, replies) is Finish,
{
    if replies.len() > 9 {
        lemma_setup_prefix(line, replies, 9);
    }
}

/// A setup that is over has a response if and only if the line holds an offer and no request
/// failed. The response tells the description that was fetched last. Without one, the fault is that
/// of the failed request, or of the line, which is read after two replies.
pub proof fn law_setup_outcome(line: Seq<char>, replies: Seq<ReplyView>)
    requires
        setup_run(line, replies),
        setup_next(line, replies) is Finish,
    ensures
        ({
            let end = setup_next(line, replies)->Finish_0;
            &&& end is Ok <==> offer_in(line) is Ok && none_failed(replies)
            &&& end matches Ok(response) ==> replies.len() == 9 && replies[8] is Described
                && response == response_for(replies[8]->Described_0)
            &&& end matches Err(SetupFault::Peer(e)) ==> replies.len() > 0 && replies.last()
                == ReplyView::Failed(e)
            &&& end matches Err(SetupFault::Offer(fault)) ==> replies.len() == 2 && offer_in(line)
                == Err::<Description, _>(fault)
            &&& !(end matches Err(SetupFault::Json(_)))
        }),
{
    law_setup_stops_at_failure(line, replies);
    law_setup_is_bounded(line, replies);
    if replies.len() > 0 && replies.last() is Failed {
        assert(!none_failed(replies));
    } else {
        assert(none_failed(replies));
        if replies.len() > 2 {
            lemma_setup_prefix(line, replies, 2);
        }
        if replies.len() == 9 {
            lemma_setup_prefix(line, replies, 8);
            assert(replies.skip(4)[4] == replies[8]);
        }
    }
}

/// What the connection is given, and when: the remote description is the offer in the line; an
/// answer is created only after that was accepted; and the local description is that answer.
pub proof fn law_setup_order(line: Seq<char>, replies: Seq<ReplyView>, request: RequestView)
    requires
        setup_run(line, replies),
        setup_next(line, replies) == Next::<SetupEnd>::Ask(request),
    ensures
        none_failed(replies),
        request matches RequestView::SetRemoteDescription(offer) ==> offer_in(line) == Ok::<
            _,
            OfferFault,
        >(offer),
        request is CreateAnswer ==> offer_in(line) is Ok && replies.len() > 2 && setup_next(
            line,
            replies.take(2),
        ) == Next::<SetupEnd>::Ask(RequestView::SetRemoteDescription(offer_in(line)->Ok_0))
            && replies[2] is Done,
        request matches RequestView::SetLocalDescription(answer) ==> replies.len() > 4
            && setup_next(line, replies.take(4)) == Next::<SetupEnd>::Ask(RequestView::CreateAnswer)
            && replies[4] == ReplyView::Described(answer),
{
    law_setup_stops_at_failure(line, replies);
    law_setup_is_bounded(line, replies);
    if replies.len() > 2 {
        lemma_setup_prefix(line, replies, 2);
    }
    if replies.len() > 4 {
        lemma_setup_prefix(line, replies, 4);
        assert(replies.take(4).skip(4) =~= Seq::empty());
    }
}

pub(crate) proof fn lemma_opening_prefix(line: Seq<char>, replies: Seq<ReplyView>, n: int)
    requires
        opening_run(line, replies),
        0 <= n < replies.len(),
    ensures
        opening_run(line, replies.take(n)),
        awaits(opening_next(line, replies.take(n)), replies[n]),
        !(replies[n] is Undescribed),
    decreases replies.len(),
{
    let shorter = replies.drop_last();
    if n == replies.len() - 1 {
        assert(replies.take(n) =~= shorter);
    } else {
        lemma_opening_prefix(line, shorter, n);
        assert(replies.take(n) =~= shorter.take(n));
    }
}

/// While the connection is open and the stream is not started, opening is setting up.
pub(crate) proof fn lemma_opening_sets_up(line: Seq<char>, replies: Seq<ReplyView>)
    requires
        opening_run(line, replies),
        1 <= replies.len() <= 10,
        !(replies[0] is Failed),
    ensures
        setup_run(line, replies.skip(1)),
    decreases replies.len(),
{
    if replies.len() > 1 {
        let shorter = replies.drop_last();
        lemma_opening_sets_up(line, shorter);
        assert(replies.skip(1).drop_last() =~= shorter.skip(1));
        assert(replies.skip(1).last() == replies.last());
        law_setup_is_bounded(line, shorter.skip(1));
        if setup_next(line, shorter.skip(1)) matches Next::Finish(Ok(_)) {
            law_setup_outcome(line, shorter.skip(1));
            assert(shorter.len() == 10);
        }
    }
}

/// Opening takes eleven replies at most: one for the connection, nine for setting up, one for the
/// stream.
pub proof fn law_opening_is_bounded(line: Seq<char>, replies: Seq<ReplyView>)
    requires
        opening_run(line, replies),
    ensures
        replies.len() <= 11,
        replies.len() == 11 ==> opening_next(line, replies) is Finish,
{
    if replies.len() >= 11 {
        lemma_opening_prefix(line, replies, 10);
        let ten = replies.take(10);
        lemma_opening_prefix(line, replies, 1);
        assert(replies.take(1)[0] == replies[0]);
        assert(ten[0] == replies[0]);
        lemma_opening_sets_up(line, ten);
        law_setup_is_bounded(line, ten.skip(1));
        assert(replies.subrange(1, 10) =~= ten.skip(1));
        if replies.len() > 11 {
            lemma_opening_prefix(line, replies, 11);
            assert(replies.take(11).subrange(1, 10) =~= ten.skip(1));
            assert(replies.take(11)[0] == replies[0]);
        }
    }
}

/// The stream is started exactly when the connection is open and set up, and the response is that of
/// the setup. Where opening fails, the fault is that of the connection or of the setup, and the stream
/// was never started.
pub proof fn law_opening_starts_the_stream_last(line: Seq<char>, replies: Seq<ReplyView>)
    requires
        opening_run(line, replies),
    ensures
        opening_next(line, replies) == Next::<SetupEnd>::Ask(RequestView::SpawnStream)
            <==> (replies.len() == 10 && replies[0] is Done && setup_run(line, replies.skip(1))
            && setup_next(line, replies.skip(1)) matches Next::Finish(Ok(_))),
        opening_next(line, replies) matches Next::Finish(Ok(response)) ==> replies.len() == 11
            && opening_next(line, replies.take(10)) == Next::<SetupEnd>::Ask(
            RequestView::SpawnStream,
        ) && setup_next(line, replies.subrange(1, 10)) == Next::<SetupEnd>::Finish(Ok(response)),
        opening_next(line, replies) matches Next::Finish(Err(fault)) ==> replies.len() > 0 && (
        replies == seq![replies[0]] && replies[0] is Failed && fault == SetupFault::Peer(
            replies[0]->Failed_0,
        ) || replies[0] is Done && setup_run(line, replies.skip(1)) && setup_next(
            line,
            replies.skip(1),
        ) == Next::<SetupEnd>::Finish(Err(fault))),
        opening_next(line, replies) matches Next::Finish(Err(_)) ==> forall|n: int|
            0 <= n <= replies.len() ==> #[trigger] opening_next(line, replies.take(n)) != Next::<
                SetupEnd,
            >::Ask(RequestView::SpawnStream),
{
    law_opening_is_bounded(line, replies);
    if replies.len() > 0 {
        lemma_opening_prefix(line, replies, 0);
    }
    if replies.len() > 0 && !(replies[0] is Failed) && replies.len() <= 10 {
        lemma_opening_sets_up(line, replies);
        if setup_next(line, replies.skip(1)) is Finish {
            law_setup_outcome(line, replies.skip(1));
        } else {
            law_setup_order(line, replies.skip(1), setup_next(line, replies.skip(1))->Ask_0);
        }
    }
    if replies.len() == 11 {
        lemma_opening_prefix(line, replies, 10);
        lemma_opening_prefix(line, replies, 1);
        let ten = replies.take(10);
        assert(replies.take(1)[0] == replies[0]);
        assert(ten[0] == replies[0]);
        lemma_opening_sets_up(line, ten);
        law_setup_is_bounded(line, ten.skip(1));
        assert(replies.subrange(1, 10) =~= ten.skip(1));
    }
    if opening_next(line, replies) matches Next::Finish(Err(_)) {
        if replies.len() > 1 {
            lemma_opening_prefix(line, replies, 1);
            assert(replies.take(1)[0] == replies[0]);
        }
        assert(replies.len() == 1 ==> replies =~= seq![replies[0]]);
        assert forall|n: int| 0 <= n <= replies.len() implies #[trigger] opening_next(
            line,
            replies.take(n),
        ) != Next::<SetupEnd>::Ask(RequestView::SpawnStream) by {
            let begun = replies.take(n);
            if n == replies.len() {
                assert(begun =~= replies);
            } else {
                lemma_opening_prefix(line, replies, n);
                law_opening_is_bounded(line, begun);
                if n > 0 && !(begun[0] is Failed) && n <= 10 {
                    lemma_opening_sets_up(line, begun);
                    if setup_next(line, begun.skip(1)) is Finish {
                        law_setup_outcome(line, begun.skip(1));
                    } else {
                        law_setup_order(
                            line,
                            begun.skip(1),
                            setup_next(line, begun.skip(1))->Ask_0,
                        );
                    }
                }
            }
        }
    }
}

pub(crate) proof fn lemma_handle_prefix(track: TrackLocalStaticRTP, replies: Seq<ReplyView>, n: int)
    requires
        handle_run(track, replies),
        0 <= n < replies.len(),
    ensures
        handle_run(track, replies.take(n)),
        awaits(handle_next(track, replies.take(n)), replies[n]),
    decreases replies.len(),
{
    let shorter = replies.drop_last();
    if n == replies.len() - 1 {
        assert(replies.take(n) =~= shorter);
    } else {
        lemma_handle_prefix(track, shorter, n);
        assert(replies.take(n) =~= shorter.take(n));
    }
}

/// A failed reply is the last one: nothing is asked for after it, and there is no response.
pub proof fn law_handle_stops_at_failure(track: TrackLocalStaticRTP, replies: Seq<ReplyView>)
    requires
        handle_run(track, replies),
    ensures
        forall|i: int|
            0 <= i < replies.len() && #[trigger] replies[i] is Failed ==> i == replies.len() - 1,
        replies.len() > 0 && replies.last() is Failed ==> handle_next(track, replies)
            == Next::<HandleEnd>::Finish(Err(HandleError::Peer(replies.last()->Failed_0))),
{
    assert forall|i: int| 0 <= i < replies.len() && #[trigger] replies[i] is Failed implies i
        == replies.len() - 1 by {
        if i < replies.len() - 1 {
            lemma_handle_prefix(track, replies, i + 1);
            assert(replies.take(i + 1).last() == replies[i]);
        }
    }
}

/// The work on a message takes ten replies at most.
pub proof fn law_handle_is_bounded(track: TrackLocalStaticRTP, replies: Seq<ReplyView>)
    requires
        handle_run(track, replies),
    ensures
        replies.len() <= 10,
        replies.len() == 10 ==> handle_next(track, replies) is Finish,
{
    if replies.len() > 10 {
        lemma_handle_prefix(track, replies, 10);
    }
}

/// A message that is worked off has a response if and only if no request failed, the offer could be
/// taken and the connection has a description of its own; the response is the JSON form of that.
/// Without one, the fault is that of the failed request, or says which description was not to be
/// had.
pub proof fn law_handle_outcome(track: TrackLocalStaticRTP, replies: Seq<ReplyView>)
    requires
        handle_run(track, replies),
        handle_next(track, replies) is Finish,
    ensures
        ({
            let end = handle_next(track, replies)->Finish_0;
            &&& end is Ok <==> forall|i: int|
                0 <= i < replies.len() ==> !(#[trigger] replies[i] is Failed || replies[i] is Undescribed)
            &&& end matches Ok(response) ==> replies.len() == 10 && replies[9] is Described
                && response == json_rendered(replies[9]->Described_0)
            &&& end matches Err(HandleError::Peer(e)) ==> replies.len() > 0 && replies.last()
                == ReplyView::Failed(e)
            &&& end matches Err(HandleError::OfferShared) ==> replies.len() == 4
                && replies[3] is Undescribed
            &&& end matches Err(HandleError::NoLocalDescription) ==> replies.len() == 10
                && replies[9] is Undescribed
            &&& !(end matches Err(HandleError::Json(_)))
        }),
{
    law_handle_stops_at_failure(track, replies);
    law_handle_is_bounded(track, replies);
    assert(replies.len() > 0);
    assert forall|i: int| 0 <= i < replies.len() - 1 implies !(#[trigger] replies[i] is Failed
        || replies[i] is Undescribed) by {
        lemma_handle_prefix(track, replies, i);
        lemma_handle_prefix(track, replies, i + 1);
        let begun = replies.take(i + 1);
        assert(begun.last() == replies[i]);
        if i == 9 {
            assert(begun.skip(5)[4] == replies[9]);
        }
        if i == 3 {
            assert(begun[3] == replies[3]);
        }
    }
    lemma_handle_prefix(track, replies, replies.len() - 1);
    if replies.len() == 10 {
        assert(replies.skip(5)[4] == replies[9]);
        assert(replies.skip(5).last() == replies.last());
    }
    assert(replies[replies.len() - 1] == replies.last());
}

/// What the connection is given, and when: the message's track first of all; as the remote
/// description the offer that was taken; an answer is created only after that was accepted; and the
/// local description is that answer.
pub proof fn law_handle_order(
    track: TrackLocalStaticRTP,
    replies: Seq<ReplyView>,
    request: RequestView,
)
    requires
        handle_run(track, replies),
        handle_next(track, replies) == Next::<HandleEnd>::Ask(request),
    ensures
        none_failed(replies),
        request matches RequestView::AddTrack(t) ==> t == track && replies.len() == 0,
        replies.len() > 0 ==> replies[0] is Done,
        request matches RequestView::SetRemoteDescription(offer) ==> replies.len() == 4
            && handle_next(track, replies.take(3)) == Next::<HandleEnd>::Ask(RequestView::TakeOffer)
            && replies[3] == ReplyView::Described(offer),
        request is CreateAnswer ==> replies.len() == 5 && replies[3] is Described && handle_next(
            track,
            replies.take(4),
        ) == Next::<HandleEnd>::Ask(
            RequestView::SetRemoteDescription(replies[3]->Described_0),
        ) && replies[4] is Done,
        request matches RequestView::SetLocalDescription(answer) ==> replies.len() == 7
            && handle_next(track, replies.take(5)) == Next::<HandleEnd>::Ask(
            RequestView::CreateAnswer,
        ) && replies[5] == ReplyView::Described(answer),
{
    law_handle_stops_at_failure(track, replies);
    law_handle_is_bounded(track, replies);
    if replies.len() > 0 {
        lemma_handle_prefix(track, replies, 0);
    }
    if replies.len() > 3 {
        lemma_handle_prefix(track, replies, 3);
    }
    if replies.len() > 4 {
        lemma_handle_prefix(track, replies, 4);
        assert(replies.take(4)[3] == replies[3]);
    }
    if replies.len() > 5 {
        lemma_handle_prefix(track, replies, 5);
        assert(replies.take(5).skip(5) =~= Seq::empty());
    }
}

/// The remote description is the recipient's own offer. It is set if and only if the offer could be
/// taken; otherwise the work ends there.
pub proof fn law_recipient_answers_its_offer(
    offer: Description,
    alone: bool,
    track: TrackLocalStaticRTP,
    replies: Seq<ReplyView>,
)
    requires
        handle_run(track, replies),
        replies.len() > 3 ==> replies[3] == offer_reply(offer, alone),
    ensures
        replies.len() == 4 ==> handle_next(track, replies) == (if alone {
            Next::<HandleEnd>::Ask(RequestView::SetRemoteDescription(offer))
        } else {
            Next::Finish(Err(HandleError::OfferShared))
        }),
        handle_next(track, replies) matches Next::Ask(RequestView::SetRemoteDescription(d))
            ==> replies.len() == 4 && alone && d == offer,
{
    law_handle_is_bounded(track, replies);
    if let Next::Ask(request) = handle_next(track, replies) {
        law_handle_order(track, replies, request);
    }
}

proof fn lemma_keyframe_prefix(media_ssrc: u32, events: Seq<KeyframeEvent>, n: int)
    requires
        keyframe_run(media_ssrc, events),
        0 <= n < events.len(),
    ensures
        keyframe_run(media_ssrc, events.take(n)),
        keyframe_next(media_ssrc, events.take(n)) matches Some(step) && keyframe_admits(
            step,
            events[n],
        ),
    decreases events.len(),
{
    let shorter = events.drop_last();
    if n == events.len() - 1 {
        assert(events.take(n) =~= shorter);
    } else {
        lemma_keyframe_prefix(media_ssrc, shorter, n);
        assert(events.take(n) =~= shorter.take(n));
    }
}

/// Every request for a keyframe names the track and comes after a full interval; asking goes on
/// until a request fails, and not beyond.
pub proof fn law_keyframes_at_intervals(media_ssrc: u32, events: Seq<KeyframeEvent>)
    requires
        keyframe_run(media_ssrc, events),
    ensures
        keyframe_next(media_ssrc, events) matches Some(KeyframeStep::Send(request)) ==> request == (
        KeyframeRequest { sender_ssrc: 0, media_ssrc }) && events.len() > 0
            && events.last() is Elapsed && keyframe_next(media_ssrc, events.drop_last()) == Some(
            KeyframeStep::Sleep(KEYFRAME_INTERVAL),
        ),
        keyframe_next(media_ssrc, events) is None <==> events.len() > 0 && events.last() is Failed,
        forall|i: int|
            0 <= i < events.len() && #[trigger] events[i] is Failed ==> i == events.len() - 1,
{
    assert forall|i: int| 0 <= i < events.len() && #[trigger] events[i] is Failed implies i
        == events.len() - 1 by {
        if i < events.len() - 1 {
            lemma_keyframe_prefix(media_ssrc, events, i + 1);
            assert(events.take(i + 1).last() == events[i]);
        }
    }
}

proof fn lemma_forward_prefix<P>(
    target: Option<TrackLocalStaticRTP>,
    events: Seq<ForwardEventView<P>>,
    n: int,
)
    requires
        forward_run(target, events),
        0 <= n < events.len(),
    ensures
        n > 0 ==> forward_run(target, events.take(n)),
        forward_next(target, events.take(n)) matches Some(step) && forward_admits(step, events[n]),
    decreases events.len(),
{
    let shorter = events.drop_last();
    if n == events.len() - 1 {
        assert(events.take(n) =~= shorter);
    } else {
        lemma_forward_prefix(target, shorter, n);
        assert(events.take(n) =~= shorter.take(n));
    }
}

/// The packets that were read.
pub open spec fn packets_read<P>(events: Seq<ForwardEventView<P>>) -> Seq<P>
    decreases events.len(),
{
    if events.len() == 0 {
        Seq::empty()
    } else {
        match events.last() {
            ForwardEventView::Packet(packet) => packets_read(events.drop_last()).push(packet),
            _ => packets_read(events.drop_last()),
        }
    }
}

/// The packets that were to be written, the pending step included, each with its local track.
pub open spec fn packets_written<P>(
    target: Option<TrackLocalStaticRTP>,
    events: Seq<ForwardEventView<P>>,
) -> Seq<(TrackLocalStaticRTP, P)>
    decreases events.len(),
{
    let before = if events.len() == 0 {
        Seq::empty()
    } else {
        packets_written(target, events.drop_last())
    };
    match forward_next(target, events) {
        Some(ForwardStepView::Write(track, packet)) => before.push((track, packet)),
        _ => before,
    }
}

proof fn lemma_packets_are_passed_on<P>(
    target: Option<TrackLocalStaticRTP>,
    events: Seq<ForwardEventView<P>>,
)
    requires
        forward_admitted(target, events),
    ensures
        packets_written(target, events) == packets_read(events).map_values(
            |packet: P| (target->0, packet),
        ),
    decreases events.len(),
{
    let on_target = |packet: P| (target->0, packet);
    if events.len() > 0 {
        lemma_packets_are_passed_on(target, events.drop_last());
        if let ForwardEventView::Packet(packet) = events.last() {
            assert(packets_read(events).map_values(on_target) =~= packets_read(
                events.drop_last(),
            ).map_values(on_target).push(on_target(packet)));
        }
    } else {
        assert(packets_read(events).map_values(on_target) =~= Seq::empty());
    }
}

/// The packets that are written are those that were read, each once and in order, and all of them
/// are written to the local track that was announced.
pub proof fn law_packets_are_passed_on<P>(
    target: Option<TrackLocalStaticRTP>,
    events: Seq<ForwardEventView<P>>,
)
    requires
        forward_run(target, events),
    ensures
        packets_written(target, events) == packets_read(events).map_values(
            |packet: P| (target->0, packet),
        ),
        events.len() > 0 ==> forward_next(target, events.take(1)) == Some(
            ForwardStepView::<P>::Announce(target->0),
        ),
{
    lemma_packets_are_passed_on(target, events);
    if events.len() > 0 {
        assert(events.take(1).last() == events[0]);
    }
}

/// The actor is told once, before any packet is read, of the local track, which has the remote
/// track's codec.
pub proof fn law_track_is_announced_once<P>(
    target: Option<TrackLocalStaticRTP>,
    events: Seq<ForwardEventView<P>>,
)
    requires
        forward_run(target, events),
    ensures
        events.len() > 0 ==> events[0] is Codec && target is Some && local_track_of(target->0) == (
        LocalTrack { codec: events[0]->Codec_0, id: "video"@, stream_id: "webrtc-rs"@ }),
        events.len() > 1 ==> events[1] is Announced,
        forall|i: int|
            2 <= i < events.len() ==> !(#[trigger] events[i] is Codec || events[i] is Announced),
        events.len() == 1 <==> forward_next(target, events) matches Some(
            ForwardStepView::Announce(_),
        ),
        forward_next(target, events) matches Some(ForwardStepView::Announce(track)) ==> Some(track)
            == target,
    decreases events.len(),
{
    if events.len() > 1 {
        let shorter = events.drop_last();
        law_track_is_announced_once(target, shorter);
        assert forall|i: int| 2 <= i < events.len() implies !(#[trigger] events[i] is Codec
            || events[i] is Announced) by {
            if i < events.len() - 1 {
                assert(shorter[i] == events[i]);
            } else {
                assert(shorter.last() == shorter[i - 1]);
            }
        }
        assert(events[0] == shorter[0]);
        if events.len() > 2 {
            assert(events[1] == shorter[1]);
        }
    }
}

/// Passing on ends with a read that fails or with a write that fails on an open pipe, and with
/// nothing else; no event comes after that.
pub proof fn law_forwarding_ends<P>(
    target: Option<TrackLocalStaticRTP>,
    events: Seq<ForwardEventView<P>>,
)
    requires
        forward_run(target, events),
    ensures
        forward_next(target, events) is None <==> events.len() > 0 && (events.last() is ReadFailed
            || (events.last() matches ForwardEventView::WriteFailed(e, _) && !is_closed_pipe(e))),
        forall|n: int|
            0 <= n < events.len() ==> #[trigger] forward_next(target, events.take(n)) is Some,
{
    assert forall|n: int| 0 <= n < events.len() implies #[trigger] forward_next(
        target,
        events.take(n),
    ) is Some by {
        lemma_forward_prefix(target, events, n);
    }
}

/// Asking for keyframes waits three seconds, sends one request that names the track, and so on, for
/// every track: a wait that is over is followed by a request, a request that was sent by a wait, and
/// one that failed by nothing.
pub proof fn law_keyframe_course(media_ssrc: u32, events: Seq<KeyframeEvent>)
    requires
        keyframe_run(media_ssrc, events),
    ensures
        events.len() == 0 ==> keyframe_next(media_ssrc, events) == Some(KeyframeStep::Sleep(3)),
        events.len() > 0 && events.last() is Elapsed ==> keyframe_next(media_ssrc, events) == Some(
            KeyframeStep::Send(KeyframeRequest { sender_ssrc: 0, media_ssrc }),
        ),
        events.len() > 0 && events.last() is Sent ==> keyframe_next(media_ssrc, events) == Some(
            KeyframeStep::Sleep(3),
        ),
        events.len() > 0 && events.last() is Failed ==> keyframe_next(media_ssrc, events) is None,
{
    if events.len() > 0 {
        assert(keyframe_next(media_ssrc, events.drop_last()) is Some);
    }
}

/// A wait ends by being over, a request by being sent or by failing, whatever with; and each of these
/// carries asking on.
pub proof fn law_keyframe_events(
    media_ssrc: u32,
    events: Seq<KeyframeEvent>,
    step: KeyframeStep,
    event: KeyframeEvent,
)
    ensures
        keyframe_admits(step, event) <==> (step is Sleep && event is Elapsed) || (step is Send && (
        event is Sent || event is Failed)),
        keyframe_run(media_ssrc, Seq::empty()),
        keyframe_run(media_ssrc, events) && keyframe_next(media_ssrc, events) == Some(step)
            && keyframe_admits(step, event) ==> keyframe_run(media_ssrc, events.push(event)),
{
    assert(events.push(event).drop_last() =~= events);
}

/// Passing on fetches the codec, announces a local track of this codec, and then takes turns: a packet
/// is read, and the packet that was read is written to that track, whatever it holds. A failed read is
/// the end, and so is a failed write, unless the pipe was closed.
pub proof fn law_forward_course<P>(
    target: Option<TrackLocalStaticRTP>,
    events: Seq<ForwardEventView<P>>,
)
    requires
        forward_run(target, events),
    ensures
        events.len() == 0 ==> target is None && forward_next(target, events) == Some(
            ForwardStepView::<P>::FetchCodec,
        ),
        events.len() > 0 ==> target is Some && match events.last() {
            ForwardEventView::Codec(codec) => local_track_of(target->0) == (LocalTrack {
                codec,
                id: "video"@,
                stream_id: "webrtc-rs"@,
            }) && forward_next(target, events) == Some(
                ForwardStepView::<P>::Announce(target->0),
            ),
            ForwardEventView::Announced => forward_next(target, events) == Some(
                ForwardStepView::<P>::Read,
            ),
            ForwardEventView::Packet(packet) => forward_next(target, events) == Some(
                ForwardStepView::Write(target->0, packet),
            ),
            ForwardEventView::ReadFailed => forward_next(target, events) is None,
            ForwardEventView::Written => forward_next(target, events) == Some(
                ForwardStepView::<P>::Read,
            ),
            ForwardEventView::WriteFailed(e, _) => if is_closed_pipe(e) {
                forward_next(target, events) == Some(ForwardStepView::<P>::Read)
            } else {
                forward_next(target, events) is None
            },
        },
{
    law_track_is_announced_once(target, events);
    if events.len() > 0 {
        assert(events.last() == events[events.len() - 1]);
        if events.last() is Codec {
            assert(events.len() == 1);
        }
    }
}

/// Each step ends in the events of its kind, whatever they carry; and each of these carries passing on
/// on.
pub proof fn law_forward_events<P>(
    target: Option<TrackLocalStaticRTP>,
    events: Seq<ForwardEventView<P>>,
    step: ForwardStepView<P>,
    event: ForwardEventView<P>,
)
    ensures
        forward_admits(step, event) <==> (step is FetchCodec && event is Codec) || (step is Announce
            && event is Announced) || (step is Read && (event is Packet || event is ReadFailed)) || (
        step is Write && (event is Written || event is WriteFailed)),
        forward_run(None, Seq::<ForwardEventView<P>>::empty()),
        forward_run(target, events) && events.len() > 0 && forward_next(target, events) == Some(step)
            && forward_admits(step, event) ==> forward_run(target, events.push(event)),
{
    assert(events.push(event).drop_last() =~= events);
    if events.len() > 0 {
        assert(events.push(event)[0] == events[0]);
    }
}

/// There is a report on every failed write and on nothing else. It names the error, and says that this
/// is the end if and only if it is.
pub proof fn law_failed_writes_are_reported<P>(
    target: Option<TrackLocalStaticRTP>,
    events: Seq<ForwardEventView<P>>,
)
    requires
        forward_run(target, events),
        events.len() > 0,
    ensures
        forward_report(events.last()) is Some <==> events.last() is WriteFailed,
        events.last() matches ForwardEventView::WriteFailed(_, text) ==> forward_report(
            events.last(),
        ) == Some(
            if forward_next(target, events) is None {
                "output track write_rtp got error: "@ + text + " and break"@
            } else {
                "output track write_rtp got error: "@ + text
            },
        ),
        forall|text: Seq<char>, goes_on: bool| #[trigger]
            write_error_text(text, goes_on) == (if goes_on {
                "output track write_rtp got error: "@ + text
            } else {
                "output track write_rtp got error: "@ + text + " and break"@
            }),
{
}

/// Events and steps are known by their kind and by all that they carry.
pub proof fn law_forwarding_keeps_what_is_carried<P>(event: ForwardEvent<P>, step: ForwardStep<P>)
    ensures
        event matches ForwardEvent::Codec(codec) ==> event@ == ForwardEventView::<P>::Codec(codec),
        event matches ForwardEvent::Packet(packet) ==> event@ == ForwardEventView::Packet(packet),
        event matches ForwardEvent::WriteFailed(e, text) ==> event@
            == ForwardEventView::<P>::WriteFailed(e, text@),
        event is Announced <==> event@ is Announced,
        event is ReadFailed <==> event@ is ReadFailed,
        event is Written <==> event@ is Written,
        step matches ForwardStep::Announce(message) ==> step@ == ForwardStepView::<P>::Announce(
            *message.local_track,
        ),
        step matches ForwardStep::Write(track, packet) ==> step@ == ForwardStepView::Write(
            *track,
            packet,
        ),
        step is FetchCodec <==> step@ is FetchCodec,
        step is Read <==> step@ is Read,
{
}

/// What came to one of the two tasks of a remote track.
pub enum TrackEvent<P> {
    Keyframe(KeyframeEvent),
    Forward(ForwardEventView<P>),
}

/// What came to the keyframe task of one track, out of what came to all tracks.
pub open spec fn keyframe_events<P>(all: Seq<(int, TrackEvent<P>)>, track: int) -> Seq<
    KeyframeEvent,
>
    decreases all.len(),
{
    if all.len() == 0 {
        Seq::empty()
    } else {
        match all.last().1 {
            TrackEvent::Keyframe(event) if all.last().0 == track => keyframe_events(
                all.drop_last(),
                track,
            ).push(event),
            _ => keyframe_events(all.drop_last(), track),
        }
    }
}

/// What came to the forwarding task of one track, out of what came to all tracks.
pub open spec fn forward_events<P>(all: Seq<(int, TrackEvent<P>)>, track: int) -> Seq<
    ForwardEventView<P>,
>
    decreases all.len(),
{
    if all.len() == 0 {
        Seq::empty()
    } else {
        match all.last().1 {
            TrackEvent::Forward(event) if all.last().0 == track => forward_events(
                all.drop_last(),
                track,
            ).push(event),
            _ => forward_events(all.drop_last(), track),
        }
    }
}

/// The tasks of all tracks run side by side, in whatever order their events come.
pub open spec fn tracks_run<P>(
    ssrcs: Seq<u32>,
    targets: Seq<Option<TrackLocalStaticRTP>>,
    all: Seq<(int, TrackEvent<P>)>,
) -> bool {
    &&& ssrcs.len() == targets.len()
    &&& forall|k: int|
        0 <= k < ssrcs.len() ==> #[trigger] keyframe_run(ssrcs[k], keyframe_events(all, k))
    &&& forall|k: int|
        0 <= k < targets.len() ==> #[trigger] forward_run(targets[k], forward_events(all, k))
}

/// What comes to other tasks, of the same track or of others, changes nothing in what a task does
/// next. In particular the end of one stops none of the others.
pub proof fn law_tasks_are_independent<P>(
    ssrc: u32,
    target: Option<TrackLocalStaticRTP>,
    all: Seq<(int, TrackEvent<P>)>,
    later: Seq<(int, TrackEvent<P>)>,
    track: int,
)
    ensures
        (forall|i: int|
            0 <= i < later.len() ==> !((#[trigger] later[i]).0 == track && later[i].1 is Keyframe))
            ==> keyframe_next(ssrc, keyframe_events(all + later, track)) == keyframe_next(
            ssrc,
            keyframe_events(all, track),
        ),
        (forall|i: int|
            0 <= i < later.len() ==> !((#[trigger] later[i]).0 == track && later[i].1 is Forward))
            ==> forward_next(target, forward_events(all + later, track)) == forward_next(
            target,
            forward_events(all, track),
        ),
{
    lemma_later_events(all, later, track);
}

proof fn lemma_later_events<P>(
    all: Seq<(int, TrackEvent<P>)>,
    later: Seq<(int, TrackEvent<P>)>,
    track: int,
)
    ensures
        (forall|i: int|
            0 <= i < later.len() ==> !((#[trigger] later[i]).0 == track && later[i].1 is Keyframe))
            ==> keyframe_events(all + later, track) == keyframe_events(all, track),
        (forall|i: int|
            0 <= i < later.len() ==> !((#[trigger] later[i]).0 == track && later[i].1 is Forward))
            ==> forward_events(all + later, track) == forward_events(all, track),
    decreases later.len(),
{
    if later.len() == 0 {
        assert(all + later =~= all);
    } else {
        let earlier = later.drop_last();
        lemma_later_events(all, earlier, track);
        assert((all + later).drop_last() =~= all + earlier);
        assert((all + later).last() == later[later.len() - 1]);
        assert forall|i: int| 0 <= i < earlier.len() implies #[trigger] earlier[i] == later[i] by {}
    }
}

/// Each track asks for keyframes under its own identifier, announces its own local track, and has
/// just the packets that were read from it written, to that local track.
pub proof fn law_tracks_are_kept_apart<P>(
    ssrcs: Seq<u32>,
    targets: Seq<Option<TrackLocalStaticRTP>>,
    all: Seq<(int, TrackEvent<P>)>,
    k: int,
)
    requires
        tracks_run(ssrcs, targets, all),
        0 <= k < ssrcs.len(),
    ensures
        keyframe_next(ssrcs[k], keyframe_events(all, k)) matches Some(KeyframeStep::Send(request))
            ==> request.media_ssrc == ssrcs[k],
        forward_next(targets[k], forward_events(all, k)) matches Some(
            ForwardStepView::Announce(track),
        ) ==> Some(track) == targets[k],
        packets_written(targets[k], forward_events(all, k)) == packets_read(
            forward_events(all, k),
        ).map_values(|packet: P| (targets[k]->0, packet)),
{
    assert(forward_run(targets[k], forward_events(all, k)));
    assert(keyframe_run(ssrcs[k], keyframe_events(all, k)));
    law_keyframes_at_intervals(ssrcs[k], keyframe_events(all, k));
    law_track_is_announced_once(targets[k], forward_events(all, k));
    law_packets_are_passed_on(targets[k], forward_events(all, k));
}

/// Encoding goes on where it stopped: the base64 form of a text whose bytes fill whole groups of
/// three is followed by that of what comes after it.
pub proof fn law_encoding_concatenates(a: Seq<char>, c: Seq<char>)
    requires
        encode_utf8(a).len() % 3 == 0,
    ensures
        encoded(a + c) == encoded(a) + encoded(c),
{
    lemma_utf8_concat(a, c);
    lemma_base64_concat(encode_utf8(a), encode_utf8(c));
}

/// Decoding gives back what was encoded, also where padding is left out.
pub proof fn law_decoding_undoes_encoding(text: Seq<char>, len: int)
    requires
        8 * encode_utf8(text).len() <= 6 * len,
        len <= encoded(text).len(),
    ensures
        decoded(encoded(text).take(len)) == Ok::<Seq<char>, DecodeFault>(text),
        decoded(encoded(text)) == Ok::<Seq<char>, DecodeFault>(text),
{
    let bytes = encode_utf8(text);
    encode_utf8_valid_utf8(text);
    encode_utf8_decode_utf8(text);
    assert(encoded(text).take(len).len() == len);
    lemma_decoded(encoded(text).take(len), bytes);
    assert(encoded(text).take(encoded(text).len() as int) =~= encoded(text));
    lemma_decoded(encoded(text), bytes);
}

/// A text whose number of bytes is a multiple of four, if it is accepted, is the base64 form of its
/// result.
pub proof fn law_padded_text_is_canonical(line: Seq<char>, text: Seq<char>)
    requires
        encode_utf8(line).len() % 4 == 0,
        decoded(line) == Ok::<Seq<char>, DecodeFault>(text),
    ensures
        line == encoded(text),
{
    let bytes = base64_decoded(line)->Ok_0;
    assert(is_base64(line) && stands_for(line, bytes));
    assert(line.len() % 4 == 0) by {
        lemma_base64_is_ascii(line);
        is_ascii_chars_encode_utf8(line);
    }
    lemma_full_length(line, bytes);
    assert(encode_utf8(text) == bytes) by {
        assert(valid_utf8(bytes) && text == decode_utf8(bytes));
        decode_utf8_encode_utf8(bytes);
    }
}

/// Two different padded texts are never decoded to the same result.
pub proof fn law_padded_texts_are_unique(line: Seq<char>, other: Seq<char>, text: Seq<char>)
    requires
        encode_utf8(line).len() % 4 == 0,
        encode_utf8(other).len() % 4 == 0,
        decoded(line) == Ok::<Seq<char>, DecodeFault>(text),
        decoded(other) == Ok::<Seq<char>, DecodeFault>(text),
    ensures
        line == other,
{
    law_padded_text_is_canonical(line, text);
    law_padded_text_is_canonical(other, text);
}

/// A text with a character that is neither a base64 symbol nor the padding sign, such as a line break
/// or a brace, is refused.
pub proof fn law_foreign_characters_are_refused(line: Seq<char>, i: int)
    requires
        0 <= i < line.len(),
        !is_base64_char(line[i]),
        line[i] != '=',
    ensures
        decoded(line) == Err::<Seq<char>, DecodeFault>(DecodeFault::Base64(base64_fault(line))),
{
    if is_base64(line) {
        lemma_base64_is_ascii(line);
    }
}

/// Control packets are read until the first read that fails, and not beyond.
pub proof fn law_draining_ends_at_the_first_failure(reads: Seq<Result<usize, anyhow::Error>>)
    requires
        drain_run(reads),
    ensures
        forall|i: int| 0 <= i < reads.len() - 1 ==> #[trigger] reads[i] is Ok,
        drain_next(reads) == Turn::End <==> reads.len() > 0 && reads.last() is Err,
    decreases reads.len(),
{
    if reads.len() > 1 {
        let shorter = reads.drop_last();
        law_draining_ends_at_the_first_failure(shorter);
        assert forall|i: int| 0 <= i < reads.len() - 1 implies #[trigger] reads[i] is Ok by {
            assert(shorter[i] == reads[i]);
        }
    }
}

/// The stream is polled as long as the actor is alive: each poll but the last finds it alive and polls
/// it once, and the stream ends with the first poll that does not.
pub proof fn law_stream_lasts_as_long_as_the_actor(alive: Seq<bool>)
    requires
        stream_run(alive.map_values(|alive: bool| polled_item(alive))),
    ensures
        forall|i: int| 0 <= i < alive.len() - 1 ==> #[trigger] alive[i],
        stream_next(alive.map_values(|alive: bool| polled_item(alive))) == Turn::End
            <==> alive.len() > 0 && !alive.last(),
    decreases alive.len(),
{
    let items = alive.map_values(|alive: bool| polled_item(alive));
    if alive.len() > 1 {
        let shorter = alive.drop_last();
        assert(items.drop_last() =~= shorter.map_values(|alive: bool| polled_item(alive)));
        law_stream_lasts_as_long_as_the_actor(shorter);
        assert forall|i: int| 0 <= i < alive.len() - 1 implies #[trigger] alive[i] by {
            assert(shorter[i] == alive[i]);
        }
    }
}

} // verus!
