//! Remote tracks: asking their publisher for keyframes, and passing their packets on.

use std::sync::Arc;
use vstd::pervasive::unreached;
use vstd::prelude::*;
use webrtc::media::rtp::rtp_codec::RTCRtpCodecCapability;
use webrtc::media::track::track_local::track_local_static_rtp::TrackLocalStaticRTP;

verus! {

/// `webrtc`'s description of a codec, carried through as it is.
#[verifier::external_type_specification]
#[verifier::external_body]
pub struct ExCodecCapability(RTCRtpCodecCapability);

/// Tells an actor of the local track on which a remote track's packets are passed on.
pub struct LocalTrackMessage {
    pub local_track: Arc<TrackLocalStaticRTP>,
}

/// What a local track is made from.
pub struct LocalTrack {
    pub codec: RTCRtpCodecCapability,
    pub id: Seq<char>,
    pub stream_id: Seq<char>,
}

/// The codec, the id and the stream id that a local track holds.
pub uninterp spec fn local_track_of(track: TrackLocalStaticRTP) -> LocalTrack;

/// Whether an error is `webrtc`'s `Error::ErrClosedPipe`, as `Error::equal` decides it.
pub uninterp spec fn is_closed_pipe(error: anyhow::Error) -> bool;

/// `TrackLocalStaticRTP::new`: a track that holds just these.
#[verifier::external_body]
fn new_local_track(codec: RTCRtpCodecCapability, id: String, stream_id: String) -> (r:
    TrackLocalStaticRTP)
    ensures
        local_track_of(r) == (LocalTrack { codec, id: id@, stream_id: stream_id@ }),
{
    TrackLocalStaticRTP::new(codec, id, stream_id)
}

/// `Error::ErrClosedPipe.equal`: the named result.
#[verifier::external_body]
fn closed_pipe(error: &anyhow::Error) -> (r: bool)
    ensures
        r == is_closed_pipe(*error),
{
    webrtc::error::Error::ErrClosedPipe.equal(error)
}

/// `anyhow::Error`'s `Display`. Nothing is said of the text: it is that of the error inside, which can
/// have it from the operating system.
#[verifier::external_body]
fn display_error(error: &anyhow::Error) -> (r: String) {
    error.to_string()
}

/// Asks a publisher for a keyframe.
#[derive(Debug, Clone, Copy, PartialEq, Eq, Structural)]
pub struct KeyframeRequest {
    pub sender_ssrc: u32,
    pub media_ssrc: u32,
}

/// The seconds between two requests for a keyframe.
pub const KEYFRAME_INTERVAL: u64 = 3;

/// What became of the last step of asking for keyframes.
#[derive(Debug)]
pub enum KeyframeEvent {
    Elapsed,
    /// The request was sent, with this many bytes.
    Sent(usize),
    Failed(anyhow::Error),
}

/// The next step of asking for keyframes.
#[derive(Debug, Clone, Copy, PartialEq, Eq, Structural)]
pub enum KeyframeStep {
    /// Wait for this many seconds.
    Sleep(u64),
    Send(KeyframeRequest),
}

/// What is done once these events have come: waiting and sending take turns until sending fails.
pub open spec fn keyframe_next(media_ssrc: u32, events: Seq<KeyframeEvent>) -> Option<
    KeyframeStep,
> {
    if events.len() > 0 && events.last() is Failed {
        None
    } else if events.len() % 2 == 0 {
        Some(KeyframeStep::Sleep(KEYFRAME_INTERVAL))
    } else {
        Some(KeyframeStep::Send(KeyframeRequest { sender_ssrc: 0, media_ssrc }))
    }
}

/// A step can end in this event.
pub open spec fn keyframe_admits(step: KeyframeStep, event: KeyframeEvent) -> bool {
    match step {
        KeyframeStep::Sleep(_) => event is Elapsed,
        KeyframeStep::Send(_) => event is Sent || event is Failed,
    }
}

/// Each event is one that the step before it can end in.
pub open spec fn keyframe_run(media_ssrc: u32, events: Seq<KeyframeEvent>) -> bool
    decreases events.len(),
{
    events.len() == 0 || {
        &&& keyframe_run(media_ssrc, events.drop_last())
        &&& keyframe_next(media_ssrc, events.drop_last()) matches Some(step) && keyframe_admits(
            step,
            events.last(),
        )
    }
}

impl KeyframeStep {
    /// Whether the step can end in the event.
    pub fn admits(&self, event: &KeyframeEvent) -> (r: bool)
        ensures
            r == keyframe_admits(*self, *event),
    {
        match self {
            KeyframeStep::Sleep(_) => match event {
                KeyframeEvent::Elapsed => true,
                _ => false,
            },
            KeyframeStep::Send(_) => match event {
                KeyframeEvent::Elapsed => false,
                _ => true,
            },
        }
    }
}

/// Asks the publisher of a track for keyframes, again and again.
pub struct Keyframes {
    media_ssrc: u32,
    events: Ghost<Seq<KeyframeEvent>>,
}

impl Keyframes {
    #[verifier::type_invariant]
    closed spec fn wf(self) -> bool {
        keyframe_run(self.media_ssrc, self.events@)
    }

    pub closed spec fn media_ssrc(&self) -> u32 {
        self.media_ssrc
    }

    /// The events that have come.
    pub closed spec fn events(&self) -> Seq<KeyframeEvent> {
        self.events@
    }

    /// Starts asking for keyframes of the track.
    pub fn new(media_ssrc: u32) -> (r: (Keyframes, KeyframeStep))
        ensures
            r.0.media_ssrc() == media_ssrc,
            r.0.events() == Seq::<KeyframeEvent>::empty(),
            keyframe_next(media_ssrc, Seq::empty()) == Some(r.1),
            r.1 == KeyframeStep::Sleep(3),
    {
        (
            Keyframes { media_ssrc, events: Ghost(Seq::empty()) },
            KeyframeStep::Sleep(KEYFRAME_INTERVAL),
        )
    }

    /// Goes on after the pending step: `None` is the end.
    pub fn resume(self, event: KeyframeEvent) -> (r: Option<(Keyframes, KeyframeStep)>)
        requires
            keyframe_next(self.media_ssrc(), self.events()) matches Some(step) && keyframe_admits(
                step,
                event,
            ),
        ensures
            keyframe_run(self.media_ssrc(), self.events().push(event)),
            match r {
                Some((keyframes, step)) => keyframes.media_ssrc() == self.media_ssrc()
                    && keyframes.events() == self.events().push(event) && keyframe_next(
                    self.media_ssrc(),
                    self.events().push(event),
                ) == Some(step),
                None => keyframe_next(self.media_ssrc(), self.events().push(event)) is None,
            },
            match event {
                KeyframeEvent::Elapsed => r matches Some((_, step)) && step == KeyframeStep::Send(
                    KeyframeRequest { sender_ssrc: 0, media_ssrc: self.media_ssrc() },
                ),
                KeyframeEvent::Sent(_) => r matches Some((_, step)) && step == KeyframeStep::Sleep(
                    3,
                ),
                KeyframeEvent::Failed(_) => r is None,
            },
    {
        let media_ssrc: u32 = self.media_ssrc;
        let ghost events = self.events@.push(event);
        proof {
            use_type_invariant(&self);
            assert(events.drop_last() =~= self.events@);
        }
        match event {
            KeyframeEvent::Elapsed => Some(
                (
                    Keyframes { media_ssrc, events: Ghost(events) },
                    KeyframeStep::Send(KeyframeRequest { sender_ssrc: 0, media_ssrc }),
                ),
            ),
            KeyframeEvent::Sent(_) => Some(
                (
                    Keyframes { media_ssrc, events: Ghost(events) },
                    KeyframeStep::Sleep(KEYFRAME_INTERVAL),
                ),
            ),
            KeyframeEvent::Failed(_) => None,
        }
    }
}

/// What became of the last step of passing packets on.
#[derive(Debug)]
pub enum ForwardEvent<P> {
    /// The remote track's codec.
    Codec(RTCRtpCodecCapability),
    /// The actor was told, whatever it replied.
    Announced,
    /// A packet was read.
    Packet(P),
    ReadFailed,
    Written,
    /// A packet could not be written: the error and its text.
    WriteFailed(anyhow::Error, String),
}

impl<P> ForwardEvent<P> {
    /// A write that failed with this error, of which the text is taken.
    pub fn write_failed(error: anyhow::Error) -> (r: ForwardEvent<P>)
        ensures
            r is WriteFailed && r->WriteFailed_0 == error,
    {
        let text = display_error(&error);
        ForwardEvent::WriteFailed(error, text)
    }
}

/// The next step of passing packets on.
pub enum ForwardStep<P> {
    FetchCodec,
    /// Tell the actor.
    Announce(LocalTrackMessage),
    /// Read a packet from the remote track.
    Read,
    /// Write the packet to the local track.
    Write(Arc<TrackLocalStaticRTP>, P),
}

/// An event as a mathematical value.
pub enum ForwardEventView<P> {
    Codec(RTCRtpCodecCapability),
    Announced,
    Packet(P),
    ReadFailed,
    Written,
    WriteFailed(anyhow::Error, Seq<char>),
}

/// A step as a mathematical value.
pub enum ForwardStepView<P> {
    FetchCodec,
    Announce(TrackLocalStaticRTP),
    Read,
    Write(TrackLocalStaticRTP, P),
}

impl<P> View for ForwardEvent<P> {
    type V = ForwardEventView<P>;

    open spec fn view(&self) -> ForwardEventView<P> {
        match *self {
            ForwardEvent::Codec(codec) => ForwardEventView::Codec(codec),
            ForwardEvent::Announced => ForwardEventView::Announced,
            ForwardEvent::Packet(packet) => ForwardEventView::Packet(packet),
            ForwardEvent::ReadFailed => ForwardEventView::ReadFailed,
            ForwardEvent::Written => ForwardEventView::Written,
            ForwardEvent::WriteFailed(e, text) => ForwardEventView::WriteFailed(e, text@),
        }
    }
}

impl<P> View for ForwardStep<P> {
    type V = ForwardStepView<P>;

    open spec fn view(&self) -> ForwardStepView<P> {
        match *self {
            ForwardStep::FetchCodec => ForwardStepView::FetchCodec,
            ForwardStep::Announce(message) => ForwardStepView::Announce(*message.local_track),
            ForwardStep::Read => ForwardStepView::Read,
            ForwardStep::Write(track, packet) => ForwardStepView::Write(*track, packet),
        }
    }
}

/// What is done once these events have come, with the local track that was made upon the first:
/// `None` is the end. The track is announced; a packet that was read is written to it; a failed read
/// is the end; a failed write is the end unless the pipe was closed.
pub open spec fn forward_next<P>(
    target: Option<TrackLocalStaticRTP>,
    events: Seq<ForwardEventView<P>>,
) -> Option<ForwardStepView<P>> {
    if events.len() == 0 {
        Some(ForwardStepView::FetchCodec)
    } else {
        match events.last() {
            ForwardEventView::Codec(_) => Some(ForwardStepView::Announce(target->0)),
            ForwardEventView::Announced => Some(ForwardStepView::Read),
            ForwardEventView::Packet(packet) => Some(ForwardStepView::Write(target->0, packet)),
            ForwardEventView::ReadFailed => None,
            ForwardEventView::Written => Some(ForwardStepView::Read),
            ForwardEventView::WriteFailed(e, _) => if is_closed_pipe(e) {
                Some(ForwardStepView::Read)
            } else {
                None
            },
        }
    }
}

/// The report on the last event: one on each failed write.
pub open spec fn forward_report<P>(event: ForwardEventView<P>) -> Option<Seq<char>> {
    match event {
        ForwardEventView::WriteFailed(e, text) => Some(write_error_text(text, is_closed_pipe(e))),
        _ => None,
    }
}

/// The report on a failed write.
pub open spec fn write_error_text(error: Seq<char>, goes_on: bool) -> Seq<char> {
    if goes_on {
        "output track write_rtp got error: "@ + error
    } else {
        "output track write_rtp got error: "@ + error + " and break"@
    }
}

/// A step can end in this event.
pub open spec fn forward_admits<P>(step: ForwardStepView<P>, event: ForwardEventView<P>) -> bool {
    match step {
        ForwardStepView::FetchCodec => event is Codec,
        ForwardStepView::Announce(_) => event is Announced,
        ForwardStepView::Read => event is Packet || event is ReadFailed,
        ForwardStepView::Write(_, _) => event is Written || event is WriteFailed,
    }
}

/// The local track is made upon the first event, from the codec that this tells.
pub open spec fn is_target<P>(
    target: Option<TrackLocalStaticRTP>,
    events: Seq<ForwardEventView<P>>,
) -> bool {
    match target {
        Some(track) => events.len() > 0 && events[0] is Codec && local_track_of(track) == (
        LocalTrack { codec: events[0]->Codec_0, id: "video"@, stream_id: "webrtc-rs"@ }),
        None => events.len() == 0,
    }
}

/// Each event is one that the step before it can end in.
pub open spec fn forward_admitted<P>(
    target: Option<TrackLocalStaticRTP>,
    events: Seq<ForwardEventView<P>>,
) -> bool
    decreases events.len(),
{
    events.len() == 0 || {
        &&& forward_admitted(target, events.drop_last())
        &&& forward_next(target, events.drop_last()) matches Some(step) && forward_admits(
            step,
            events.last(),
        )
    }
}

/// The events of passing packets on to this local track.
pub open spec fn forward_run<P>(
    target: Option<TrackLocalStaticRTP>,
    events: Seq<ForwardEventView<P>>,
) -> bool {
    is_target(target, events) && forward_admitted(target, events)
}

impl<P> ForwardStep<P> {
    /// Whether the step can end in the event.
    pub fn admits(&self, event: &ForwardEvent<P>) -> (r: bool)
        ensures
            r == forward_admits(self@, event@),
    {
        match self {
            ForwardStep::FetchCodec => match event {
                ForwardEvent::Codec(_) => true,
                _ => false,
            },
            ForwardStep::Announce(_) => match event {
                ForwardEvent::Announced => true,
                _ => false,
            },
            ForwardStep::Read => match event {
                ForwardEvent::Packet(_) => true,
                ForwardEvent::ReadFailed => true,
                _ => false,
            },
            ForwardStep::Write(_, _) => match event {
                ForwardEvent::Written => true,
                ForwardEvent::WriteFailed(_, _) => true,
                _ => false,
            },
        }
    }
}

/// Passes the packets of a remote track on to a local one.
pub struct Forwarding<P> {
    target: Option<Arc<TrackLocalStaticRTP>>,
    events: Ghost<Seq<ForwardEventView<P>>>,
}

/// What comes of an event: a report to be printed, if any, and the next step, if any.
pub struct Forwarded<P> {
    pub report: Option<String>,
    pub next: Option<(Forwarding<P>, ForwardStep<P>)>,
}

impl<P> Forwarding<P> {
    #[verifier::type_invariant]
    closed spec fn wf(self) -> bool {
        forward_run(self.target(), self.events@)
    }

    /// The local track, once it is made.
    pub closed spec fn target(&self) -> Option<TrackLocalStaticRTP> {
        match self.target {
            Some(track) => Some(*track),
            None => None,
        }
    }

    /// The events that have come.
    pub closed spec fn events(&self) -> Seq<ForwardEventView<P>> {
        self.events@
    }

    /// Starts passing packets on.
    pub fn new() -> (r: (Forwarding<P>, ForwardStep<P>))
        ensures
            r.0.target() is None,
            r.0.events() == Seq::<ForwardEventView<P>>::empty(),
            forward_next(None, Seq::<ForwardEventView<P>>::empty()) == Some(r.1@),
    {
        (Forwarding { target: None, events: Ghost(Seq::empty()) }, ForwardStep::FetchCodec)
    }

    /// Goes on after the pending step. The local track is made upon the remote track's codec, and
    /// stays the same from then on.
    pub fn resume(self, event: ForwardEvent<P>) -> (r: Forwarded<P>)
        requires
            forward_next(self.target(), self.events()) matches Some(step) && forward_admits(
                step,
                event@,
            ),
        ensures
            match r.report {
                Some(report) => forward_report(event@) == Some(report@),
                None => forward_report(event@) is None,
            },
            match r.next {
                Some((forwarding, step)) => forwarding.events() == self.events().push(event@)
                    && forward_run(forwarding.target(), forwarding.events()) && forward_next(
                    forwarding.target(),
                    forwarding.events(),
                ) == Some(step@) && (!(event is Codec) ==> forwarding.target() == self.target()),
                None => forward_run(self.target(), self.events().push(event@)) && forward_next(
                    self.target(),
                    self.events().push(event@),
                ) is None,
            },
            match event {
                ForwardEvent::Codec(codec) => r.next matches Some((_, step)) && step is Announce
                    && local_track_of(*step->Announce_0.local_track) == (LocalTrack {
                    codec,
                    id: "video"@,
                    stream_id: "webrtc-rs"@,
                }),
                ForwardEvent::Packet(packet) => r.next matches Some((_, step)) && step is Write
                    && Some(*step->Write_0) == self.target() && step->Write_1 == packet,
                ForwardEvent::Announced | ForwardEvent::Written => r.next matches Some((_, step))
                    && step is Read,
                ForwardEvent::ReadFailed => r.next is None,
                ForwardEvent::WriteFailed(e, _) => if is_closed_pipe(e) {
                    r.next matches Some((_, step)) && step is Read
                } else {
                    r.next is None
                },
            },
    {
        let ghost events = self.events@.push(event@);
        proof {
            use_type_invariant(&self);
            assert(events.drop_last() =~= self.events@);
        }
        let target = self.target;
        match event {
            ForwardEvent::Codec(codec) => {
                let track = new_local_track(codec, "video".to_owned(), "webrtc-rs".to_owned());
                let local_track = Arc::new(track);
                let message = LocalTrackMessage { local_track: local_track.clone() };
                assert(forward_admitted(Some(*local_track), events.drop_last()));
                let forwarding = Forwarding { target: Some(local_track), events: Ghost(events) };
                Forwarded { report: None, next: Some((forwarding, ForwardStep::Announce(message))) }
            },
            ForwardEvent::Announced => Forwarded {
                report: None,
                next: Some((Forwarding { target, events: Ghost(events) }, ForwardStep::Read)),
            },
            ForwardEvent::Packet(packet) => match target {
                Some(track) => {
                    let forwarding = Forwarding {
                        target: Some(track.clone()),
                        events: Ghost(events),
                    };
                    Forwarded {
                        report: None,
                        next: Some((forwarding, ForwardStep::Write(track, packet))),
                    }
                },
                None => unreached(),
            },
            ForwardEvent::ReadFailed => Forwarded { report: None, next: None },
            ForwardEvent::Written => Forwarded {
                report: None,
                next: Some((Forwarding { target, events: Ghost(events) }, ForwardStep::Read)),
            },
            ForwardEvent::WriteFailed(e, text) => {
                let pipe_closed = closed_pipe(&e);
                Forwarding { target, events: Ghost(events) }.failed_write(text.as_str(), pipe_closed)
            },
        }
    }

    /// Goes on after a write that failed with this text: packets are read on if the pipe was
    /// closed.
    pub fn failed_write(self, text: &str, pipe_closed: bool) -> (r: Forwarded<P>)
        ensures
            r.report matches Some(report) && report@ == write_error_text(text@, pipe_closed),
            if pipe_closed {
                r.next matches Some((forwarding, step)) && forwarding.target() == self.target()
                    && forwarding.events() == self.events() && step@ == ForwardStepView::<P>::Read
            } else {
                r.next is None
            },
    {
        let report = Some(write_error_report(text, pipe_closed));
        if pipe_closed {
            Forwarded { report, next: Some((self, ForwardStep::Read)) }
        } else {
            Forwarded { report, next: None }
        }
    }
}

/// The report on a failed write, after which packets are passed on or not.
pub fn write_error_report(error: &str, goes_on: bool) -> (r: String)
    ensures
        r@ == write_error_text(error@, goes_on),
        r@ == (if goes_on {
            "output track write_rtp got error: "@ + error@
        } else {
            "output track write_rtp got error: "@ + error@ + " and break"@
        }),
{
    let mut report = "output track write_rtp got error: ".to_owned();
    report.append(error);
    if !goes_on {
        report.append(" and break");
    }
    report
}

/// The two tasks that a remote track starts.
pub struct TrackTasks<P> {
    pub keyframes: (Keyframes, KeyframeStep),
    pub forwarding: (Forwarding<P>, ForwardStep<P>),
}

/// Handles a remote track, of which the source identifier is given: no track starts nothing.
pub fn on_track<P>(ssrc: Option<u32>) -> (r: Option<TrackTasks<P>>)
    ensures
        match ssrc {
            Some(media_ssrc) => r matches Some(tasks) && tasks.keyframes.0.media_ssrc()
                == media_ssrc && tasks.keyframes.0.events() == Seq::<KeyframeEvent>::empty()
                && keyframe_next(media_ssrc, Seq::empty()) == Some(tasks.keyframes.1)
                && tasks.forwarding.0.target() is None && tasks.forwarding.0.events() == Seq::<
                ForwardEventView<P>,
            >::empty() && forward_next(None, Seq::<ForwardEventView<P>>::empty()) == Some(
                tasks.forwarding.1@,
            ),
            None => r is None,
        },
{
    match ssrc {
        Some(media_ssrc) => Some(
            TrackTasks { keyframes: Keyframes::new(media_ssrc), forwarding: Forwarding::new() },
        ),
        None => None,
    }
}

} // verus!
