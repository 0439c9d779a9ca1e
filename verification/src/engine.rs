//! The media engine and the interceptors that every peer connection is made with.

use interceptor::registry::Registry;
use vstd::prelude::*;
use webrtc::api::interceptor_registry::register_default_interceptors;
use webrtc::api::media_engine::MediaEngine;
use webrtc::api::{APIBuilder, API};

verus! {

/// `anyhow::Error`, carried through as it is.
#[verifier::external_type_specification]
#[verifier::external_body]
pub struct ExAnyhowError(anyhow::Error);

/// `webrtc`'s collection of the codecs that a connection supports.
#[verifier::external_type_specification]
#[verifier::external_body]
pub struct ExMediaEngine(MediaEngine);

/// `interceptor`'s collection of the interceptors that a connection's packets pass through.
#[verifier::external_type_specification]
#[verifier::external_body]
pub struct ExRegistry(Registry);

/// `webrtc`'s maker of peer connections, which holds the codecs and the interceptors.
#[verifier::external_type_specification]
#[verifier::external_body]
pub struct ExApi(API);

/// What an interceptor is for.
#[derive(Debug, Clone, Copy, PartialEq, Eq, Structural)]
pub enum InterceptorKind {
    NackResponder,
    NackGenerator,
    ReceiverReport,
    SenderReport,
}

/// The feedback messages that each video codec takes, in order: their type and their parameter. A
/// codec is known by its MIME type and its payload type.
pub type VideoFeedback = Map<(Seq<char>, u8), Seq<(Seq<char>, Seq<char>)>>;

/// The codecs that an engine has registered, each by its MIME type and its payload type.
pub uninterp spec fn engine_codecs(engine: MediaEngine) -> Set<(Seq<char>, u8)>;

/// The feedback messages that the video codecs of an engine take.
pub uninterp spec fn engine_feedback(engine: MediaEngine) -> VideoFeedback;

/// The interceptors that a registry has collected, in order.
pub uninterp spec fn registry_interceptors(registry: Registry) -> Seq<InterceptorKind>;

/// The codecs that an API's connections support.
pub uninterp spec fn api_codecs(api: API) -> Set<(Seq<char>, u8)>;

/// The feedback messages that the video codecs of an API's connections take.
pub uninterp spec fn api_feedback(api: API) -> VideoFeedback;

/// The interceptors that the packets of an API's connections pass through, in order.
pub uninterp spec fn api_interceptors(api: API) -> Seq<InterceptorKind>;

/// The audio codecs that `webrtc` registers by default.
pub open spec fn default_audio_codecs() -> Set<(Seq<char>, u8)> {
    set![
        ("audio/opus"@, 111u8),
        ("audio/G722"@, 9u8),
        ("audio/PCMU"@, 0u8),
        ("audio/PCMA"@, 8u8),
    ]
}

/// The video codecs that `webrtc` registers by default.
pub open spec fn default_video_codecs() -> Set<(Seq<char>, u8)> {
    set![
        ("video/VP8"@, 96u8),
        ("video/rtx"@, 97u8),
        ("video/VP9"@, 98u8),
        ("video/rtx"@, 99u8),
        ("video/VP9"@, 100u8),
        ("video/rtx"@, 101u8),
        ("video/H264"@, 102u8),
        ("video/rtx"@, 121u8),
        ("video/H264"@, 127u8),
        ("video/rtx"@, 120u8),
        ("video/H264"@, 125u8),
        ("video/rtx"@, 107u8),
        ("video/H264"@, 108u8),
        ("video/rtx"@, 109u8),
        ("video/H264"@, 123u8),
        ("video/rtx"@, 118u8),
        ("video/ulpfec"@, 116u8),
    ]
}

/// The audio and video codecs that `webrtc` registers by default.
pub open spec fn default_codecs() -> Set<(Seq<char>, u8)> {
    default_audio_codecs().union(default_video_codecs())
}

/// The messages that report a lost packet and a lost picture.
pub open spec fn nack_feedback() -> Seq<(Seq<char>, Seq<char>)> {
    seq![("nack"@, ""@), ("nack"@, "pli"@)]
}

/// What the default video codecs take: those that only carry repairs take none.
pub open spec fn default_feedback() -> VideoFeedback {
    Map::new(
        |codec: (Seq<char>, u8)| default_video_codecs().contains(codec),
        |codec: (Seq<char>, u8)|
            if codec.0 == "video/rtx"@ || codec.0 == "video/ulpfec"@ {
                Seq::empty()
            } else {
                seq![("goog-remb"@, ""@), ("ccm"@, "fir"@)] + nack_feedback()
            },
    )
}

/// Each video codec takes the messages on losses besides.
pub open spec fn with_nack(feedback: VideoFeedback) -> VideoFeedback {
    feedback.map_values(|messages: Seq<(Seq<char>, Seq<char>)>| messages + nack_feedback())
}

/// The interceptors that `webrtc` registers by default, in the order in which it adds them.
pub open spec fn default_interceptors() -> Seq<InterceptorKind> {
    seq![
        InterceptorKind::NackResponder,
        InterceptorKind::NackGenerator,
        InterceptorKind::ReceiverReport,
        InterceptorKind::SenderReport,
    ]
}

/// `MediaEngine::default`: no codec is registered.
#[verifier::external_body]
fn empty_engine() -> (r: MediaEngine)
    ensures
        engine_codecs(r) == Set::<(Seq<char>, u8)>::empty(),
        engine_feedback(r) == VideoFeedback::empty(),
{
    MediaEngine::default()
}

/// `MediaEngine::register_default_codecs`: where it succeeds, the default codecs are added to those
/// that the engine had, and a video codec that it had keeps its feedback. It fails only where the
/// system clock stands before 1970, which no clause can say; the engine then has some of them.
#[verifier::external_body]
fn register_default_codecs(engine: &mut MediaEngine) -> (r: Result<(), anyhow::Error>)
    ensures
        r is Ok ==> engine_codecs(*final(engine)) == engine_codecs(*old(engine)).union(
            default_codecs(),
        ),
        r is Ok ==> engine_feedback(*final(engine)) == default_feedback().union_prefer_right(
            engine_feedback(*old(engine)),
        ),
{
    engine.register_default_codecs()
}

/// `Registry::new`: no interceptor is collected.
#[verifier::external_body]
fn empty_registry() -> (r: Registry)
    ensures
        registry_interceptors(r) == Seq::<InterceptorKind>::empty(),
{
    Registry::new()
}

/// `register_default_interceptors`: it succeeds, adds the default interceptors behind those that
/// the registry had, leaves the engine's choice of codecs as it was, and has each of its video codecs
/// take the messages on losses.
#[verifier::external_body]
fn with_default_interceptors(registry: Registry, engine: &mut MediaEngine) -> (r: Result<
    Registry,
    anyhow::Error,
>)
    ensures
        r is Ok,
        r matches Ok(filled) ==> registry_interceptors(filled) == registry_interceptors(registry)
            + default_interceptors(),
        engine_codecs(*final(engine)) == engine_codecs(*old(engine)),
        engine_feedback(*final(engine)) == with_nack(engine_feedback(*old(engine))),
{
    register_default_interceptors(registry, engine)
}

/// `APIBuilder`: an API that holds the engine's codecs with their feedback and the registry's interceptors.
#[verifier::external_body]
fn build(engine: MediaEngine, registry: Registry) -> (r: API)
    ensures
        api_codecs(r) == engine_codecs(engine),
        api_feedback(r) == engine_feedback(engine),
        api_interceptors(r) == registry_interceptors(registry),
{
    APIBuilder::new().with_media_engine(engine).with_interceptor_registry(registry).build()
}

/// The API that an engine makes with the default interceptors, given how registering the engine's
/// codecs ended.
pub fn api_with(engine: MediaEngine, registered: Result<(), anyhow::Error>) -> (r: Result<
    API,
    anyhow::Error,
>)
    ensures
        match registered {
            Ok(()) => r matches Ok(api) && api_codecs(api) == engine_codecs(engine)
                && api_feedback(api) == with_nack(engine_feedback(engine)) && api_interceptors(api) == default_interceptors(),
            Err(e) => r == Err::<API, anyhow::Error>(e),
        },
{
    match registered {
        Ok(()) => {
            let mut engine = engine;
            match with_default_interceptors(empty_registry(), &mut engine) {
                Ok(registry) => {
                    let api = build(engine, registry);
                    assert(api_interceptors(api) =~= default_interceptors());
                    Ok(api)
                },
                Err(e) => Err(e),
            }
        },
        Err(e) => Err(e),
    }
}

/// An API with the default codecs and the default interceptors. An error is one of registering the
/// codecs: whether it comes rests on the system clock, and [`api_with`] says what it leads to.
pub fn default_api() -> (r: Result<API, anyhow::Error>)
    ensures
        r matches Ok(api) ==> api_codecs(api) == default_codecs() && api_feedback(api) == with_nack(
            default_feedback(),
        ) && api_interceptors(api) == default_interceptors(),
{
    let mut engine = empty_engine();
    let registered = register_default_codecs(&mut engine);
    assert(registered is Ok ==> engine_codecs(engine) =~= default_codecs());
    assert(registered is Ok ==> engine_feedback(engine) =~= default_feedback());
    api_with(engine, registered)
}

} // verus!
