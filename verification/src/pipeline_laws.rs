//! Laws of pipeline building that span several of its parts.

use vstd::prelude::*;

use crate::endpoint::{select_webrtc, Endpoint, UrlParts};
use crate::pipeline::{
    configuration_spec, description_spec, front_spec, is_webrtc_scheme, payload_spec,
    wants_webrtc_sink, WebrtcParts,
};
use crate::types::{
    CaptureConfiguration, VideoAndStreamInformation, VideoSourceGstType, VideoSourceType,
};

verus! {

/// The scheme of the server in a given slot: STUN, TURN, signalling.
pub open spec fn slot_scheme(slot: int) -> Seq<char> {
    if slot == 0 {
        "stun"@
    } else if slot == 1 {
        "turn"@
    } else {
        "ws"@
    }
}

/// The server in a given slot.
pub open spec fn slot(chosen: WebrtcParts, slot: int) -> UrlParts {
    if slot == 0 {
        chosen.0
    } else if slot == 1 {
        chosen.1
    } else {
        chosen.2
    }
}

proof fn lemma_schemes_distinct()
    ensures
        "webrtc"@ != "stun"@,
        "webrtc"@ != "turn"@,
        "webrtc"@ != "ws"@,
        "stun"@ != "turn"@,
        "stun"@ != "ws"@,
        "turn"@ != "ws"@,
{
    reveal_strlit("webrtc");
    reveal_strlit("stun");
    reveal_strlit("turn");
    reveal_strlit("ws");
    assert("webrtc"@.len() != "stun"@.len());
    assert("webrtc"@.len() != "turn"@.len());
    assert("webrtc"@.len() != "ws"@.len());
    assert("stun"@[0] != "turn"@[0]);
    assert("stun"@.len() != "ws"@.len());
    assert("turn"@.len() != "ws"@.len());
}

/// Choosing WebRTC servers fails exactly when an endpoint has a scheme that
/// is none of `webrtc`, `stun`, `turn` and `ws`.
pub proof fn lemma_webrtc_choice_fails_iff_unknown_scheme(eps: Seq<Endpoint>, chosen: WebrtcParts)
    ensures
        select_webrtc(eps, chosen) is Ok <==> forall|i: int|
            0 <= i < eps.len() ==> is_webrtc_scheme(#[trigger] eps[i].scheme@),
    decreases eps.len(),
{
    if eps.len() > 0 {
        let e = eps[0];
        let rest = eps.drop_first();
        let next = if e.scheme@ == "webrtc"@ {
            chosen
        } else if e.scheme@ == "stun"@ {
            (e@, chosen.1, chosen.2)
        } else if e.scheme@ == "turn"@ {
            (chosen.0, e@, chosen.2)
        } else if e.scheme@ == "ws"@ {
            (chosen.0, chosen.1, e@)
        } else {
            chosen
        };
        lemma_webrtc_choice_fails_iff_unknown_scheme(rest, next);
        if is_webrtc_scheme(e.scheme@) {
            assert((forall|i: int| 0 <= i < eps.len() ==> is_webrtc_scheme(#[trigger] eps[i].scheme@)) <==> (
            forall|i: int| 0 <= i < rest.len() ==> is_webrtc_scheme(#[trigger] rest[i].scheme@))) by {
                if forall|i: int| 0 <= i < rest.len() ==> is_webrtc_scheme(#[trigger] rest[i].scheme@) {
                    assert forall|i: int| 0 <= i < eps.len() implies is_webrtc_scheme(
                        #[trigger] eps[i].scheme@,
                    ) by {
                        if i > 0 {
                            assert(eps[i] == rest[i - 1]);
                        }
                    }
                }
                if forall|i: int| 0 <= i < eps.len() ==> is_webrtc_scheme(#[trigger] eps[i].scheme@) {
                    assert forall|i: int| 0 <= i < rest.len() implies is_webrtc_scheme(
                        #[trigger] rest[i].scheme@,
                    ) by {
                        assert(rest[i] == eps[i + 1]);
                    }
                }
            }
        }
    }
}

/// When servers are chosen, each slot holds the last endpoint with that
/// slot's scheme, and keeps its default where there is none.
pub proof fn lemma_last_endpoint_wins(eps: Seq<Endpoint>, chosen: WebrtcParts, s: int)
    requires
        0 <= s < 3,
        select_webrtc(eps, chosen) is Ok,
    ensures
        forall|i: int|
            0 <= i < eps.len() && #[trigger] eps[i].scheme@ == slot_scheme(s) && (forall|j: int|
                i < j < eps.len() ==> (#[trigger] eps[j]).scheme@ != slot_scheme(s)) ==> slot(
                select_webrtc(eps, chosen)->Ok_0,
                s,
            ) == eps[i]@,
        (forall|j: int| 0 <= j < eps.len() ==> (#[trigger] eps[j]).scheme@ != slot_scheme(s)) ==> slot(
            select_webrtc(eps, chosen)->Ok_0,
            s,
        ) == slot(chosen, s),
    decreases eps.len(),
{
    lemma_schemes_distinct();
    if eps.len() > 0 {
        let e = eps[0];
        let rest = eps.drop_first();
        let next = if e.scheme@ == "webrtc"@ {
            chosen
        } else if e.scheme@ == "stun"@ {
            (e@, chosen.1, chosen.2)
        } else if e.scheme@ == "turn"@ {
            (chosen.0, e@, chosen.2)
        } else if e.scheme@ == "ws"@ {
            (chosen.0, chosen.1, e@)
        } else {
            chosen
        };
        assert(select_webrtc(eps, chosen) == select_webrtc(rest, next));
        lemma_last_endpoint_wins(rest, next, s);
        let result = select_webrtc(eps, chosen)->Ok_0;
        assert forall|i: int|
            0 <= i < eps.len() && #[trigger] eps[i].scheme@ == slot_scheme(s) && (forall|j: int|
                i < j < eps.len() ==> (#[trigger] eps[j]).scheme@ != slot_scheme(s)) implies slot(result, s)
            == eps[i]@ by {
            if i == 0 {
                assert forall|j: int| 0 <= j < rest.len() implies (#[trigger] rest[j]).scheme@ != slot_scheme(
                    s,
                ) by {
                    assert(rest[j] == eps[j + 1]);
                }
                assert(slot(next, s) == e@);
            } else {
                assert(rest[i - 1] == eps[i]);
                assert(rest[i - 1].scheme@ == slot_scheme(s));
                assert forall|j: int| i - 1 < j < rest.len() implies (#[trigger] rest[j]).scheme@ != slot_scheme(
                    s,
                ) by {
                    assert(rest[j] == eps[j + 1]);
                }
            }
        }
        if forall|j: int| 0 <= j < eps.len() ==> (#[trigger] eps[j]).scheme@ != slot_scheme(s) {
            assert(eps[0].scheme@ != slot_scheme(s));
            assert forall|j: int| 0 <= j < rest.len() implies (#[trigger] rest[j]).scheme@ != slot_scheme(s) by {
                assert(rest[j] == eps[j + 1]);
            }
        }
    }
}

/// The streams that give a pipeline: a video capture (no redirection), from
/// a test pattern (encoded to H.264 where that is asked for, or sent raw to a
/// WebRTC sink), or from a local device that gives H.264 to a WebRTC sink;
/// and a WebRTC stream only names endpoints of the WebRTC schemes.
pub proof fn lemma_supported_streams(info: VideoAndStreamInformation, defaults: WebrtcParts)
    ensures
        description_spec(info, Some(defaults)) is Ok <==> ({
            let eps = info.stream_information.endpoints@;
            let webrtc = wants_webrtc_sink(eps);
            &&& info.stream_information.configuration matches CaptureConfiguration::VIDEO(cfg)
            &&& {
                ||| (info.video_source matches VideoSourceType::Gst(gst) && gst.source is Fake && (webrtc
                    || cfg.encode is H264))
                ||| (info.video_source is Local && cfg.encode is H264 && webrtc)
            }
            &&& webrtc ==> forall|i: int| 0 <= i < eps.len() ==> is_webrtc_scheme(#[trigger] eps[i].scheme@)
        }),
{
    lemma_webrtc_choice_fails_iff_unknown_scheme(info.stream_information.endpoints@, defaults);
}

/// A WebRTC stream is decoded to raw video and carries no payloader: what
/// comes before its sink is the source followed by the decoder.
pub proof fn lemma_webrtc_carries_raw_video(info: VideoAndStreamInformation)
    requires
        wants_webrtc_sink(info.stream_information.endpoints@),
        front_spec(info) is Ok,
    ensures
        ({
            let front = front_spec(info)->Ok_0;
            let decoder = " ! decodebin3 ! videoconvert"@;
            &&& front.len() >= decoder.len()
            &&& front.subrange(front.len() - decoder.len(), front.len() as int) == decoder
        }),
{
    let front = front_spec(info)->Ok_0;
    let decoder = " ! decodebin3 ! videoconvert"@;
    let cfg = info.stream_information.configuration->VIDEO_0;
    let capability = crate::pipeline::capability_spec(info.video_source, cfg)->Ok_0;
    let source = crate::pipeline::source_spec(info.video_source, capability)->Ok_0;
    assert(front == source + decoder + Seq::<char>::empty());
    assert(front.subrange(front.len() - decoder.len(), front.len() as int) =~= decoder);
}

/// A stream that is not sent through WebRTC does not depend on the default
/// WebRTC servers, nor on whether they could be parsed.
pub proof fn lemma_plain_stream_ignores_defaults(
    info: VideoAndStreamInformation,
    a: Option<WebrtcParts>,
    b: Option<WebrtcParts>,
)
    requires
        !wants_webrtc_sink(info.stream_information.endpoints@),
    ensures
        description_spec(info, a) == description_spec(info, b),
{
}

/// The payloading part of a stream: refused for a redirection, else chosen
/// by the encoding and by whether the sink is WebRTC.
pub open spec fn stream_payload(info: VideoAndStreamInformation) -> Result<Seq<char>, crate::types::PipelineError> {
    match configuration_spec(info) {
        Err(e) => Err(e),
        Ok(cfg) => payload_spec(cfg.encode, wants_webrtc_sink(info.stream_information.endpoints@)),
    }
}

/// The payloading part does not depend on the video source: two streams that
/// differ only in their source (and name) get the same payloader.
pub proof fn lemma_payload_ignores_source(a: VideoAndStreamInformation, b: VideoAndStreamInformation)
    requires
        a.stream_information == b.stream_information,
    ensures
        stream_payload(a) == stream_payload(b),
{
}

} // verus!
