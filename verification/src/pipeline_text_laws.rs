//! Laws on the text of a pipeline: the caps carry the configured size and
//! rate, the UDP sink names every endpoint, and any WebRTC endpoint asks for
//! a WebRTC sink.

use vstd::prelude::*;

use crate::endpoint::{opt_text, Endpoint};
use crate::pipeline::{
    capability_spec, description_spec, plain_sink, udp_clients, wants_webrtc_sink, WebrtcParts,
};
use crate::text::decimal;
use crate::types::{
    CaptureConfiguration, VideoAndStreamInformation, VideoCaptureConfiguration, VideoSourceGstType,
    VideoSourceType,
};

verus! {

/// Whether a scheme is one of `webrtc`, `stun`, `turn` and `ws`.
pub open spec fn names_webrtc(scheme: Seq<char>) -> bool {
    scheme == "webrtc"@ || scheme == "stun"@ || scheme == "turn"@ || scheme == "ws"@
}

/// A stream goes through a WebRTC sink exactly when an endpoint, at any
/// position of the list, has the scheme `webrtc`, `stun`, `turn` or `ws`.
pub proof fn lemma_any_webrtc_endpoint_asks_for_webrtc(eps: Seq<Endpoint>)
    ensures
        wants_webrtc_sink(eps) <==> exists|i: int| 0 <= i < eps.len() && names_webrtc(#[trigger] eps[i].scheme@),
        forall|i: int| 0 <= i < eps.len() && names_webrtc(#[trigger] eps[i].scheme@) ==> wants_webrtc_sink(eps),
{
}

/// The size and rate part of the caps, from the configuration: width,
/// height, and the frame rate as the interval's denominator over its
/// numerator.
pub open spec fn size_and_rate(cfg: VideoCaptureConfiguration) -> Seq<char> {
    ",width="@ + decimal(cfg.width as nat) + ",height="@ + decimal(cfg.height as nat) + ",framerate="@
        + decimal(cfg.frame_interval.denominator as nat) + "/"@ + decimal(cfg.frame_interval.numerator as nat)
}

/// The caps are raw video for a GStreamer-made source and H.264 otherwise,
/// followed by the configured width, height and frame rate; the frame rate
/// is the interval's denominator, `/`, its numerator.
pub proof fn lemma_caps_carry_size_and_rate(source: VideoSourceType, cfg: VideoCaptureConfiguration)
    ensures
        source is Gst ==> capability_spec(source, cfg) == Ok::<Seq<char>, crate::types::PipelineError>(
            "video/x-raw"@ + size_and_rate(cfg),
        ),
        (!(source is Gst) && cfg.encode is H264) ==> capability_spec(source, cfg) == Ok::<
            Seq<char>,
            crate::types::PipelineError,
        >("video/x-h264"@ + size_and_rate(cfg)),
        capability_spec(source, cfg) matches Ok(caps) ==> (",framerate="@ + decimal(
            cfg.frame_interval.denominator as nat,
        ) + "/"@ + decimal(cfg.frame_interval.numerator as nat)).is_suffix_of(caps),
{
    let tail = ",framerate="@ + decimal(cfg.frame_interval.denominator as nat) + "/"@ + decimal(
        cfg.frame_interval.numerator as nat,
    );
    if source is Gst {
        assert(capability_spec(source, cfg)->Ok_0 =~= "video/x-raw"@ + size_and_rate(cfg));
    } else if cfg.encode is H264 {
        assert(capability_spec(source, cfg)->Ok_0 =~= "video/x-h264"@ + size_and_rate(cfg));
    }
    if capability_spec(source, cfg) is Ok {
        let caps = capability_spec(source, cfg)->Ok_0;
        let head = if source is Gst {
            "video/x-raw"@
        } else {
            "video/x-h264"@
        };
        let front = head + ",width="@ + decimal(cfg.width as nat) + ",height="@ + decimal(cfg.height as nat);
        assert(caps =~= front + tail);
        assert(caps.subrange((caps.len() - tail.len()) as int, caps.len() as int) =~= tail);
    }
}

/// A pipeline begins with its source element and its caps: a test pattern
/// as raw video, a local device as H.264, with the configured width, height
/// and frame rate.
pub proof fn lemma_pipeline_begins_with_source_and_caps(info: VideoAndStreamInformation, defaults: Option<WebrtcParts>)
    ensures
        description_spec(info, defaults) matches Ok(description) ==> ({
            let cfg = info.stream_information.configuration->VIDEO_0;
            &&& info.stream_information.configuration is VIDEO
            &&& info.video_source matches VideoSourceType::Gst(g) ==> g.source matches VideoSourceGstType::Fake(
                pattern,
            ) && ("videotestsrc pattern="@ + pattern@ + " ! "@ + "video/x-raw"@ + size_and_rate(cfg)).is_prefix_of(
                description,
            )
            &&& info.video_source matches VideoSourceType::Local(l) ==> ("v4l2src device="@ + l.device_path@
                + " ! "@ + "video/x-h264"@ + size_and_rate(cfg)).is_prefix_of(description)
            &&& !(info.video_source is Redirect)
        }),
{
    if description_spec(info, defaults) is Ok {
        let description = description_spec(info, defaults)->Ok_0;
        let cfg = info.stream_information.configuration->VIDEO_0;
        let caps = capability_spec(info.video_source, cfg)->Ok_0;
        lemma_caps_carry_size_and_rate(info.video_source, cfg);
        let front = crate::pipeline::front_spec(info)->Ok_0;
        let source = crate::pipeline::source_spec(info.video_source, caps)->Ok_0;
        let rest = description.subrange(source.len() as int, description.len() as int);
        assert(front.len() >= source.len());
        assert(description.subrange(0, source.len() as int) =~= source) by {
            let transcode = crate::pipeline::transcode_spec(
                info.video_source,
                cfg.encode,
                wants_webrtc_sink(info.stream_information.endpoints@),
            )->Ok_0;
            let payload = crate::pipeline::payload_spec(
                cfg.encode,
                wants_webrtc_sink(info.stream_information.endpoints@),
            )->Ok_0;
            assert(front == source + transcode + payload);
            let sink = description.subrange(front.len() as int, description.len() as int);
            assert(description =~= front + sink);
        }
        match info.video_source {
            VideoSourceType::Gst(g) => {
                let pattern = g.source->Fake_0;
                assert(source =~= "videotestsrc pattern="@ + pattern@ + " ! "@ + "video/x-raw"@ + size_and_rate(cfg));
            },
            VideoSourceType::Local(l) => {
                assert(source =~= "v4l2src device="@ + l.device_path@ + " ! "@ + "video/x-h264"@ + size_and_rate(cfg));
            },
            _ => {},
        }
    }
}

/// `host:port` of an endpoint, the port in decimal.
pub open spec fn host_and_port(e: Endpoint) -> Seq<char> {
    opt_text(e.host)->0 + ":"@ + decimal(e.port->0 as nat)
}

/// Where the `i`-th client starts in a list of clients separated by commas.
pub open spec fn client_offset(eps: Seq<Endpoint>, i: int) -> int
    decreases i,
{
    if i <= 0 {
        0
    } else {
        client_offset(eps, i - 1) + host_and_port(eps[i - 1]).len() + 1
    }
}

/// `clients` is the `host:port` of every endpoint of the list, in order,
/// separated by commas, and nothing more.
pub open spec fn lists_every_client(clients: Seq<char>, eps: Seq<Endpoint>) -> bool {
    &&& eps.len() > 0 ==> clients.len() == client_offset(eps, eps.len() as int) - 1
    &&& forall|i: int|
        #![trigger eps[i]]
        0 <= i < eps.len() ==> clients.subrange(
            client_offset(eps, i),
            client_offset(eps, i) + host_and_port(eps[i]).len(),
        ) == host_and_port(eps[i])
    &&& forall|i: int| #![trigger client_offset(eps, i)] 0 < i < eps.len() ==> clients[client_offset(eps, i) - 1] == ','
}

proof fn lemma_offset_same_prefix(eps: Seq<Endpoint>, p: Seq<Endpoint>, i: int)
    requires
        p.len() <= eps.len(),
        0 <= i <= p.len(),
        forall|j: int| 0 <= j < p.len() ==> p[j] == eps[j],
    ensures
        client_offset(p, i) == client_offset(eps, i),
    decreases i,
{
    if i > 0 {
        lemma_offset_same_prefix(eps, p, i - 1);
        assert(p[i - 1] == eps[i - 1]);
    }
}

proof fn lemma_offset_nonneg(eps: Seq<Endpoint>, i: int)
    ensures
        client_offset(eps, i) >= 0,
        i > 0 ==> client_offset(eps, i) >= 1,
    decreases i,
{
    if i > 0 {
        lemma_offset_nonneg(eps, i - 1);
    }
}

proof fn lemma_offset_grows(eps: Seq<Endpoint>, i: int, j: int)
    requires
        0 <= i < j,
    ensures
        client_offset(eps, i) + host_and_port(eps[i]).len() + 1 <= client_offset(eps, j),
    decreases j,
{
    if j > i + 1 {
        lemma_offset_grows(eps, i, j - 1);
    }
}

proof fn lemma_clients_length(eps: Seq<Endpoint>)
    requires
        eps.len() > 0,
    ensures
        udp_clients(eps).len() == client_offset(eps, eps.len() as int) - 1,
    decreases eps.len(),
{
    let n = eps.len() as int;
    if n > 1 {
        let p = eps.drop_last();
        lemma_clients_length(p);
        assert forall|j: int| 0 <= j < p.len() implies p[j] == eps[j] by {}
        lemma_offset_same_prefix(eps, p, n - 1);
        reveal_strlit(",");
        assert(udp_clients(eps) == udp_clients(p) + ","@ + host_and_port(eps[n - 1]));
        assert(","@.len() == 1);
        assert(udp_clients(p).len() == client_offset(p, n - 1) - 1);
        assert(client_offset(eps, n) == client_offset(eps, n - 1) + host_and_port(eps[n - 1]).len() + 1);
    } else {
        assert(udp_clients(eps) == host_and_port(eps[0]));
        assert(client_offset(eps, 1) == client_offset(eps, 0) + host_and_port(eps[0]).len() + 1);
    }
}

proof fn lemma_clients_segment(eps: Seq<Endpoint>, i: int)
    requires
        0 <= i < eps.len(),
    ensures
        udp_clients(eps).subrange(client_offset(eps, i), client_offset(eps, i) + host_and_port(eps[i]).len())
            == host_and_port(eps[i]),
    decreases eps.len(),
{
    let n = eps.len() as int;
    let c = udp_clients(eps);
    if n == 1 {
        assert(c.subrange(0, c.len() as int) =~= c);
    } else {
        let p = eps.drop_last();
        let u = udp_clients(p);
        let last = host_and_port(eps[n - 1]);
        assert(c == u + ","@ + last);
        reveal_strlit(",");
        lemma_clients_length(p);
        assert forall|j: int| 0 <= j < p.len() implies p[j] == eps[j] by {}
        lemma_offset_same_prefix(eps, p, n - 1);
        if i < n - 1 {
            lemma_clients_segment(p, i);
            lemma_offset_same_prefix(eps, p, i);
            lemma_offset_grows(eps, i, n - 1);
            lemma_offset_nonneg(eps, i);
            assert(p[i] == eps[i]);
            assert(c.subrange(client_offset(eps, i), client_offset(eps, i) + host_and_port(eps[i]).len())
                =~= u.subrange(client_offset(eps, i), client_offset(eps, i) + host_and_port(eps[i]).len()));
        } else {
            lemma_offset_nonneg(eps, i);
            assert(c.subrange(client_offset(eps, i), client_offset(eps, i) + host_and_port(eps[i]).len())
                =~= last);
        }
    }
}

proof fn lemma_clients_comma(eps: Seq<Endpoint>, i: int)
    requires
        0 < i < eps.len(),
    ensures
        udp_clients(eps)[client_offset(eps, i) - 1] == ',',
    decreases eps.len(),
{
    let n = eps.len() as int;
    let c = udp_clients(eps);
    let p = eps.drop_last();
    let u = udp_clients(p);
    let last = host_and_port(eps[n - 1]);
    assert(c == u + ","@ + last);
    reveal_strlit(",");
    lemma_clients_length(p);
    assert forall|j: int| 0 <= j < p.len() implies p[j] == eps[j] by {}
    lemma_offset_same_prefix(eps, p, n - 1);
    if i < n - 1 {
        lemma_clients_comma(p, i);
        lemma_offset_same_prefix(eps, p, i);
        lemma_offset_grows(eps, i, n - 1);
        lemma_offset_nonneg(eps, i);
        assert(c[client_offset(eps, i) - 1] == u[client_offset(eps, i) - 1]);
    } else {
        lemma_offset_nonneg(eps, i);
        assert(c[client_offset(eps, i) - 1] == ","@[0]);
    }
}

/// The clients of a UDP sink are the `host:port` of every endpoint, in
/// order, separated by commas.
pub proof fn lemma_udp_clients_name_every_endpoint(eps: Seq<Endpoint>)
    ensures
        lists_every_client(udp_clients(eps), eps),
{
    if eps.len() > 0 {
        lemma_clients_length(eps);
    }
    let c = udp_clients(eps);
    assert forall|i: int| #![trigger eps[i]] 0 <= i < eps.len() implies c.subrange(
        client_offset(eps, i),
        client_offset(eps, i) + host_and_port(eps[i]).len(),
    ) == host_and_port(eps[i]) by {
        lemma_clients_segment(eps, i);
    }
    assert forall|i: int| #![trigger client_offset(eps, i)] 0 < i < eps.len() implies c[client_offset(eps, i) - 1] == ',' by {
        lemma_clients_comma(eps, i);
    }
}

/// Where the first endpoint is `udp`, the sink that is not WebRTC is a
/// `multiudpsink` whose clients are the `host:port` of every endpoint of the
/// list, in order, separated by commas.
pub proof fn lemma_udp_sink_names_every_endpoint(eps: Seq<Endpoint>)
    requires
        eps.len() > 0,
        eps[0].scheme@ == "udp"@,
    ensures
        " ! multiudpsink clients="@.is_prefix_of(plain_sink(eps)),
        lists_every_client(
            plain_sink(eps).subrange(" ! multiudpsink clients="@.len() as int, plain_sink(eps).len() as int),
            eps,
        ),
{
    let prefix = " ! multiudpsink clients="@;
    lemma_udp_clients_name_every_endpoint(eps);
    assert(plain_sink(eps).subrange(0, prefix.len() as int) =~= prefix);
    assert(plain_sink(eps).subrange(prefix.len() as int, plain_sink(eps).len() as int) =~= udp_clients(eps));
}

/// A built pipeline whose first endpoint is `udp`, and which is not WebRTC,
/// ends with a `multiudpsink` whose clients are the `host:port` of every
/// endpoint, in order, separated by commas.
pub proof fn lemma_udp_pipeline_sends_to_every_endpoint(info: VideoAndStreamInformation, defaults: Option<WebrtcParts>)
    requires
        description_spec(info, defaults) is Ok,
        !wants_webrtc_sink(info.stream_information.endpoints@),
        info.stream_information.endpoints@.len() > 0,
        info.stream_information.endpoints@[0].scheme@ == "udp"@,
    ensures
        (" ! multiudpsink clients="@ + udp_clients(info.stream_information.endpoints@)).is_suffix_of(
            description_spec(info, defaults)->Ok_0,
        ),
        lists_every_client(udp_clients(info.stream_information.endpoints@), info.stream_information.endpoints@),
{
    let eps = info.stream_information.endpoints@;
    let description = description_spec(info, defaults)->Ok_0;
    let front = crate::pipeline::front_spec(info)->Ok_0;
    let tail = " ! multiudpsink clients="@ + udp_clients(eps);
    assert(description == front + plain_sink(eps));
    assert(plain_sink(eps) == tail);
    assert(description.subrange((description.len() - tail.len()) as int, description.len() as int) =~= tail);
    lemma_udp_clients_name_every_endpoint(eps);
}

} // verus!
