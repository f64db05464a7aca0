//! The GStreamer pipeline description of a stream: source, transcoding,
//! payloading and sink, each chosen from the stream's source, encoding and
//! endpoints.

use vstd::prelude::*;

use crate::endpoint::{
    default_endpoint_parts, default_webrtc_endpoints, opt_text, select_webrtc,
    select_webrtc_endpoints, Endpoint, UrlParts, WebrtcEndpoints,
};
use crate::text::{decimal, push_decimal};
use crate::types::{
    CaptureConfiguration, PipelineError, VideoAndStreamInformation, VideoCaptureConfiguration,
    VideoEncodeType, VideoSourceGstType, VideoSourceType,
};

verus! {

/// A GStreamer pipeline, by its textual description.
#[derive(Debug, Default)]
pub struct Pipeline {
    pub description: String,
}

impl Clone for Pipeline {
    fn clone(&self) -> (res: Self)
        ensures
            res == *self,
    {
        Pipeline { description: self.description.clone() }
    }
}

/// The servers triple that a sink may be given, by its view.
pub type WebrtcParts = (UrlParts, UrlParts, UrlParts);

pub open spec fn opt_webrtc_view(d: Option<&WebrtcEndpoints>) -> Option<WebrtcParts> {
    match d {
        Some(d) => Some(d@),
        None => None,
    }
}

/// A scheme that asks for a WebRTC sink.
pub open spec fn is_webrtc_scheme(scheme: Seq<char>) -> bool {
    ||| scheme == "webrtc"@
    ||| scheme == "stun"@
    ||| scheme == "turn"@
    ||| scheme == "ws"@
}

/// A stream is sent through a WebRTC sink when one of its endpoints has a
/// WebRTC scheme.
pub open spec fn wants_webrtc_sink(eps: Seq<Endpoint>) -> bool {
    exists|i: int| 0 <= i < eps.len() && is_webrtc_scheme(#[trigger] eps[i].scheme@)
}

/// The capture configuration of a stream, refused for a redirection.
pub open spec fn configuration_spec(info: VideoAndStreamInformation) -> Result<
    VideoCaptureConfiguration,
    PipelineError,
> {
    match info.stream_information.configuration {
        CaptureConfiguration::VIDEO(c) => Ok(c),
        CaptureConfiguration::REDIRECT(_) => Err(PipelineError::RedirectSource),
    }
}

/// The caps that a source produces: raw video for a GStreamer-made source,
/// else H.264, the one encoding carried as is; then size and frame rate.
pub open spec fn capability_spec(source: VideoSourceType, cfg: VideoCaptureConfiguration) -> Result<
    Seq<char>,
    PipelineError,
> {
    let format = if source is Gst {
        Some("video/x-raw"@)
    } else if cfg.encode is H264 {
        Some("video/x-h264"@)
    } else {
        None::<Seq<char>>
    };
    match format {
        Some(f) => Ok(
            f + ",width="@ + decimal(cfg.width as nat) + ",height="@ + decimal(cfg.height as nat)
                + ",framerate="@ + decimal(cfg.frame_interval.denominator as nat) + "/"@ + decimal(
                cfg.frame_interval.numerator as nat,
            ),
        ),
        None => Err(PipelineError::UnsupportedEncode(cfg.encode)),
    }
}

/// The source element of the pipeline, followed by its caps.
pub open spec fn source_spec(source: VideoSourceType, capability: Seq<char>) -> Result<
    Seq<char>,
    PipelineError,
> {
    match source {
        VideoSourceType::Gst(gst) => match gst.source {
            VideoSourceGstType::Fake(pattern) => Ok(
                "videotestsrc pattern="@ + pattern@ + " ! "@ + capability,
            ),
            VideoSourceGstType::Local(_) => Err(PipelineError::UnsupportedGstSource(gst)),
        },
        VideoSourceType::Local(local) => Ok("v4l2src device="@ + local.device_path@ + " ! "@ + capability),
        _ => Err(PipelineError::UnsupportedSourceType(source)),
    }
}

/// The transcoding part: a WebRTC sink takes raw video, so whatever comes is
/// decoded; otherwise the raw video of a GStreamer-made source is encoded to
/// H.264 where that is the encoding asked for.
pub open spec fn transcode_spec(source: VideoSourceType, encode: VideoEncodeType, webrtc: bool) -> Result<
    Seq<char>,
    PipelineError,
> {
    if webrtc {
        Ok(" ! decodebin3 ! videoconvert"@)
    } else {
        match source {
            VideoSourceType::Gst(_) => if encode is H264 {
                Ok(" ! videoconvert ! x264enc bitrate=5000 ! video/x-h264,profile=baseline"@)
            } else {
                Ok(Seq::<char>::empty())
            },
            _ => Err(PipelineError::UnsupportedSourceType(source)),
        }
    }
}

/// The payloading part: none for a WebRTC sink, an RTP payloader named
/// `pay0` for H.264.
pub open spec fn payload_spec(encode: VideoEncodeType, webrtc: bool) -> Result<Seq<char>, PipelineError> {
    if webrtc {
        Ok(Seq::<char>::empty())
    } else if encode is H264 {
        Ok(" ! h264parse ! queue ! rtph264pay name=pay0 config-interval=10 pt=96"@)
    } else {
        Err(PipelineError::UnsupportedEncode(encode))
    }
}

/// `host:port` of an endpoint.
pub open spec fn client_text(e: Endpoint) -> Seq<char> {
    opt_text(e.host)->0 + ":"@ + decimal(e.port->0 as nat)
}

/// The `host:port` of each endpoint, in order, separated by commas.
pub open spec fn udp_clients(eps: Seq<Endpoint>) -> Seq<char>
    decreases eps.len(),
{
    if eps.len() == 0 {
        Seq::<char>::empty()
    } else if eps.len() == 1 {
        client_text(eps[0])
    } else {
        udp_clients(eps.drop_last()) + ","@ + client_text(eps.last())
    }
}

pub open spec fn has_host_and_port(e: Endpoint) -> bool {
    e.host is Some && e.port is Some
}

/// What a sink that is not WebRTC needs: a first endpoint, and, where that
/// one is `udp`, a host and a port on every endpoint.
pub open spec fn plain_sink_ready(eps: Seq<Endpoint>) -> bool {
    &&& eps.len() > 0
    &&& eps[0].scheme@ == "udp"@ ==> forall|i: int| 0 <= i < eps.len() ==> has_host_and_port(#[trigger] eps[i])
}

/// The sink that is not WebRTC: a UDP sink to every endpoint where the first
/// one is `udp`, else nothing.
pub open spec fn plain_sink(eps: Seq<Endpoint>) -> Seq<char> {
    if eps[0].scheme@ == "udp"@ {
        " ! multiudpsink clients="@ + udp_clients(eps)
    } else {
        Seq::<char>::empty()
    }
}

/// The WebRTC sink with its three servers.
pub open spec fn webrtc_sink(chosen: WebrtcParts) -> Seq<char> {
    " ! webrtcsink stun-server="@ + chosen.0.0 + " turn-server="@ + chosen.1.0 + " signaller::address="@
        + chosen.2.0 + " video-caps=video/x-h264"@
}

/// The sink part; a WebRTC sink needs the default servers (`None` where they
/// could not be parsed).
pub open spec fn sink_spec(eps: Seq<Endpoint>, webrtc: bool, defaults: Option<WebrtcParts>) -> Result<
    Seq<char>,
    PipelineError,
> {
    if webrtc {
        match defaults {
            None => Err(PipelineError::InvalidEndpoint),
            Some(d) => match select_webrtc(eps, d) {
                Ok(chosen) => Ok(webrtc_sink(chosen)),
                Err(e) => Err(e),
            },
        }
    } else {
        Ok(plain_sink(eps))
    }
}

/// Everything before the sink: source, transcoding and payloading, in the
/// order in which their errors come.
pub open spec fn front_spec(info: VideoAndStreamInformation) -> Result<Seq<char>, PipelineError> {
    let webrtc = wants_webrtc_sink(info.stream_information.endpoints@);
    match configuration_spec(info) {
        Err(e) => Err(e),
        Ok(cfg) => match capability_spec(info.video_source, cfg) {
            Err(e) => Err(e),
            Ok(capability) => match source_spec(info.video_source, capability) {
                Err(e) => Err(e),
                Ok(source) => match transcode_spec(info.video_source, cfg.encode, webrtc) {
                    Err(e) => Err(e),
                    Ok(transcode) => match payload_spec(cfg.encode, webrtc) {
                        Err(e) => Err(e),
                        Ok(payload) => Ok(source + transcode + payload),
                    },
                },
            },
        },
    }
}

/// The description of a stream's pipeline: source, transcoding, payloading
/// and sink, or the first error met.
pub open spec fn description_spec(info: VideoAndStreamInformation, defaults: Option<WebrtcParts>) -> Result<
    Seq<char>,
    PipelineError,
> {
    let eps = info.stream_information.endpoints@;
    match front_spec(info) {
        Err(e) => Err(e),
        Ok(front) => match sink_spec(eps, wants_webrtc_sink(eps), defaults) {
            Err(e) => Err(e),
            Ok(sink) => Ok(front + sink),
        },
    }
}

/// The inputs on which building the pipeline would index an empty endpoint
/// list or read a missing host or port, which the pipeline never does: once
/// everything before the sink is built, a sink that is not WebRTC needs
/// `plain_sink_ready`.
pub open spec fn buildable(info: VideoAndStreamInformation) -> bool {
    let eps = info.stream_information.endpoints@;
    front_spec(info) is Ok && !wants_webrtc_sink(eps) ==> plain_sink_ready(eps)
}

} // verus!

verus! {

impl Pipeline {
    /// Builds the pipeline of a stream. The default WebRTC servers are parsed
    /// here; the description is `description_spec` with them.
    pub fn new(video_and_stream_information: &VideoAndStreamInformation) -> (res: Result<Pipeline, PipelineError>)
        requires
            buildable(*video_and_stream_information),
        ensures
            match description_spec(*video_and_stream_information, default_endpoint_parts()) {
                Ok(description) => res matches Ok(p) && p.description@ == description,
                Err(e) => res == Err::<Pipeline, PipelineError>(e),
            },
    {
        match default_webrtc_endpoints() {
            Ok(defaults) => Pipeline::assemble(video_and_stream_information, Some(&defaults)),
            Err(_) => Pipeline::assemble(video_and_stream_information, None),
        }
    }

    /// Builds the pipeline of a stream with the given default WebRTC servers.
    pub fn with_webrtc_defaults(
        video_and_stream_information: &VideoAndStreamInformation,
        defaults: &WebrtcEndpoints,
    ) -> (res: Result<Pipeline, PipelineError>)
        requires
            buildable(*video_and_stream_information),
        ensures
            match description_spec(*video_and_stream_information, Some(defaults@)) {
                Ok(description) => res matches Ok(p) && p.description@ == description,
                Err(e) => res == Err::<Pipeline, PipelineError>(e),
            },
    {
        Pipeline::assemble(video_and_stream_information, Some(defaults))
    }

    fn assemble(info: &VideoAndStreamInformation, defaults: Option<&WebrtcEndpoints>) -> (res: Result<
        Pipeline,
        PipelineError,
    >)
        requires
            buildable(*info),
        ensures
            match description_spec(*info, opt_webrtc_view(defaults)) {
                Ok(description) => res matches Ok(p) && p.description@ == description,
                Err(e) => res == Err::<Pipeline, PipelineError>(e),
            },
    {
        let front = match Pipeline::build_front(info) {
            Ok(f) => f,
            Err(e) => return Err(e),
        };
        let is_webrtcsink = Pipeline::is_webrtcsink(info);
        let sink = match Pipeline::build_pipeline_sink(
            &info.stream_information.endpoints,
            is_webrtcsink,
            defaults,
        ) {
            Ok(s) => s,
            Err(e) => return Err(e),
        };
        let mut description = front;
        description.append(sink.as_str());
        Ok(Pipeline { description })
    }

    /// Whether building the pipeline of the stream can go without indexing
    /// an empty endpoint list or reading a missing host or port: true unless
    /// everything before the sink builds, the sink is not WebRTC, and either
    /// there is no endpoint or the first one is `udp` and some endpoint lacks
    /// a host or a port.
    pub fn is_buildable(video_and_stream_information: &VideoAndStreamInformation) -> (res: bool)
        ensures
            res == buildable(*video_and_stream_information),
    {
        let info = video_and_stream_information;
        if Pipeline::build_front(info).is_err() || Pipeline::is_webrtcsink(info) {
            return true;
        }
        let endpoints = &info.stream_information.endpoints;
        if endpoints.len() == 0 {
            return false;
        }
        if !endpoints[0].has_scheme("udp") {
            return true;
        }
        let n: usize = endpoints.len();
        let mut i: usize = 0;
        while i < n
            invariant
                n == endpoints@.len(),
                i <= n,
                forall|j: int| 0 <= j < i ==> has_host_and_port(#[trigger] endpoints@[j]),
                info == video_and_stream_information,
                endpoints == &info.stream_information.endpoints,
                front_spec(*info) is Ok,
                !wants_webrtc_sink(endpoints@),
                n > 0,
                endpoints@[0].scheme@ == "udp"@,
            decreases n - i,
        {
            if endpoints[i].host.is_none() || endpoints[i].port.is_none() {
                assert(!has_host_and_port(endpoints@[i as int]));
                return false;
            }
            i = i + 1;
        }
        true
    }

    /// Source, transcoding and payloading.
    fn build_front(info: &VideoAndStreamInformation) -> (res: Result<String, PipelineError>)
        ensures
            match front_spec(*info) {
                Ok(s) => res matches Ok(r) && r@ == s,
                Err(e) => res == Err::<String, PipelineError>(e),
            },
    {
        let configuration = match Pipeline::get_video_capture_configuration(info) {
            Ok(c) => c,
            Err(e) => return Err(e),
        };
        let encode = &configuration.encode;
        let video_source = &info.video_source;
        let is_webrtcsink = Pipeline::is_webrtcsink(info);

        let capability = match Pipeline::build_capability_string(video_source, configuration) {
            Ok(c) => c,
            Err(e) => return Err(e),
        };
        let source = match Pipeline::build_pipeline_source(video_source, &capability) {
            Ok(s) => s,
            Err(e) => return Err(e),
        };
        let transcode = match Pipeline::build_pipeline_transcode(video_source, encode, is_webrtcsink) {
            Ok(t) => t,
            Err(e) => return Err(e),
        };
        let payload = match Pipeline::build_pipeline_payload(encode, is_webrtcsink) {
            Ok(p) => p,
            Err(e) => return Err(e),
        };
        let mut front = source;
        front.append(transcode.as_str());
        front.append(payload.as_str());
        Ok(front)
    }

    /// The caps of the source: `capability_spec`.
    pub fn build_capability_string(
        video_source: &VideoSourceType,
        configuration: &VideoCaptureConfiguration,
    ) -> (res: Result<String, PipelineError>)
        ensures
            match capability_spec(*video_source, *configuration) {
                Ok(s) => res matches Ok(r) && r@ == s,
                Err(e) => res == Err::<String, PipelineError>(e),
            },
            res matches Ok(r) ==> (",framerate="@ + decimal(configuration.frame_interval.denominator as nat)
                + "/"@ + decimal(configuration.frame_interval.numerator as nat)).is_suffix_of(r@),
    {
        proof {
            crate::pipeline_text_laws::lemma_caps_carry_size_and_rate(*video_source, *configuration);
        }
        let format = match video_source {
            VideoSourceType::Gst(_) => "video/x-raw",
            _ => match &configuration.encode {
                VideoEncodeType::H264 => "video/x-h264",
                video_encode_type => {
                    return Err(PipelineError::UnsupportedEncode(video_encode_type.clone()));
                },
            },
        };
        let mut capability = String::from_str(format);
        capability.append(",width=");
        push_decimal(&mut capability, configuration.width);
        capability.append(",height=");
        push_decimal(&mut capability, configuration.height);
        capability.append(",framerate=");
        push_decimal(&mut capability, configuration.frame_interval.denominator);
        capability.append("/");
        push_decimal(&mut capability, configuration.frame_interval.numerator);
        Ok(capability)
    }

    /// The source element followed by its caps: `source_spec`.
    pub fn build_pipeline_source(video_source: &VideoSourceType, capability: &String) -> (res: Result<
        String,
        PipelineError,
    >)
        ensures
            match source_spec(*video_source, capability@) {
                Ok(s) => res matches Ok(r) && r@ == s,
                Err(e) => res == Err::<String, PipelineError>(e),
            },
    {
        let mut pipeline_source = match video_source {
            VideoSourceType::Gst(gst_source) => match &gst_source.source {
                VideoSourceGstType::Fake(pattern) => {
                    let mut s = String::from_str("videotestsrc pattern=");
                    s.append(pattern.as_str());
                    s
                },
                VideoSourceGstType::Local(_) => {
                    return Err(PipelineError::UnsupportedGstSource(gst_source.clone()));
                },
            },
            VideoSourceType::Local(local_device) => {
                let mut s = String::from_str("v4l2src device=");
                s.append(local_device.device_path.as_str());
                s
            },
            video_source_type => {
                return Err(PipelineError::UnsupportedSourceType(video_source_type.clone()));
            },
        };
        pipeline_source.append(" ! ");
        pipeline_source.append(capability.as_str());
        Ok(pipeline_source)
    }

    /// The transcoding part: `transcode_spec`.
    pub fn build_pipeline_transcode(
        video_source: &VideoSourceType,
        encode: &VideoEncodeType,
        is_webrtcsink: bool,
    ) -> (res: Result<String, PipelineError>)
        ensures
            match transcode_spec(*video_source, *encode, is_webrtcsink) {
                Ok(s) => res matches Ok(r) && r@ == s,
                Err(e) => res == Err::<String, PipelineError>(e),
            },
    {
        if is_webrtcsink {
            // A WebRTC sink takes raw video, so whatever the source's encoding
            // is, it is decoded; "decodebin3" finds the decoder by itself.
            return Ok(String::from_str(" ! decodebin3 ! videoconvert"));
        }
        match video_source {
            VideoSourceType::Gst(_) => match encode {
                // Fake sources give raw video, which is encoded to H.264.
                VideoEncodeType::H264 => Ok(
                    String::from_str(
                        " ! videoconvert ! x264enc bitrate=5000 ! video/x-h264,profile=baseline",
                    ),
                ),
                _ => Ok(String::new()),
            },
            video_source_type => Err(PipelineError::UnsupportedSourceType(video_source_type.clone())),
        }
    }

    /// The payloading part, chosen by the encoding and the sink kind alone:
    /// `payload_spec`.
    pub fn build_pipeline_payload(encode: &VideoEncodeType, is_webrtcsink: bool) -> (res: Result<
        String,
        PipelineError,
    >)
        ensures
            match payload_spec(*encode, is_webrtcsink) {
                Ok(s) => res matches Ok(r) && r@ == s,
                Err(e) => res == Err::<String, PipelineError>(e),
            },
    {
        if is_webrtcsink {
            // A WebRTC sink takes no payload.
            return Ok(String::new());
        }
        match encode {
            // The payloader is named pay0 because the RTSP server looks for
            // that name; the name does no harm to the other sinks.
            VideoEncodeType::H264 => Ok(
                String::from_str(" ! h264parse ! queue ! rtph264pay name=pay0 config-interval=10 pt=96"),
            ),
            video_encode_type => Err(PipelineError::UnsupportedEncode(video_encode_type.clone())),
        }
    }

    /// The sink part: `sink_spec`; a sink that is not WebRTC needs a first
    /// endpoint, and hosts and ports where that one is `udp`.
    pub fn build_pipeline_sink(
        endpoints: &Vec<Endpoint>,
        is_webrtcsink: bool,
        defaults: Option<&WebrtcEndpoints>,
    ) -> (res: Result<String, PipelineError>)
        requires
            !is_webrtcsink ==> plain_sink_ready(endpoints@),
        ensures
            match sink_spec(endpoints@, is_webrtcsink, opt_webrtc_view(defaults)) {
                Ok(s) => res matches Ok(r) && r@ == s,
                Err(e) => res == Err::<String, PipelineError>(e),
            },
            (!is_webrtcsink && endpoints@[0].scheme@ == "udp"@) ==> (res matches Ok(r) && " ! multiudpsink clients="@.is_prefix_of(r@)
                && crate::pipeline_text_laws::lists_every_client(
                r@.subrange(" ! multiudpsink clients="@.len() as int, r@.len() as int),
                endpoints@,
            )),
    {
        proof {
            if !is_webrtcsink && endpoints@[0].scheme@ == "udp"@ {
                crate::pipeline_text_laws::lemma_udp_sink_names_every_endpoint(endpoints@);
            }
        }
        if is_webrtcsink {
            let defaults = match defaults {
                Some(d) => d,
                None => return Err(PipelineError::InvalidEndpoint),
            };
            return Pipeline::build_webrtc_sink(endpoints, defaults);
        }
        if endpoints[0].has_scheme("udp") {
            let clients = Pipeline::build_udp_clients(endpoints);
            let mut sink = String::from_str(" ! multiudpsink clients=");
            sink.append(clients.as_str());
            Ok(sink)
        } else {
            Ok(String::new())
        }
    }

    fn build_udp_clients(endpoints: &Vec<Endpoint>) -> (res: String)
        requires
            forall|i: int| 0 <= i < endpoints@.len() ==> has_host_and_port(#[trigger] endpoints@[i]),
        ensures
            res@ == udp_clients(endpoints@),
    {
        let n: usize = endpoints.len();
        let mut clients = String::new();
        let mut i: usize = 0;
        while i < n
            invariant
                n == endpoints@.len(),
                i <= n,
                forall|j: int| 0 <= j < endpoints@.len() ==> has_host_and_port(#[trigger] endpoints@[j]),
                clients@ == udp_clients(endpoints@.take(i as int)),
            decreases n - i,
        {
            let endpoint = &endpoints[i];
            assert(has_host_and_port(endpoints@[i as int]));
            if i > 0 {
                clients.append(",");
            }
            match &endpoint.host {
                Some(host) => clients.append(host.as_str()),
                None => {},
            }
            clients.append(":");
            match endpoint.port {
                Some(port) => push_decimal(&mut clients, port as u32),
                None => {},
            }
            assert(endpoints@.take(i + 1).drop_last() =~= endpoints@.take(i as int));
            assert(endpoints@.take(i + 1).last() == endpoints@[i as int]);
            i = i + 1;
        }
        assert(endpoints@.take(n as int) =~= endpoints@);
        clients
    }

    /// The WebRTC sink of a stream with the given default servers.
    pub fn build_webrtc_sink(endpoints: &Vec<Endpoint>, defaults: &WebrtcEndpoints) -> (res: Result<
        String,
        PipelineError,
    >)
        ensures
            match select_webrtc(endpoints@, defaults@) {
                Ok(chosen) => res matches Ok(r) && r@ == webrtc_sink(chosen),
                Err(e) => res == Err::<String, PipelineError>(e),
            },
    {
        let chosen = match select_webrtc_endpoints(endpoints, defaults) {
            Ok(c) => c,
            Err(e) => return Err(e),
        };
        let mut sink = String::from_str(" ! webrtcsink stun-server=");
        sink.append(chosen.stun.url.as_str());
        sink.append(" turn-server=");
        sink.append(chosen.turn.url.as_str());
        sink.append(" signaller::address=");
        sink.append(chosen.signalling.url.as_str());
        sink.append(" video-caps=video/x-h264");
        Ok(sink)
    }

    /// Whether the stream goes through a WebRTC sink: one of its endpoints has
    /// the scheme `webrtc`, `stun`, `turn` or `ws`.
    pub fn is_webrtcsink(video_and_stream_information: &VideoAndStreamInformation) -> (res: bool)
        ensures
            res == wants_webrtc_sink(video_and_stream_information.stream_information.endpoints@),
            res <==> exists|i: int|
                0 <= i < video_and_stream_information.stream_information.endpoints@.len()
                    && crate::pipeline_text_laws::names_webrtc(
                    #[trigger] video_and_stream_information.stream_information.endpoints@[i].scheme@,
                ),
    {
        proof {
            crate::pipeline_text_laws::lemma_any_webrtc_endpoint_asks_for_webrtc(
                video_and_stream_information.stream_information.endpoints@,
            );
        }
        let endpoints = &video_and_stream_information.stream_information.endpoints;
        let n: usize = endpoints.len();
        let mut is_webrtcsink = false;
        let mut i: usize = 0;
        while i < n
            invariant
                n == endpoints@.len(),
                i <= n,
                is_webrtcsink == exists|j: int| 0 <= j < i && is_webrtc_scheme(#[trigger] endpoints@[j].scheme@),
            decreases n - i,
        {
            let endpoint = &endpoints[i];
            if endpoint.has_scheme("webrtc") || endpoint.has_scheme("stun") || endpoint.has_scheme("turn")
                || endpoint.has_scheme("ws") {
                is_webrtcsink = true;
            }
            i = i + 1;
        }
        is_webrtcsink
    }

    /// The capture configuration of the stream, refused for a redirection:
    /// `configuration_spec`.
    pub fn get_video_capture_configuration(video_and_stream_information: &VideoAndStreamInformation) -> (res:
        Result<&VideoCaptureConfiguration, PipelineError>)
        ensures
            match configuration_spec(*video_and_stream_information) {
                Ok(c) => res matches Ok(r) && *r == c,
                Err(e) => res == Err::<&VideoCaptureConfiguration, PipelineError>(e),
            },
    {
        match &video_and_stream_information.stream_information.configuration {
            CaptureConfiguration::VIDEO(configuration) => Ok(configuration),
            CaptureConfiguration::REDIRECT(_) => Err(PipelineError::RedirectSource),
        }
    }
}

} // verus!
