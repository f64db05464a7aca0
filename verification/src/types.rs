//! The description of a video source and of the stream made from it.

use vstd::prelude::*;

use crate::endpoint::Endpoint;

verus! {

/// How the frames of a source are encoded.
#[derive(Debug, PartialEq, Eq)]
pub enum VideoEncodeType {
    Unknown(String),
    H265,
    H264,
    MJPG,
    YUYV,
}

impl Clone for VideoEncodeType {
    fn clone(&self) -> (res: Self)
        ensures
            res == *self,
    {
        match self {
            VideoEncodeType::Unknown(name) => VideoEncodeType::Unknown(name.clone()),
            VideoEncodeType::H265 => VideoEncodeType::H265,
            VideoEncodeType::H264 => VideoEncodeType::H264,
            VideoEncodeType::MJPG => VideoEncodeType::MJPG,
            VideoEncodeType::YUYV => VideoEncodeType::YUYV,
        }
    }
}

/// A frame rate given as the interval between two frames, in seconds.
#[derive(Debug, PartialEq, Eq, Clone, Copy)]
pub struct FrameInterval {
    pub numerator: u32,
    pub denominator: u32,
}

/// The size, rate and encoding that a video stream is captured with.
#[derive(Debug, PartialEq, Eq)]
pub struct VideoCaptureConfiguration {
    pub encode: VideoEncodeType,
    pub height: u32,
    pub width: u32,
    pub frame_interval: FrameInterval,
}

impl Clone for VideoCaptureConfiguration {
    fn clone(&self) -> (res: Self)
        ensures
            res == *self,
    {
        VideoCaptureConfiguration {
            encode: self.encode.clone(),
            height: self.height,
            width: self.width,
            frame_interval: self.frame_interval,
        }
    }
}

/// The configuration of a stream that only points elsewhere.
#[derive(Debug, PartialEq, Eq, Clone, Copy)]
pub struct RedirectCaptureConfiguration {}

/// What a stream captures: video, or a redirection to another stream.
#[allow(non_camel_case_types)]
#[derive(Debug, PartialEq, Eq)]
pub enum CaptureConfiguration {
    VIDEO(VideoCaptureConfiguration),
    REDIRECT(RedirectCaptureConfiguration),
}

/// A video device of the local machine.
#[derive(Debug, PartialEq, Eq)]
pub struct VideoSourceLocal {
    pub name: String,
    pub device_path: String,
}

impl Clone for VideoSourceLocal {
    fn clone(&self) -> (res: Self)
        ensures
            res == *self,
    {
        VideoSourceLocal { name: self.name.clone(), device_path: self.device_path.clone() }
    }
}

/// What a GStreamer-made source produces its frames from.
#[derive(Debug, PartialEq, Eq)]
pub enum VideoSourceGstType {
    Local(VideoSourceLocal),
    /// A test pattern, by its `videotestsrc` name.
    Fake(String),
}

impl Clone for VideoSourceGstType {
    fn clone(&self) -> (res: Self)
        ensures
            res == *self,
    {
        match self {
            VideoSourceGstType::Local(local) => VideoSourceGstType::Local(local.clone()),
            VideoSourceGstType::Fake(pattern) => VideoSourceGstType::Fake(pattern.clone()),
        }
    }
}

/// A source whose frames GStreamer makes.
#[derive(Debug, PartialEq, Eq)]
pub struct VideoSourceGst {
    pub name: String,
    pub source: VideoSourceGstType,
}

impl Clone for VideoSourceGst {
    fn clone(&self) -> (res: Self)
        ensures
            res == *self,
    {
        VideoSourceGst { name: self.name.clone(), source: self.source.clone() }
    }
}

/// A source that is only the address of a stream served elsewhere.
#[derive(Debug, PartialEq, Eq)]
pub struct VideoSourceRedirect {
    pub name: String,
}

impl Clone for VideoSourceRedirect {
    fn clone(&self) -> (res: Self)
        ensures
            res == *self,
    {
        VideoSourceRedirect { name: self.name.clone() }
    }
}

/// Where the frames of a stream come from.
#[derive(Debug, PartialEq, Eq)]
pub enum VideoSourceType {
    Gst(VideoSourceGst),
    Local(VideoSourceLocal),
    Redirect(VideoSourceRedirect),
}

impl Clone for VideoSourceType {
    fn clone(&self) -> (res: Self)
        ensures
            res == *self,
    {
        match self {
            VideoSourceType::Gst(gst) => VideoSourceType::Gst(gst.clone()),
            VideoSourceType::Local(local) => VideoSourceType::Local(local.clone()),
            VideoSourceType::Redirect(redirect) => VideoSourceType::Redirect(redirect.clone()),
        }
    }
}

/// Where a stream is sent and how it is captured.
#[derive(Debug)]
pub struct StreamInformation {
    pub endpoints: Vec<Endpoint>,
    pub configuration: CaptureConfiguration,
}

/// A stream together with the source it is made from.
#[derive(Debug)]
pub struct VideoAndStreamInformation {
    pub name: String,
    pub stream_information: StreamInformation,
    pub video_source: VideoSourceType,
}

/// Why no pipeline could be built; `PipelineError::message` gives the text it
/// is reported with.
#[derive(Debug, PartialEq, Eq)]
pub enum PipelineError {
    /// The stream redirects to another one: there is nothing to capture.
    RedirectSource,
    /// The encoding cannot be carried by the pipeline.
    UnsupportedEncode(VideoEncodeType),
    /// The GStreamer source kind cannot start a pipeline.
    UnsupportedGstSource(VideoSourceGst),
    /// The source kind cannot start a pipeline (at that stage).
    UnsupportedSourceType(VideoSourceType),
    /// A WebRTC stream was given an endpoint whose scheme is none of
    /// `webrtc`, `stun`, `turn` and `ws`; the scheme is carried.
    UnsupportedWebrtcScheme(String),
    /// A text that is no absolute URL.
    InvalidEndpoint,
}

} // verus!
