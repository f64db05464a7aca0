//! The messages that pipeline errors are reported with.

use vstd::prelude::*;

use crate::rendering::{
    encode_text, gst_text, push_encode_text, push_gst_text, push_source_text, source_text,
};
use crate::types::PipelineError;

verus! {

/// What std's `Debug` formatting of a string writes for the given text: the
/// text between double quotes, with quotes, backslashes and other characters
/// escaped.
pub uninterp spec fn str_debug(text: Seq<char>) -> Seq<char>;

/// Calls std's `Debug` formatting of a string (`format!("{:#?}")` on a `str`).
/// The contract claims only that the rendering is a function of the text
/// (the name `str_debug`).
#[verifier::external_body]
fn debug_str(text: &str) -> (res: String)
    ensures
        res@ == str_debug(text@),
{
    format!("{text:#?}")
}

/// How a WebRTC stream names its servers.
pub fn webrtc_usage_hint() -> (res: &'static str)
    ensures
        res@ == webrtc_usage_hint_spec(),
{
    "Add a 'webrtc://' endpoint to stream through WebRTC; 'stun://<host>:<port>', 'turn://<user>:<password>@<host>:<port>' and 'ws://<host>:<port>' endpoints replace the default STUN, TURN and signalling servers"
}

pub open spec fn webrtc_usage_hint_spec() -> Seq<char> {
    "Add a 'webrtc://' endpoint to stream through WebRTC; 'stun://<host>:<port>', 'turn://<user>:<password>@<host>:<port>' and 'ws://<host>:<port>' endpoints replace the default STUN, TURN and signalling servers"@
}

/// A character that a string's `Debug` writes as itself: a printable ASCII
/// character other than `"` and `\`.
pub open spec fn is_plain_char(c: char) -> bool {
    ' ' <= c && c <= '~' && c != '"' && c != '\\'
}

pub open spec fn is_plain_text(s: Seq<char>) -> bool {
    forall|i: int| 0 <= i < s.len() ==> is_plain_char(#[trigger] s[i])
}

fn is_plain(s: &str) -> (res: bool)
    ensures
        res == is_plain_text(s@),
{
    let n: usize = s.unicode_len();
    let mut i: usize = 0;
    while i < n
        invariant
            n == s@.len(),
            i <= n,
            forall|j: int| 0 <= j < i ==> is_plain_char(#[trigger] s@[j]),
        decreases n - i,
    {
        let c = s.get_char(i);
        if !(' ' <= c && c <= '~' && c != '"' && c != '\\') {
            assert(!is_plain_char(s@[i as int]));
            return false;
        }
        i = i + 1;
    }
    true
}

/// A text as a string's `Debug` writes it: between double quotes where it
/// is plain, else as std renders it.
pub open spec fn quoted(text: Seq<char>) -> Seq<char> {
    if is_plain_text(text) {
        "\""@ + text + "\""@
    } else {
        str_debug(text)
    }
}

/// Appends `quoted(text)`.
pub(crate) fn push_quoted(out: &mut String, text: &str)
    ensures
        final(out)@ == old(out)@ + quoted(text@),
{
    if is_plain(text) {
        out.append("\"");
        out.append(text);
        out.append("\"");
        assert(final(out)@ =~= old(out)@ + quoted(text@));
    } else {
        out.append(debug_str(text).as_str());
    }
}

pub open spec fn redirect_message() -> Seq<char> {
    "Error: Cannot create a pipeline from a REDIRECT source!"@
}

pub open spec fn encode_message_prefix() -> Seq<char> {
    "Unsupported VideoEncodeType: "@
}

pub open spec fn gst_source_message_prefix() -> Seq<char> {
    "Unsupported GST source endpoint: "@
}

pub open spec fn source_type_message_prefix() -> Seq<char> {
    "Unsupported VideoSourceType: "@
}

/// The start of the message for an endpoint whose scheme a WebRTC stream
/// does not accept, up to the scheme.
pub open spec fn webrtc_scheme_message_prefix() -> Seq<char> {
    "Only 'webrtc://', 'stun://', 'turn://' and 'ws://' schemes are accepted. "@ + webrtc_usage_hint_spec()
        + ". The scheme passed was: "@
}

pub open spec fn invalid_endpoint_message() -> Seq<char> {
    "Invalid endpoint URL"@
}

impl PipelineError {
    /// The message that the error is reported with:
    /// - a redirection: `Error: Cannot create a pipeline from a REDIRECT source!`;
    /// - an encoding: `Unsupported VideoEncodeType: ` and the encoding's
    ///   pretty `Debug` text;
    /// - a GStreamer source: `Unsupported GST source endpoint: ` and the
    ///   source's pretty `Debug` text;
    /// - a source kind: `Unsupported VideoSourceType: `, its pretty `Debug`
    ///   text and `.`;
    /// - a WebRTC scheme: the accepted schemes, the usage hint, then
    ///   `The scheme passed was: `, the scheme as a string's `Debug` writes it,
    ///   and a closing `"`;
    /// - an invalid endpoint: `Invalid endpoint URL`.
    ///
    /// The pretty `Debug` texts are the ones of `rendering`; texts inside
    /// them are quoted as a string's `Debug` quotes them, written here for
    /// printable ASCII and rendered by std otherwise (`str_debug`).
    pub fn message(&self) -> (res: String)
        ensures
            match self {
                PipelineError::RedirectSource => res@ == redirect_message(),
                PipelineError::UnsupportedEncode(e) => res@ == encode_message_prefix() + encode_text(*e, 0),
                PipelineError::UnsupportedGstSource(g) => res@ == gst_source_message_prefix() + gst_text(*g, 0),
                PipelineError::UnsupportedSourceType(s) => res@ == source_type_message_prefix() + source_text(
                    *s,
                    0,
                ) + "."@,
                PipelineError::UnsupportedWebrtcScheme(scheme) => {
                    &&& res@ == webrtc_scheme_message_prefix() + quoted(scheme@) + "\""@
                    &&& is_plain_text(scheme@) ==> res@ == webrtc_scheme_message_prefix() + "\""@ + scheme@
                        + "\""@ + "\""@
                },
                PipelineError::InvalidEndpoint => res@ == invalid_endpoint_message(),
            },
    {
        match self {
            PipelineError::RedirectSource => String::from_str(
                "Error: Cannot create a pipeline from a REDIRECT source!",
            ),
            PipelineError::UnsupportedEncode(encode) => {
                let mut message = String::from_str("Unsupported VideoEncodeType: ");
                push_encode_text(&mut message, encode, 0);
                message
            },
            PipelineError::UnsupportedGstSource(gst_source) => {
                let mut message = String::from_str("Unsupported GST source endpoint: ");
                push_gst_text(&mut message, gst_source, 0);
                message
            },
            PipelineError::UnsupportedSourceType(source) => {
                let mut message = String::from_str("Unsupported VideoSourceType: ");
                push_source_text(&mut message, source, 0);
                message.append(".");
                message
            },
            PipelineError::UnsupportedWebrtcScheme(scheme) => {
                let mut message = String::from_str(
                    "Only 'webrtc://', 'stun://', 'turn://' and 'ws://' schemes are accepted. ",
                );
                message.append(webrtc_usage_hint());
                message.append(". The scheme passed was: ");
                push_quoted(&mut message, scheme.as_str());
                message.append("\"");
                proof {
                    if is_plain_text(scheme@) {
                        assert(message@ =~= webrtc_scheme_message_prefix() + "\""@ + scheme@ + "\""@ + "\""@);
                    }
                }
                message
            },
            PipelineError::InvalidEndpoint => String::from_str("Invalid endpoint URL"),
        }
    }
}

} // verus!
