use vstd::prelude::*;
use vstd::string::StringExecFns;

verus! {

/// Default port of the device's video channel.
pub const DEFAULT_VIDEO_PORT: u16 = 4002;

/// Default port of the device's audio channel.
pub const DEFAULT_AUDIO_PORT: u16 = 4000;

/// Seconds to wait for the connection to come up before opening the stream.
pub const GRACE_PERIOD_SECS: u64 = 3;

/// Where to reach the device, with what credentials and on which ports.
/// Fixed once the process has started.
#[derive(Clone, Debug)]
pub struct ConnectionParams {
    pub robot_ip: String,
    pub robot_token: String,
    pub video_port: u16,
    pub audio_port: u16,
    pub debug_webrtc: bool,
}

/// A configured text, or the empty text when none is given.
pub open spec fn text_or_empty(v: Option<String>) -> Seq<char> {
    match v {
        Some(s) => s@,
        None => Seq::empty(),
    }
}

impl ConnectionParams {
    /// Builds the parameters from the configured endpoint and token, each
    /// empty when absent; the ports and the debug flag take their defaults.
    pub fn from_settings(robot_ip: Option<String>, robot_token: Option<String>) -> (r: ConnectionParams)
        ensures
            r.robot_ip@ == text_or_empty(robot_ip),
            r.robot_token@ == text_or_empty(robot_token),
            r.video_port == DEFAULT_VIDEO_PORT,
            r.audio_port == DEFAULT_AUDIO_PORT,
            r.debug_webrtc,
    {
        let robot_ip = match robot_ip {
            Some(s) => s,
            None => String::from_str(""),
        };
        let robot_token = match robot_token {
            Some(s) => s,
            None => String::from_str(""),
        };
        proof {
            reveal_strlit("");
        }
        ConnectionParams {
            robot_ip,
            robot_token,
            video_port: DEFAULT_VIDEO_PORT,
            audio_port: DEFAULT_AUDIO_PORT,
            debug_webrtc: true,
        }
    }
}

/// The topic that the image messages are published on.
pub open spec fn image_topic_text() -> Seq<char> {
    "/go2_camera/color/image"@
}

/// The topic that the image messages are published on.
pub fn image_topic() -> (r: String)
    ensures
        r@ == image_topic_text(),
{
    String::from_str("/go2_camera/color/image")
}

/// The locator of the session description that the stream is opened from.
pub open spec fn stream_locator_text() -> Seq<char> {
    "https://raw.githubusercontent.com/tfoldi/go2webrtc-rs/master/connection.sdp"@
}

/// The locator of the session description that the stream is opened from.
pub fn stream_locator() -> (r: String)
    ensures
        r@ == stream_locator_text(),
{
    String::from_str("https://raw.githubusercontent.com/tfoldi/go2webrtc-rs/master/connection.sdp")
}

} // verus!
