//! The gateway: what each request does to the shared state and which reply
//! it gets.
//!
//! A gateway owns the artifact store and the request counter. Each handler
//! is one short step on that state, free of I/O, so that whoever shares a
//! gateway between connections holds it only for the length of that step.
//! Blocking work (the screen grab, the host's device queries) is done before
//! the handler is called and handed to it as a plain value.

use vstd::prelude::*;
use crate::audio::{AudioDevices, AudioError};
use crate::capture::CaptureError;
use crate::ident::{image_prefix, is_nonce, session_prefix};
use crate::metrics::{bumped, rendered, RequestCounter};
use crate::session::{pair, Session};
use crate::store::{lookup, ArtifactStore};

verus! {

/// The page served at the root when no built site is present.
pub const EMBEDDED_PAGE: &'static str = "
    <!DOCTYPE html>
    <html>
    <head>
        <title>PromptLens Server</title>
        <meta name=\"viewport\" content=\"width=device-width, initial-scale=1.0\">
        <style>
            body { font-family: -apple-system, BlinkMacSystemFont, sans-serif; text-align: center; padding: 40px; }
            .container { max-width: 600px; margin: 0 auto; }
            .title { font-size: 2em; margin-bottom: 20px; }
            .message { font-size: 1.2em; margin-bottom: 30px; color: #666; }
            .link { display: inline-block; background: #007bff; color: white; padding: 12px 24px; text-decoration: none; border-radius: 6px; }
        </style>
    </head>
    <body>
        <div class=\"container\">
            <h1 class=\"title\">📱 PromptLens Server</h1>
            <p class=\"message\">桌面应用程序正在运行</p>
            <p class=\"message\">Web 客户端正在开发中，请使用桌面应用程序进行操作</p>
            <p><strong>API 端点可用:</strong></p>
            <ul style=\"text-align: left; display: inline-block;\">
                <li>GET /health - 健康检查</li>
                <li>GET /metrics - 服务指标</li>
                <li>POST /v1/record/start - 开始录制</li>
                <li>POST /v1/record/stop - 停止录制</li>
                <li>POST /v1/capture/screenshot - 截图</li>
                <li>POST /v1/pair - 设备配对</li>
                <li>GET /v1/audio/devices - 列出音频输入/输出设备</li>
            </ul>
        </div>
    </body>
    </html>
    ";

/// The sample rate assumed where a recording request names none.
pub const DEFAULT_SAMPLE_RATE: u32 = 44_100;

/// Where the site served at the root comes from.
#[derive(Debug, Clone, Copy, PartialEq, Eq)]
pub enum StaticRoot {
    /// The web client's built assets.
    Primary,
    /// The desktop shell's built assets.
    Fallback,
    /// No built assets: the embedded page.
    Embedded,
}

/// Chooses the source of the root site: the primary assets where they exist,
/// else the fallback assets where they exist, else the embedded page.
pub fn choose_static_root(primary_exists: bool, fallback_exists: bool) -> (root: StaticRoot)
    ensures
        root == if primary_exists {
            StaticRoot::Primary
        } else if fallback_exists {
            StaticRoot::Fallback
        } else {
            StaticRoot::Embedded
        },
{
    if primary_exists {
        StaticRoot::Primary
    } else if fallback_exists {
        StaticRoot::Fallback
    } else {
        StaticRoot::Embedded
    }
}

/// Request method of an endpoint.
#[derive(Debug, Clone, Copy, PartialEq, Eq)]
pub enum Method {
    Get,
    Post,
}

/// The endpoints of the HTTP surface.
#[derive(Debug, Clone, Copy, PartialEq, Eq)]
pub enum Endpoint {
    Health,
    Ready,
    Live,
    Metrics,
    Pair,
    RecordStart,
    RecordStop,
    CaptureScreenshot,
    Image,
    AudioDevices,
    Root,
}

impl Endpoint {
    /// The method under which the endpoint is served.
    pub open spec fn method_of(self) -> Method {
        match self {
            Endpoint::Pair
            | Endpoint::RecordStart
            | Endpoint::RecordStop
            | Endpoint::CaptureScreenshot => Method::Post,
            _ => Method::Get,
        }
    }

    /// The path pattern under which the endpoint is served. A segment that
    /// starts with a colon stands for any one segment.
    pub open spec fn path_of(self) -> Seq<char> {
        match self {
            Endpoint::Health => "/health"@,
            Endpoint::Ready => "/readyz"@,
            Endpoint::Live => "/livez"@,
            Endpoint::Metrics => "/metrics"@,
            Endpoint::Pair => "/v1/pair"@,
            Endpoint::RecordStart => "/v1/record/start"@,
            Endpoint::RecordStop => "/v1/record/stop"@,
            Endpoint::CaptureScreenshot => "/v1/capture/screenshot"@,
            Endpoint::Image => "/v1/image/:image_id"@,
            Endpoint::AudioDevices => "/v1/audio/devices"@,
            Endpoint::Root => "/"@,
        }
    }

    /// The method under which the endpoint is served.
    pub fn method(&self) -> (m: Method)
        ensures
            m == self.method_of(),
    {
        match self {
            Endpoint::Pair
            | Endpoint::RecordStart
            | Endpoint::RecordStop
            | Endpoint::CaptureScreenshot => Method::Post,
            _ => Method::Get,
        }
    }

    /// The path pattern under which the endpoint is served.
    pub fn path(&self) -> (p: &'static str)
        ensures
            p@ == self.path_of(),
    {
        match self {
            Endpoint::Health => "/health",
            Endpoint::Ready => "/readyz",
            Endpoint::Live => "/livez",
            Endpoint::Metrics => "/metrics",
            Endpoint::Pair => "/v1/pair",
            Endpoint::RecordStart => "/v1/record/start",
            Endpoint::RecordStop => "/v1/record/stop",
            Endpoint::CaptureScreenshot => "/v1/capture/screenshot",
            Endpoint::Image => "/v1/image/:image_id",
            Endpoint::AudioDevices => "/v1/audio/devices",
            Endpoint::Root => "/",
        }
    }

    /// Every endpoint, once.
    pub fn all() -> (list: Vec<Endpoint>)
        ensures
            list@.len() == 11,
            list@.no_duplicates(),
            forall|e: Endpoint| list@.contains(e),
    {
        let list = vec![
            Endpoint::Health,
            Endpoint::Ready,
            Endpoint::Live,
            Endpoint::Metrics,
            Endpoint::Pair,
            Endpoint::RecordStart,
            Endpoint::RecordStop,
            Endpoint::CaptureScreenshot,
            Endpoint::Image,
            Endpoint::AudioDevices,
            Endpoint::Root,
        ];
        proof {
            assert forall|e: Endpoint| list@.contains(e) by {
                let k: int = match e {
                    Endpoint::Health => 0,
                    Endpoint::Ready => 1,
                    Endpoint::Live => 2,
                    Endpoint::Metrics => 3,
                    Endpoint::Pair => 4,
                    Endpoint::RecordStart => 5,
                    Endpoint::RecordStop => 6,
                    Endpoint::CaptureScreenshot => 7,
                    Endpoint::Image => 8,
                    Endpoint::AudioDevices => 9,
                    Endpoint::Root => 10,
                };
                assert(list@[k] == e);
            }
        }
        list
    }
}

/// A declarative request to start a recording.
#[derive(Debug, Clone)]
pub struct RecordingIntent {
    pub sample_rate: Option<u32>,
    pub input_device_id: Option<String>,
    pub output_device_id: Option<String>,
}

/// A recording request with its gaps filled: what is written to the log.
#[derive(Debug, Clone)]
pub struct RecordingPlan {
    pub sample_rate: u32,
    pub input_device_id: String,
    pub output_device_id: String,
}

impl RecordingIntent {
    /// The sample rate asked for, or the default.
    pub open spec fn sample_rate_or_default(self) -> u32 {
        match self.sample_rate {
            Some(rate) => rate,
            None => DEFAULT_SAMPLE_RATE,
        }
    }

    /// The input device asked for, or the empty string.
    pub open spec fn input_or_empty(self) -> Seq<char> {
        match self.input_device_id {
            Some(id) => id@,
            None => Seq::empty(),
        }
    }

    /// The output device asked for, or the empty string.
    pub open spec fn output_or_empty(self) -> Seq<char> {
        match self.output_device_id {
            Some(id) => id@,
            None => Seq::empty(),
        }
    }

    /// Fills the gaps of the request: the default sample rate, and the empty
    /// string for a device that is not named.
    pub fn plan(&self) -> (p: RecordingPlan)
        ensures
            p.sample_rate == self.sample_rate_or_default(),
            p.input_device_id@ == self.input_or_empty(),
            p.output_device_id@ == self.output_or_empty(),
    {
        let sample_rate = match self.sample_rate {
            Some(rate) => rate,
            None => DEFAULT_SAMPLE_RATE,
        };
        let input_device_id = match &self.input_device_id {
            Some(id) => id.clone(),
            None => String::new(),
        };
        let output_device_id = match &self.output_device_id {
            Some(id) => id.clone(),
            None => String::new(),
        };
        RecordingPlan { sample_rate, input_device_id, output_device_id }
    }
}

/// What a request is answered with.
#[derive(Debug, Clone)]
pub enum Reply {
    /// A probe's answer: the text `ok`.
    Alive,
    /// The counter in the text exposition format.
    Metrics(Vec<u8>),
    /// The counter could not be rendered.
    MetricsFailed,
    /// The session issued to a paired client, as a JSON object.
    Paired(Session),
    /// The JSON object that says `ok` is true.
    Acknowledged,
    /// The identifier of the stored screenshot, as a JSON object.
    Captured { image_id: String },
    /// The capture gave no image, or the image found no place.
    CaptureFailed,
    /// The bytes of a stored image.
    Image(Vec<u8>),
    /// No image is stored under the identifier asked for.
    ImageNotFound,
    /// The audio devices, as a JSON object.
    Devices(AudioDevices),
    /// The devices could not be listed.
    DevicesFailed,
    /// The embedded page.
    Page,
}

impl Reply {
    /// The HTTP status of the reply.
    pub open spec fn status_code(self) -> u16 {
        match self {
            Reply::MetricsFailed | Reply::CaptureFailed | Reply::DevicesFailed => 500,
            Reply::ImageNotFound => 404,
            _ => 200,
        }
    }

    /// The value of the reply's `Content-Type` header.
    pub open spec fn content_type_text(self) -> Seq<char> {
        match self {
            Reply::Metrics(_) => "text/plain; version=0.0.4"@,
            Reply::Paired(_) | Reply::Acknowledged | Reply::Captured { .. } | Reply::Devices(
                _,
            ) => "application/json"@,
            Reply::Image(_) => "image/png"@,
            Reply::Page => "text/html; charset=utf-8"@,
            _ => "text/plain; charset=utf-8"@,
        }
    }

    /// The value of the reply's `Cache-Control` header, where it has one.
    pub open spec fn cache_control_text(self) -> Option<Seq<char>> {
        match self {
            Reply::Image(_) => Some("no-store"@),
            _ => None,
        }
    }

    /// The body of a reply whose body is a fixed text.
    pub open spec fn fixed_text(self) -> Option<Seq<char>> {
        match self {
            Reply::Alive => Some("ok"@),
            Reply::MetricsFailed => Some("metrics failed"@),
            Reply::CaptureFailed => Some("screenshot failed"@),
            Reply::ImageNotFound => Some("image not found"@),
            Reply::DevicesFailed => Some("list devices failed"@),
            Reply::Page => Some(EMBEDDED_PAGE@),
            _ => None,
        }
    }

    /// The HTTP status of the reply.
    pub fn status(&self) -> (code: u16)
        ensures
            code == self.status_code(),
    {
        match self {
            Reply::MetricsFailed | Reply::CaptureFailed | Reply::DevicesFailed => 500,
            Reply::ImageNotFound => 404,
            _ => 200,
        }
    }

    /// The value of the reply's `Content-Type` header.
    pub fn content_type(&self) -> (value: &'static str)
        ensures
            value@ == self.content_type_text(),
    {
        match self {
            Reply::Metrics(_) => "text/plain; version=0.0.4",
            Reply::Paired(_) | Reply::Acknowledged | Reply::Captured { .. } | Reply::Devices(
                _,
            ) => "application/json",
            Reply::Image(_) => "image/png",
            Reply::Page => "text/html; charset=utf-8",
            _ => "text/plain; charset=utf-8",
        }
    }

    /// The value of the reply's `Cache-Control` header, where it has one.
    pub fn cache_control(&self) -> (value: Option<&'static str>)
        ensures
            match value {
                Some(v) => self.cache_control_text() == Some(v@),
                None => self.cache_control_text() is None,
            },
    {
        match self {
            Reply::Image(_) => Some("no-store"),
            _ => None,
        }
    }

    /// The body of a reply whose body is a fixed text.
    pub fn text(&self) -> (body: Option<&'static str>)
        ensures
            match body {
                Some(t) => self.fixed_text() == Some(t@),
                None => self.fixed_text() is None,
            },
    {
        match self {
            Reply::Alive => Some("ok"),
            Reply::MetricsFailed => Some("metrics failed"),
            Reply::CaptureFailed => Some("screenshot failed"),
            Reply::ImageNotFound => Some("image not found"),
            Reply::DevicesFailed => Some("list devices failed"),
            Reply::Page => Some(EMBEDDED_PAGE),
            _ => None,
        }
    }
}

/// The shared state behind the HTTP surface.
pub struct Gateway {
    store: ArtifactStore,
    counter: RequestCounter,
}

impl Gateway {
    /// The artifacts held.
    pub closed spec fn artifacts(self) -> Map<Seq<char>, Seq<u8>> {
        self.store@
    }

    /// The number of requests handled.
    pub closed spec fn requests(self) -> nat {
        self.counter@
    }

    /// One more request was handled and no artifact changed.
    pub open spec fn counted(self, before: Gateway) -> bool {
        &&& self.requests() == bumped(before.requests())
        &&& self.artifacts() == before.artifacts()
    }

    /// A gateway over the given components.
    pub fn new(store: ArtifactStore, counter: RequestCounter) -> (g: Gateway)
        ensures
            g.artifacts() == store@,
            g.requests() == counter@,
    {
        Gateway { store, counter }
    }

    /// The number of requests handled.
    pub fn request_count(&self) -> (n: u64)
        ensures
            n == self.requests(),
    {
        self.counter.total()
    }

    /// The artifact store.
    pub fn store(&self) -> (s: &ArtifactStore)
        ensures
            s@ == self.artifacts(),
    {
        &self.store
    }

    /// Answers a liveness or readiness probe. The answer is the same in
    /// every state.
    pub fn probe(&mut self) -> (reply: Reply)
        ensures
            reply == Reply::Alive,
            reply.status_code() == 200,
            final(self).counted(*old(self)),
    {
        self.counter.record();
        Reply::Alive
    }

    /// Renders the request counter, this request included.
    pub fn metrics(&mut self) -> (reply: Reply)
        ensures
            final(self).counted(*old(self)),
            match rendered(final(self).requests()) {
                Some(text) => reply matches Reply::Metrics(body) && body@ == text,
                None => reply == Reply::MetricsFailed,
            },
    {
        self.counter.record();
        match self.counter.render() {
            Some(body) => Reply::Metrics(body),
            None => Reply::MetricsFailed,
        }
    }

    /// Pairs a client: any token is exchanged for a fresh session.
    pub fn pair(&mut self, pair_token: &str) -> (reply: Reply)
        ensures
            final(self).counted(*old(self)),
            reply.status_code() == 200,
            reply matches Reply::Paired(session) && session.session_id@.len() == 38 && exists|
                n: Seq<char>,
            |
                is_nonce(n) && session.session_id@ == session_prefix() + n,
    {
        self.counter.record();
        Reply::Paired(pair(pair_token))
    }

    /// Accepts a request to start a recording. No recording starts.
    pub fn record_start(&mut self, intent: &RecordingIntent) -> (reply: Reply)
        ensures
            final(self).counted(*old(self)),
            reply == Reply::Acknowledged,
    {
        self.counter.record();
        Reply::Acknowledged
    }

    /// Accepts a request to stop a recording. Nothing stops.
    pub fn record_stop(&mut self) -> (reply: Reply)
        ensures
            final(self).counted(*old(self)),
            reply == Reply::Acknowledged,
    {
        self.counter.record();
        Reply::Acknowledged
    }

    /// Takes the outcome of a capture: an image is stored under a fresh
    /// identifier, which is the reply; a failure is answered as such and
    /// stores nothing.
    pub fn capture_screenshot(&mut self, outcome: Result<Vec<u8>, CaptureError>) -> (reply: Reply)
        ensures
            final(self).requests() == bumped(old(self).requests()),
            match outcome {
                Ok(png) => match reply {
                    Reply::Captured { image_id } => {
                        &&& exists|n: Seq<char>| is_nonce(n) && image_id@ == image_prefix() + n
                        &&& !old(self).artifacts().contains_key(image_id@)
                        &&& final(self).artifacts() == old(self).artifacts().insert(
                            image_id@,
                            png@,
                        )
                        &&& lookup(final(self).artifacts(), image_id@) == Some(png@)
                    },
                    Reply::CaptureFailed => {
                        &&& final(self).artifacts() == old(self).artifacts()
                        &&& exists|n: Seq<char>|
                            is_nonce(n) && old(self).artifacts().contains_key(image_prefix() + n)
                    },
                    _ => false,
                },
                Err(_) => reply == Reply::CaptureFailed && final(self).artifacts() == old(
                    self,
                ).artifacts(),
            },
    {
        self.counter.record();
        match outcome {
            Ok(png) => match self.store.put(png) {
                Some(image_id) => Reply::Captured { image_id },
                None => Reply::CaptureFailed,
            },
            Err(_) => Reply::CaptureFailed,
        }
    }

    /// Fetches a stored image. An identifier that names no image is answered
    /// with not-found; the store is left as it is either way.
    pub fn get_image(&mut self, image_id: &str) -> (reply: Reply)
        ensures
            final(self).counted(*old(self)),
            match lookup(old(self).artifacts(), image_id@) {
                Some(bytes) => reply matches Reply::Image(body) && body@ == bytes,
                None => reply == Reply::ImageNotFound,
            },
            !old(self).artifacts().contains_key(image_id@) ==> reply.status_code() == 404,
    {
        self.counter.record();
        match self.store.get(image_id) {
            Some(body) => Reply::Image(body),
            None => Reply::ImageNotFound,
        }
    }

    /// Passes on the listing of audio devices, or the failure to list them.
    pub fn list_audio_devices(&mut self, listing: Result<AudioDevices, AudioError>) -> (reply:
        Reply)
        ensures
            final(self).counted(*old(self)),
            match listing {
                Ok(devices) => reply == Reply::Devices(devices),
                Err(_) => reply == Reply::DevicesFailed,
            },
    {
        self.counter.record();
        match listing {
            Ok(devices) => Reply::Devices(devices),
            Err(_) => Reply::DevicesFailed,
        }
    }

    /// Serves the embedded page.
    pub fn desktop_interface(&mut self) -> (reply: Reply)
        ensures
            final(self).counted(*old(self)),
            reply == Reply::Page,
    {
        self.counter.record();
        Reply::Page
    }
}

} // verus!
