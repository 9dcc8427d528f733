//! Control-plane core of a local desktop capture service.
//!
//! The crate holds the request-scoped logic of the service as plain,
//! verified functions: the artifact store that keeps encoded screenshots
//! under random identifiers, the capture pipeline that turns a grabbed
//! frame into a PNG, the assembly of audio device listings, the session
//! negotiator, and the gateway that maps each request to its reply while
//! counting requests. Sockets, the async runtime and host queries live in
//! the application around it.

pub mod asr;
pub mod audio;
pub mod capture;
pub mod gateway;
pub mod ident;
pub mod metrics;
pub mod model;
pub mod ocr;
pub mod session;
pub mod storage;
pub mod store;

pub use asr::{AsrError, TranscriptDelta};
pub use audio::{
    list_devices, AudioConfig, AudioDeviceInfo, AudioDevices, AudioError, DirectionQuery,
};
pub use capture::{
    complete_capture, encode_frame, CaptureConfig, CaptureError, Grab, RawFrame, ScreenCapture,
};
pub use gateway::{
    choose_static_root, Endpoint, Gateway, Method, RecordingIntent, RecordingPlan, Reply, StaticRoot,
};
pub use ident::{image_id, session_id};
pub use metrics::RequestCounter;
pub use ocr::{OcrBlock, OcrError};
pub use session::{open_session, pair, Session};
pub use storage::StorageError;
pub use store::{Artifact, ArtifactStore};
