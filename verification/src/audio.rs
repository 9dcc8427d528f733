//! The device enumerator: from what the host's audio subsystem answered to
//! the listing of input and output devices.
//!
//! The host is asked by the caller, once per direction for the devices and
//! once per direction for the default device. The listing is assembled here.
//! A direction whose query failed is listed as empty; it never fails the
//! listing of the other direction.

use vstd::prelude::*;
use vstd::string::StringExecFns;
use crate::model::text_of;

verus! {

/// Failures of capture-stream operations. Enumeration never reports them.
#[derive(Debug, Clone, PartialEq, Eq)]
pub enum AudioError {
    DeviceNotFound,
    StreamBuild(String),
}

impl AudioError {
    /// The text of the message for this error.
    pub open spec fn message_text(self) -> Seq<char> {
        match self {
            AudioError::DeviceNotFound => "Device not found"@,
            AudioError::StreamBuild(detail) => "Stream build failed: "@ + detail@,
        }
    }

    /// A human-readable message for this error.
    pub fn message(&self) -> (s: String)
        ensures
            s@ == self.message_text(),
    {
        match self {
            AudioError::DeviceNotFound => String::from_str("Device not found"),
            AudioError::StreamBuild(detail) => String::from_str("Stream build failed: ").concat(
                detail.as_str(),
            ),
        }
    }
}

/// Parameters of a capture stream.
#[derive(Clone, Copy, Debug)]
pub struct AudioConfig {
    pub sample_rate_hz: u32,
    pub channels: u16,
    pub frame_duration_ms: u16,
}

/// One audio device as listed.
#[derive(Debug, Clone)]
pub struct AudioDeviceInfo {
    pub id: String,
    pub name: String,
    pub is_default: bool,
}

/// The devices of both directions, each in the order the host gave them.
#[derive(Debug, Clone)]
pub struct AudioDevices {
    pub inputs: Vec<AudioDeviceInfo>,
    pub outputs: Vec<AudioDeviceInfo>,
}

/// What the host answered for one direction.
#[derive(Debug, Clone)]
pub struct DirectionQuery {
    /// The name of the host's default device, where it has one whose name
    /// can be read.
    pub default_name: Option<String>,
    /// The devices in host order, each by its name or `None` where the name
    /// cannot be read; `None` for the whole where the query failed.
    pub device_names: Option<Vec<Option<String>>>,
}

/// The mathematical content of a listed device.
pub struct DeviceModel {
    pub id: Seq<char>,
    pub name: Seq<char>,
    pub is_default: bool,
}

impl View for AudioDeviceInfo {
    type V = DeviceModel;

    open spec fn view(&self) -> DeviceModel {
        DeviceModel { id: self.id@, name: self.name@, is_default: self.is_default }
    }
}

/// The contents of a list of devices.
pub open spec fn models(devices: Seq<AudioDeviceInfo>) -> Seq<DeviceModel> {
    devices.map_values(|d: AudioDeviceInfo| d@)
}

/// The view of an optional list of optional names.
pub open spec fn names_of(names: Option<Vec<Option<String>>>) -> Option<Seq<Option<Seq<char>>>> {
    match names {
        Some(list) => Some(list@.map_values(|n: Option<String>| text_of(n))),
        None => None,
    }
}

/// The name shown for a device whose name cannot be read.
pub open spec fn unknown_name() -> Seq<char> {
    "Unknown"@
}

/// The text that formatting a string with `{:?}` gives: the string in double
/// quotes, with the escapes of `str`'s `Debug` impl.
pub uninterp spec fn debug_text(s: Seq<char>) -> Seq<char>;

/// How a device is listed, given the default device's name and its own.
///
/// The default is told by equality of names. Two devices of one name are
/// both listed as default, and a device without a readable name is listed
/// as default exactly when the default device is named like the stand-in.
pub open spec fn described(default_name: Option<Seq<char>>, name: Option<Seq<char>>) -> DeviceModel {
    let shown = match name {
        Some(n) => n,
        None => unknown_name(),
    };
    DeviceModel { id: debug_text(shown), name: shown, is_default: default_name == Some(shown) }
}

/// The listing of one direction: empty where the query failed, else one
/// entry per device, in the host's order.
pub open spec fn listing(
    default_name: Option<Seq<char>>,
    names: Option<Seq<Option<Seq<char>>>>,
) -> Seq<DeviceModel> {
    match names {
        Some(list) => list.map_values(|n: Option<Seq<char>>| described(default_name, n)),
        None => Seq::empty(),
    }
}

/// Whether `devices` is the listing that the answers in `query` call for.
pub open spec fn is_listing_of(devices: Seq<AudioDeviceInfo>, query: DirectionQuery) -> bool {
    models(devices) == listing(text_of(query.default_name), names_of(query.device_names))
}

/// Formats `s` with `format!("{:?}", ..)`, that is with `str`'s `Debug`
/// impl. Trusted: the result is a function of the string alone, named
/// `debug_text`.
#[verifier::external_body]
fn debug_quoted(s: &str) -> (r: String)
    ensures
        r@ == debug_text(s@),
{
    format!("{:?}", s)
}

/// Lists one device.
pub fn describe_device(default_name: &Option<String>, name: &Option<String>) -> (d:
    AudioDeviceInfo)
    ensures
        d@ == described(text_of(*default_name), text_of(*name)),
{
    let shown = match name {
        Some(n) => n.clone(),
        None => String::from_str("Unknown"),
    };
    let is_default = match default_name {
        Some(d) => *d == shown,
        None => false,
    };
    let id = debug_quoted(shown.as_str());
    AudioDeviceInfo { id, name: shown, is_default }
}

/// Lists the devices of one direction.
pub fn list_direction(query: &DirectionQuery) -> (devices: Vec<AudioDeviceInfo>)
    ensures
        is_listing_of(devices@, *query),
{
    let mut devices: Vec<AudioDeviceInfo> = Vec::new();
    match &query.device_names {
        None => {},
        Some(names) => {
            let mut i: usize = 0;
            while i < names.len()
                invariant
                    i <= names.len(),
                    devices@.len() == i,
                    forall|k: int|
                        0 <= k < i ==> (#[trigger] devices@[k])@ == described(
                            text_of(query.default_name),
                            text_of(names@[k]),
                        ),
                decreases names.len() - i,
            {
                devices.push(describe_device(&query.default_name, &names[i]));
                i += 1;
            }
        },
    }
    assert(models(devices@) =~= listing(
        text_of(query.default_name),
        names_of(query.device_names),
    ));
    devices
}

/// Lists the audio devices of both directions.
///
/// Always succeeds. Each direction's listing is determined by that
/// direction's answers alone, so a failed query of one direction leaves the
/// other direction's devices in place.
pub fn list_devices(inputs: &DirectionQuery, outputs: &DirectionQuery) -> (r: Result<
    AudioDevices,
    AudioError,
>)
    ensures
        r matches Ok(devices) && is_listing_of(devices.inputs@, *inputs) && is_listing_of(
            devices.outputs@,
            *outputs,
        ),
{
    Ok(AudioDevices { inputs: list_direction(inputs), outputs: list_direction(outputs) })
}

/// A direction whose query failed is listed as empty, whatever the default
/// device is; a direction whose query succeeded lists as many devices as the
/// host gave, in the host's order, whatever happened to the other direction.
pub proof fn lemma_listing_degrades(
    default_name: Option<Seq<char>>,
    names: Seq<Option<Seq<char>>>,
)
    ensures
        listing(default_name, None) == Seq::<DeviceModel>::empty(),
        listing(default_name, Some(names)).len() == names.len(),
        forall|k: int|
            0 <= k < names.len() ==> #[trigger] listing(default_name, Some(names))[k] == described(
                default_name,
                names[k],
            ),
{
}

} // verus!
