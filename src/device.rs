//! Choosing the input device and the stream formats to try on it.

use vstd::prelude::*;

verus! {

/// Why a capture session could not start.
#[derive(Debug, Clone, PartialEq, Eq)]
pub enum CaptureError {
    /// The host audio subsystem could not list its devices.
    EnumerationFailed(String),
    /// No input device carries the requested name.
    DeviceNotFound(String),
    /// No device was named and the host has no default input device.
    NoInputDevice,
    /// No stream format could be negotiated with the device.
    FormatError,
    /// The stream could not be opened or started.
    StreamError(String),
    /// A session is already capturing.
    AlreadyCapturing,
}

/// Native sample formats a capture stream can deliver.
#[derive(Debug, Clone, Copy, PartialEq, Eq, Structural)]
pub enum SampleFormat {
    I16,
    U16,
    F32,
    /// Any other format of the host; no stream is built for it.
    Unsupported,
}

/// A stream layout: channel count, sample rate and native sample format.
#[derive(Debug, Clone, Copy, PartialEq, Eq, Structural)]
pub struct CaptureConfig {
    pub channels: u16,
    pub sample_rate: u32,
    pub format: SampleFormat,
}

/// The device to open.
#[derive(Debug, Clone, Copy, PartialEq, Eq, Structural)]
pub enum DeviceChoice {
    /// The device at this position of the host's list.
    Named(usize),
    /// The host's default input device.
    Default,
}

/// Entry `i` of the host's device list is readable and carries `name`.
pub open spec fn device_named(names: Seq<Option<String>>, i: int, name: Seq<char>) -> bool {
    names[i] matches Some(n) && n@ == name
}

/// Some entry of the list carries `name`.
pub open spec fn has_device_named(names: Seq<Option<String>>, name: Seq<char>) -> bool {
    exists|i: int| 0 <= i < names.len() && #[trigger] device_named(names, i, name)
}

/// Resolves the device to open: the first device whose name equals the
/// selector, or the host's default when no name is given.
pub fn resolve_device(names: &Vec<Option<String>>, selector: Option<&String>, has_default: bool) -> (r:
    Result<DeviceChoice, CaptureError>)
    ensures
        selector is None ==> r == if has_default {
            Ok::<DeviceChoice, CaptureError>(DeviceChoice::Default)
        } else {
            Err::<DeviceChoice, CaptureError>(CaptureError::NoInputDevice)
        },
        selector matches Some(name) ==> (r is Err <==> !has_device_named(names@, name@)),
        selector matches Some(name) ==> (r matches Err(e) ==> e matches CaptureError::DeviceNotFound(
            m,
        ) && m@ == name@),
        selector matches Some(name) ==> (r matches Ok(c) ==> c matches DeviceChoice::Named(i) && i
            < names@.len() && device_named(names@, i as int, name@) && forall|j: int|
            0 <= j < i ==> !#[trigger] device_named(names@, j, name@)),
{
    match selector {
        None => {
            if has_default {
                Ok(DeviceChoice::Default)
            } else {
                Err(CaptureError::NoInputDevice)
            }
        },
        Some(name) => {
            let mut i: usize = 0;
            while i < names.len()
                invariant
                    selector == Some(name),
                    0 <= i <= names@.len(),
                    forall|j: int| 0 <= j < i ==> !#[trigger] device_named(names@, j, name@),
                decreases names@.len() - i,
            {
                match &names[i] {
                    Some(n) => {
                        if n.eq(name) {
                            assert(device_named(names@, i as int, name@));
                            return Ok(DeviceChoice::Named(i));
                        }
                    },
                    None => {},
                }
                i = i + 1;
            }
            Err(CaptureError::DeviceNotFound(name.clone()))
        },
    }
}

/// The readable names of a device list, in order.
pub open spec fn readable_names(names: Seq<Option<String>>) -> Seq<Seq<char>>
    decreases names.len(),
{
    if names.len() == 0 {
        Seq::empty()
    } else {
        let rest = readable_names(names.drop_last());
        match names.last() {
            Some(n) => rest.push(n@),
            None => rest,
        }
    }
}

/// Lists the names of the input devices, skipping those whose name could not be read.
pub fn input_device_names(names: &Vec<Option<String>>) -> (r: Vec<String>)
    ensures
        r@.map_values(|s: String| s@) == readable_names(names@),
{
    let mut out: Vec<String> = Vec::new();
    let mut i: usize = 0;
    while i < names.len()
        invariant
            0 <= i <= names@.len(),
            out@.map_values(|s: String| s@) == readable_names(names@.subrange(0, i as int)),
        decreases names@.len() - i,
    {
        assert(names@.subrange(0, i + 1).drop_last() =~= names@.subrange(0, i as int));
        let ghost before = out@;
        match &names[i] {
            Some(n) => {
                out.push(n.clone());
                assert(out@.map_values(|s: String| s@) =~= before.map_values(|s: String| s@).push(
                    n@,
                ));
            },
            None => {},
        }
        i = i + 1;
    }
    assert(names@.subrange(0, names@.len() as int) =~= names@);
    out
}

/// The formats to try on a device whose default layout is `native`, in
/// order: first forced mono at the native rate, then the device's own
/// channel layout, which the session downmixes. A format that no stream can
/// be built for gives `FormatError`.
pub open spec fn negotiation_strategies(native: CaptureConfig) -> Seq<CaptureConfig> {
    let mono = CaptureConfig { channels: 1, ..native };
    if native.channels >= 1 {
        seq![mono, native]
    } else {
        seq![mono]
    }
}

pub fn negotiation_plan(native: CaptureConfig) -> (r: Result<Vec<CaptureConfig>, CaptureError>)
    ensures
        native.format == SampleFormat::Unsupported ==> r == Err::<Vec<CaptureConfig>, CaptureError>(
            CaptureError::FormatError,
        ),
        native.format != SampleFormat::Unsupported ==> (r matches Ok(v) && v@
            == negotiation_strategies(native)),
{
    if native.format == SampleFormat::Unsupported {
        return Err(CaptureError::FormatError);
    }
    let mut plans: Vec<CaptureConfig> = Vec::new();
    plans.push(CaptureConfig { channels: 1, sample_rate: native.sample_rate, format: native.format });
    if native.channels >= 1 {
        plans.push(native);
    }
    assert(plans@ =~= negotiation_strategies(native));
    Ok(plans)
}

/// Picks the first strategy whose stream was accepted; `accepted[i]` tells
/// whether a stream could be built for `plans[i]`. When none was, the
/// negotiation is exhausted.
pub fn first_accepted(plans: &Vec<CaptureConfig>, accepted: &Vec<bool>) -> (r: Result<
    CaptureConfig,
    CaptureError,
>)
    ensures
        r is Err <==> forall|i: int| 0 <= i < plans@.len() && i < accepted@.len() ==> !#[trigger] accepted@[i],
        r matches Err(e) ==> e == CaptureError::FormatError,
        r matches Ok(c) ==> exists|i: int|
            0 <= i < plans@.len() && i < accepted@.len() && #[trigger] accepted@[i] && plans@[i] == c
                && forall|j: int| 0 <= j < i ==> !#[trigger] accepted@[j],
{
    let mut i: usize = 0;
    while i < plans.len() && i < accepted.len()
        invariant
            0 <= i <= plans@.len(),
            forall|j: int| 0 <= j < i && j < accepted@.len() ==> !#[trigger] accepted@[j],
        decreases plans@.len() - i,
    {
        if accepted[i] {
            return Ok(plans[i]);
        }
        i = i + 1;
    }
    Err(CaptureError::FormatError)
}

/// Label of the list entry that stands for the host's default input device.
pub open spec fn default_device_label_spec() -> Seq<char> {
    "Windows既定"@
}

pub fn default_device_label() -> (r: String)
    ensures
        r@ == default_device_label_spec(),
{
    String::from_str("Windows既定")
}

/// The entries offered to the user: the default-device entry, then the device names.
pub fn device_options(names: &Vec<String>) -> (r: Vec<String>)
    ensures
        r@.len() == names@.len() + 1,
        r@[0]@ == default_device_label_spec(),
        forall|i: int| 0 <= i < names@.len() ==> #[trigger] r@[i + 1]@ == names@[i]@,
{
    let mut out: Vec<String> = Vec::new();
    out.push(default_device_label());
    let mut i: usize = 0;
    while i < names.len()
        invariant
            0 <= i <= names@.len(),
            out@.len() == i + 1,
            out@[0]@ == default_device_label_spec(),
            forall|j: int| 0 <= j < i ==> #[trigger] out@[j + 1]@ == names@[j]@,
        decreases names@.len() - i,
    {
        out.push(names[i].clone());
        i = i + 1;
    }
    out
}

/// Position of the configured device among the options; the default entry
/// (position 0) when none is configured or it is not offered.
pub fn selected_device_index(options: &Vec<String>, configured: Option<&String>) -> (r: usize)
    ensures
        configured is None ==> r == 0,
        configured matches Some(name) ==> {
            ||| (r < options@.len() && options@[r as int]@ == name@ && forall|j: int|
                0 <= j < r ==> #[trigger] options@[j]@ != name@)
            ||| (r == 0 && forall|j: int| 0 <= j < options@.len() ==> #[trigger] options@[j]@ != name@)
        },
{
    match configured {
        None => 0,
        Some(name) => {
            let mut i: usize = 0;
            while i < options.len()
                invariant
                    configured == Some(name),
                    0 <= i <= options@.len(),
                    forall|j: int| 0 <= j < i ==> #[trigger] options@[j]@ != name@,
                decreases options@.len() - i,
            {
                if options[i].eq(name) {
                    return i;
                }
                i = i + 1;
            }
            0
        },
    }
}

/// The device name to open for a configured choice: none for no choice or
/// for the default-device entry.
pub fn device_selector(configured: Option<&String>) -> (r: Option<String>)
    ensures
        r is None <==> (configured is None || configured.unwrap()@ == default_device_label_spec()),
        r matches Some(n) ==> n@ == configured.unwrap()@,
{
    match configured {
        None => None,
        Some(name) => {
            let label = default_device_label();
            if name.eq(&label) {
                None
            } else {
                Some(name.clone())
            }
        },
    }
}

} // verus!
