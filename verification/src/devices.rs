use vstd::prelude::*;
use vstd::string::StringExecFns;

use crate::errors::RecorderError;
use crate::strutil::{contains_seq, contains_str};

verus! {

/// One capture endpoint as the host reports it.
#[derive(Clone, Debug)]
pub struct AudioDevice {
    pub name: String,
    pub is_default: bool,
}

/// The catalog of capture endpoints: input (microphone) and output
/// (speaker / loopback) devices.
#[derive(Clone, Debug)]
pub struct AvailableDevices {
    pub input_devices: Vec<AudioDevice>,
    pub output_devices: Vec<AudioDevice>,
}

/// The names of the devices a session actually bound.
#[derive(Clone, Debug)]
pub struct RecordingDevices {
    pub input_device_name: String,
    pub output_device_name: String,
}

/// The label shown for a device: its reported name, or a fixed fallback
/// when the host cannot name it.
pub open spec fn device_label(name: Option<Seq<char>>) -> Seq<char> {
    match name {
        Some(s) => s,
        None => "Unknown Device"@,
    }
}

pub open spec fn opt_name_view(o: Option<String>) -> Option<Seq<char>> {
    match o {
        Some(s) => Some(s@),
        None => None,
    }
}

pub open spec fn result_name_view(r: Result<String, RecorderError>) -> Result<
    Seq<char>,
    RecorderError,
> {
    match r {
        Ok(s) => Ok(s@),
        Err(e) => Err(e),
    }
}

/// Whether a device of this name stands in the list.
pub open spec fn has_device(devs: Seq<AudioDevice>, name: Seq<char>) -> bool {
    exists|i: int| 0 <= i < devs.len() && devs[i].name@ == name
}

/// The name of the first entry marked as the host default, scanning from
/// position `i`.
pub open spec fn first_default_from(devs: Seq<AudioDevice>, i: int) -> Option<Seq<char>>
    decreases devs.len() - i,
{
    if i < 0 || i >= devs.len() {
        None
    } else if devs[i].is_default {
        Some(devs[i].name@)
    } else {
        first_default_from(devs, i + 1)
    }
}

/// The name of the host's default device in the list, if any is marked.
pub open spec fn spec_default_name(devs: Seq<AudioDevice>) -> Option<Seq<char>> {
    first_default_from(devs, 0)
}

/// How a binding request is resolved against the current enumeration: a
/// requested name must be present exactly (no fallback); with no request,
/// the host default is used.
pub open spec fn spec_resolve(requested: Option<Seq<char>>, devs: Seq<AudioDevice>) -> Result<
    Seq<char>,
    RecorderError,
> {
    match requested {
        Some(name) => if has_device(devs, name) {
            Ok(name)
        } else {
            Err(RecorderError::DeviceNotFound)
        },
        None => match spec_default_name(devs) {
            Some(n) => Ok(n),
            None => Err(RecorderError::NoDefaultDevice),
        },
    }
}

/// Round-trip device binding: a device that the enumeration reports is
/// bound exactly under its requested name — resolution never substitutes
/// another device.
pub proof fn lemma_requested_device_is_bound(requested: Seq<char>, devs: Seq<AudioDevice>)
    requires
        has_device(devs, requested),
    ensures
        spec_resolve(Some(requested), devs) == Ok::<Seq<char>, RecorderError>(requested),
{
}

/// Scanning from any position at or before a marked default finds one.
proof fn lemma_default_found_from(devs: Seq<AudioDevice>, j: int, i: int)
    requires
        0 <= j <= i < devs.len(),
        devs[i].is_default,
    ensures
        first_default_from(devs, j) is Some,
    decreases i - j,
{
    if !devs[j].is_default {
        lemma_default_found_from(devs, j + 1, i);
    }
}

/// A catalog that marks a default never leaves an unnamed binding
/// request empty-handed: resolution with no requested name succeeds.
pub proof fn lemma_default_resolves(devs: Seq<AudioDevice>)
    requires
        exists|i: int| 0 <= i < devs.len() && devs[i].is_default,
    ensures
        spec_resolve(None, devs) is Ok,
{
    let i = choose|i: int| 0 <= i < devs.len() && devs[i].is_default;
    lemma_default_found_from(devs, 0, i);
}

/// Resolves a binding request against the device list, per `spec_resolve`.
#[verifier::loop_isolation(false)]
pub fn resolve_device(requested: &Option<String>, devices: &Vec<AudioDevice>) -> (r: Result<
    String,
    RecorderError,
>)
    ensures
        result_name_view(r) == spec_resolve(opt_name_view(*requested), devices@),
{
    match requested {
        Some(name) => {
            let n = devices.len();
            let mut i: usize = 0;
            while i < n
                invariant
                    n == devices@.len(),
                    0 <= i <= n,
                    forall|j: int| 0 <= j < i ==> devices@[j].name@ != name@,
                decreases n - i,
            {
                if devices[i].name.eq(name) {
                    proof {
                        assert(devices@[i as int].name@ == name@);
                        assert(has_device(devices@, name@));
                    }
                    return Ok(name.clone());
                }
                i = i + 1;
            }
            assert(!has_device(devices@, name@));
            Err(RecorderError::DeviceNotFound)
        },
        None => {
            let n = devices.len();
            let mut i: usize = 0;
            while i < n
                invariant
                    n == devices@.len(),
                    0 <= i <= n,
                    spec_default_name(devices@) == first_default_from(devices@, i as int),
                decreases n - i,
            {
                if devices[i].is_default {
                    proof {
                        assert(first_default_from(devices@, i as int) == Some(
                            devices@[i as int].name@,
                        ));
                    }
                    return Ok(devices[i].name.clone());
                }
                i = i + 1;
            }
            Err(RecorderError::NoDefaultDevice)
        },
    }
}

/// Builds the catalog entries for one direction: every reported device
/// keeps its name (or the fallback label), and an entry is marked default
/// exactly when its label equals the host default's label.
pub fn build_device_list(names: &Vec<Option<String>>, default_name: &Option<String>) -> (r: Vec<
    AudioDevice,
>)
    ensures
        r@.len() == names@.len(),
        forall|i: int|
            0 <= i < r@.len() ==> (#[trigger] r@[i]).name@ == device_label(
                opt_name_view(names@[i]),
            ),
        forall|i: int|
            0 <= i < r@.len() ==> (#[trigger] r@[i]).is_default == (match opt_name_view(
                *default_name,
            ) {
                Some(d) => device_label(opt_name_view(names@[i])) == d,
                None => false,
            }),
{
    let n = names.len();
    let mut r: Vec<AudioDevice> = Vec::new();
    let mut i: usize = 0;
    while i < n
        invariant
            n == names@.len(),
            0 <= i <= n,
            r@.len() == i,
            forall|j: int|
                0 <= j < i ==> (#[trigger] r@[j]).name@ == device_label(opt_name_view(names@[j])),
            forall|j: int|
                0 <= j < i ==> (#[trigger] r@[j]).is_default == (match opt_name_view(
                    *default_name,
                ) {
                    Some(d) => device_label(opt_name_view(names@[j])) == d,
                    None => false,
                }),
        decreases n - i,
    {
        let label: String = match &names[i] {
            Some(s) => s.clone(),
            None => String::from_str("Unknown Device"),
        };
        let is_default: bool = match default_name {
            Some(d) => label.eq(d),
            None => false,
        };
        r.push(AudioDevice { name: label, is_default });
        i = i + 1;
    }
    r
}

/// Builds the full catalog from one enumeration of each direction.
pub fn build_available_devices(
    input_names: &Vec<Option<String>>,
    default_input: &Option<String>,
    output_names: &Vec<Option<String>>,
    default_output: &Option<String>,
) -> (r: AvailableDevices)
    ensures
        r.input_devices@.len() == input_names@.len(),
        r.output_devices@.len() == output_names@.len(),
        forall|i: int|
            0 <= i < r.input_devices@.len() ==> (#[trigger] r.input_devices@[i]).name@
                == device_label(opt_name_view(input_names@[i])),
        forall|i: int|
            0 <= i < r.output_devices@.len() ==> (#[trigger] r.output_devices@[i]).name@
                == device_label(opt_name_view(output_names@[i])),
        forall|i: int|
            0 <= i < r.input_devices@.len() ==> (#[trigger] r.input_devices@[i]).is_default == (
            match opt_name_view(*default_input) {
                Some(d) => device_label(opt_name_view(input_names@[i])) == d,
                None => false,
            }),
        forall|i: int|
            0 <= i < r.output_devices@.len() ==> (#[trigger] r.output_devices@[i]).is_default == (
            match opt_name_view(*default_output) {
                Some(d) => device_label(opt_name_view(output_names@[i])) == d,
                None => false,
            }),
{
    AvailableDevices {
        input_devices: build_device_list(input_names, default_input),
        output_devices: build_device_list(output_names, default_output),
    }
}

/// The start-time configuration check of the loopback strategy: when the
/// host's current default output is not the expected virtual-loopback
/// device, a non-fatal warning tells the user to select it; recording
/// still proceeds.
pub fn loopback_config_warning(default_output_name: &String) -> (r: Option<String>)
    ensures
        r is None <==> contains_seq(default_output_name@, "Watson"@),
        r matches Some(w) ==> w@
            == "MacOS - Recording with BlackHole multi-output failed. Ensure that the BlackHole audio device is selected and this one is renamed `Watson`"@,
{
    if contains_str(default_output_name, "Watson") {
        None
    } else {
        Some(
            String::from_str(
                "MacOS - Recording with BlackHole multi-output failed. Ensure that the BlackHole audio device is selected and this one is renamed `Watson`",
            ),
        )
    }
}

/// The synthetic single output entry used where the platform records
/// system audio through a native capture API instead of a loopback device.
pub fn system_audio_output_device() -> (r: AudioDevice)
    ensures
        r.name@ == "System Audio"@,
        r.is_default,
{
    AudioDevice { name: String::from_str("System Audio"), is_default: true }
}

} // verus!
