//! The decisions of the Windows Core Audio backend (MMDevice enumeration and WASAPI endpoint
//! volume). The COM calls themselves are made by the caller, which hands their outcomes here
//! as plain values.

use vstd::prelude::*;
use vstd::string::StringExecFns;

use crate::types::{AudioDevice, AudioError, DeviceId, Result};

verus! {

/// The error of a failed OS call: `OsApi`, tagged with the call that produced it, then `": "`
/// and the OS's own description of the failure.
pub fn os(label: &str, detail: &str) -> (r: AudioError)
    ensures
        r matches AudioError::OsApi(m) && m@ == label@ + ": "@ + detail@,
{
    let mut m = String::from_str(label);
    m.append(": ");
    m.append(detail);
    AudioError::OsApi(m)
}

/// The default output as the Windows backend reports it, from the outcome of looking it up:
/// `None` when the lookup of the default render endpoint failed (the backend takes every such
/// failure to mean that there is no active default endpoint, which is no error), otherwise the
/// outcome of reading that endpoint's id string.
pub fn default_output_from(lookup: Option<Result<String>>) -> (r: Result<Option<DeviceId>>)
    ensures
        match lookup {
            None => r matches Ok(None),
            Some(Err(e)) => r == Err::<Option<DeviceId>, AudioError>(e),
            Some(Ok(s)) => r matches Ok(Some(id)) && id@ == s@,
        },
{
    match lookup {
        None => Ok(None),
        Some(Err(e)) => Err(e),
        Some(Ok(s)) => Ok(Some(DeviceId::from_string(s))),
    }
}

/// `device` is the picker entry of the endpoint `(id, name)` when the system default output is
/// `default_id`: it carries that id and name, and is marked default exactly when its id is the
/// default's id.
pub open spec fn is_entry_for(
    device: AudioDevice,
    endpoint: (String, String),
    default_id: Option<DeviceId>,
) -> bool {
    &&& device.id@ == endpoint.0@
    &&& device.name@ == endpoint.1@
    &&& device.is_default == (default_id matches Some(d) && d@ == endpoint.0@)
}

/// The output-device list as the Windows backend reports it, from the active render endpoints
/// the OS enumerates (each as its id string and friendly name, in enumeration order) and the
/// current default output: one entry per endpoint, in the same order, marked default exactly
/// when its id is the default's id.
pub fn output_devices_from(endpoints: &Vec<(String, String)>, default_id: &Option<DeviceId>) -> (r:
    Vec<AudioDevice>)
    ensures
        r.len() == endpoints.len(),
        forall|i: int| 0 <= i < r.len() ==> (#[trigger] r[i]).id@ == endpoints[i].0@,
        forall|i: int| 0 <= i < r.len() ==> (#[trigger] r[i]).name@ == endpoints[i].1@,
        forall|i: int|
            0 <= i < r.len() ==> ((#[trigger] r[i]).is_default <==> (*default_id matches Some(d)
                && d@ == endpoints[i].0@)),
        forall|i: int|
            0 <= i < r.len() ==> is_entry_for(#[trigger] r[i], endpoints[i], *default_id),
{
    let default_text: Option<String> = match default_id {
        Some(d) => Some(String::from_str(d.as_str())),
        None => None,
    };
    let mut devices: Vec<AudioDevice> = Vec::new();
    let n = endpoints.len();
    for i in 0..n
        invariant
            n == endpoints.len(),
            devices.len() == i,
            default_id is Some <==> default_text is Some,
            default_id matches Some(d) ==> default_text->0@ == d@,
            forall|j: int|
                0 <= j < i ==> is_entry_for(#[trigger] devices[j], endpoints[j], *default_id),
    {
        let endpoint = &endpoints[i];
        let is_default = match &default_text {
            Some(t) => endpoint.0 == *t,
            None => false,
        };
        devices.push(
            AudioDevice {
                id: DeviceId::from_string(endpoint.0.clone()),
                name: endpoint.1.clone(),
                is_default,
            },
        );
    }
    devices
}

/// Entries tell their endpoints apart: in a list where each entry is the picker entry of its
/// endpoint, two endpoints with different ids give entries with different ids, and two
/// endpoints with different names give entries with different names. No id or name is
/// shortened or merged on the way.
pub proof fn lemma_entries_tell_endpoints_apart(
    devices: Seq<AudioDevice>,
    endpoints: Seq<(String, String)>,
    default_id: Option<DeviceId>,
    i: int,
    j: int,
)
    requires
        devices.len() == endpoints.len(),
        forall|k: int|
            0 <= k < devices.len() ==> is_entry_for(#[trigger] devices[k], endpoints[k], default_id),
        0 <= i < devices.len(),
        0 <= j < devices.len(),
    ensures
        endpoints[i].0@ != endpoints[j].0@ ==> devices[i].id@ != devices[j].id@,
        endpoints[i].1@ != endpoints[j].1@ ==> devices[i].name@ != devices[j].name@,
{
    assert(is_entry_for(devices[i], endpoints[i], default_id));
    assert(is_entry_for(devices[j], endpoints[j], default_id));
}

/// The default mark follows the whole default id: with no default output no entry is marked
/// default; an entry marked default carries exactly the default's id; the entry of an endpoint
/// whose id is the default's id is marked default; and when the endpoint ids are pairwise
/// distinct, at most one entry is marked default.
pub proof fn lemma_default_mark(
    devices: Seq<AudioDevice>,
    endpoints: Seq<(String, String)>,
    default_id: Option<DeviceId>,
)
    requires
        devices.len() == endpoints.len(),
        forall|k: int|
            0 <= k < devices.len() ==> is_entry_for(#[trigger] devices[k], endpoints[k], default_id),
    ensures
        default_id is None ==> forall|k: int| 0 <= k < devices.len() ==> !(#[trigger] devices[k]).is_default,
        forall|k: int|
            0 <= k < devices.len() && (#[trigger] devices[k]).is_default ==> (default_id matches Some(d)
                && devices[k].id@ == d@),
        forall|k: int|
            0 <= k < devices.len() && (default_id matches Some(d) && endpoints[k].0@ == d@)
                ==> (#[trigger] devices[k]).is_default,
        (forall|a: int, b: int|
            0 <= a < b < endpoints.len() ==> (#[trigger] endpoints[a]).0@ != (#[trigger] endpoints[b]).0@)
            ==> forall|a: int, b: int|
            0 <= a < devices.len() && 0 <= b < devices.len() && a != b && (#[trigger] devices[a]).is_default
                ==> !(#[trigger] devices[b]).is_default,
{
    if forall|a: int, b: int|
        0 <= a < b < endpoints.len() ==> (#[trigger] endpoints[a]).0@ != (#[trigger] endpoints[b]).0@ {
        assert forall|a: int, b: int|
            0 <= a < devices.len() && 0 <= b < devices.len() && a != b && (#[trigger] devices[a]).is_default
                implies !(#[trigger] devices[b]).is_default by {
            assert(is_entry_for(devices[a], endpoints[a], default_id));
            assert(is_entry_for(devices[b], endpoints[b], default_id));
            if a < b {
                assert(endpoints[a].0@ != endpoints[b].0@);
            } else {
                assert(endpoints[b].0@ != endpoints[a].0@);
            }
        }
    }
}

} // verus!
