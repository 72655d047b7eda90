//! The contract every platform backend implements. The [`crate::Audio`] facade binds exactly
//! one concrete backend and delegates to it; there is no dynamic dispatch.
//!
//! Mute acts on the default output endpoint (the system default the OS slider drives). Device
//! enumeration, force-set-default and the event stream carry default `Unimplemented` bodies,
//! so a backend can land the core controls without blocking on the rest. The master volume
//! level is an `f32` scalar; its getter and setter are not part of this verified contract.

use vstd::prelude::*;

use crate::types::{AudioDevice, AudioError, DeviceId, Result};

verus! {

/// The receiving half of tokio's unbounded channel, on which a backend delivers live events.
#[verifier::external_type_specification]
#[verifier::external_body]
#[verifier::reject_recursive_types(T)]
pub struct ExUnboundedReceiver<T>(tokio::sync::mpsc::UnboundedReceiver<T>);

/// What a platform backend provides.
pub trait AudioBackend {
    /// Mute or unmute the default endpoint.
    fn set_muted(&self, muted: bool) -> (r: Result<()>);

    /// The stable id of the current default output endpoint, or `None` if there is none.
    fn default_output(&self) -> (r: Result<Option<DeviceId>>);

    /// Enumerate the active output (render) endpoints, for a picker.
    fn output_devices(&self) -> (r: Result<Vec<AudioDevice>>)
        default_ensures
            r matches Err(AudioError::Unimplemented(m)) && m@ == "output_devices"@,
            crate::types::reports_unimplemented(r, "output_devices"@),
    {
        Err(AudioError::Unimplemented("output_devices"))
    }

    /// Force the system default output to `id`: the "always make the laptop the default"
    /// policy (reverting the OS auto-promoting a just-installed DJ device).
    fn set_default_output(&self, id: &DeviceId) -> (r: Result<()>)
        default_ensures
            r matches Err(AudioError::Unimplemented(m)) && m@ == "set_default_output"@,
            crate::types::reports_unimplemented(r, "set_default_output"@),
    {
        Err(AudioError::Unimplemented("set_default_output"))
    }

    /// Subscribe to live events (volume/mute, default device, hotplug) of type `E`. The
    /// returned receiver stays open until dropped; the backend owns the OS notification
    /// registration for its lifetime. Unbounded, so the OS callback thread can enqueue without
    /// blocking.
    fn subscribe<E>(&self) -> (r: Result<tokio::sync::mpsc::UnboundedReceiver<E>>)
        default_ensures
            r matches Err(AudioError::Unimplemented(m)) && m@ == "subscribe"@,
            crate::types::reports_unimplemented(r, "subscribe"@),
    {
        Err(AudioError::Unimplemented("subscribe"))
    }
}

} // verus!
