//! `Audio`: the library's facade. It owns the fallback backend and forwards every call to it;
//! callers never name a platform struct. The library holds no native backend: the Windows one
//! makes Core Audio COM calls, which stand outside the library, and binds its own facade there.

use vstd::prelude::*;

use crate::interface::AudioBackend;
use crate::platform::dummy::DummyAudio;
use crate::types::{AudioDevice, DeviceId, Result};

verus! {

/// A handle to the audio subsystem through the fallback backend, on every target.
pub struct Audio {
    backend: DummyAudio,
}

impl Audio {
    /// Open a handle through the fallback backend. Construction always succeeds; the
    /// operations then report `PlatformNotSupported`.
    pub fn new() -> (r: Result<Audio>)
        ensures
            r is Ok,
    {
        Ok(Audio { backend: DummyAudio::new()? })
    }

    /// Mute or unmute the default endpoint.
    pub fn set_muted(&self, muted: bool) -> (r: Result<()>)
        ensures
            r matches Err(crate::types::AudioError::PlatformNotSupported(m)) && m@ == "audio"@,
            crate::types::reports_platform_not_supported(r),
    {
        self.backend.set_muted(muted)
    }

    /// The id of the current default output endpoint, if any.
    pub fn default_output(&self) -> (r: Result<Option<DeviceId>>)
        ensures
            r matches Err(crate::types::AudioError::PlatformNotSupported(m)) && m@ == "audio"@,
            crate::types::reports_platform_not_supported(r),
    {
        self.backend.default_output()
    }

    /// Enumerate the active output (render) endpoints.
    pub fn output_devices(&self) -> (r: Result<Vec<AudioDevice>>)
        ensures
            r matches Err(crate::types::AudioError::PlatformNotSupported(m)) && m@ == "audio"@,
            crate::types::reports_platform_not_supported(r),
    {
        self.backend.output_devices()
    }

    /// Force the system default output to `id` (see [`AudioBackend::set_default_output`]).
    pub fn set_default_output(&self, id: &DeviceId) -> (r: Result<()>)
        ensures
            r matches Err(crate::types::AudioError::PlatformNotSupported(m)) && m@ == "audio"@,
            crate::types::reports_platform_not_supported(r),
    {
        self.backend.set_default_output(id)
    }

    /// Subscribe to live audio events of type `E` (see [`AudioBackend::subscribe`]).
    pub fn subscribe<E>(&self) -> (r: Result<tokio::sync::mpsc::UnboundedReceiver<E>>)
        ensures
            r matches Err(crate::types::AudioError::PlatformNotSupported(m)) && m@ == "audio"@,
            crate::types::reports_platform_not_supported(r),
    {
        self.backend.subscribe()
    }
}

} // verus!
