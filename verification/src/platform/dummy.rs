//! Fallback backend for targets with no native audio control. Construction succeeds, so the
//! facade is usable, but every operation reports `PlatformNotSupported`.

use vstd::prelude::*;

use crate::interface::AudioBackend;
use crate::types::{AudioDevice, AudioError, DeviceId, Result};

verus! {

/// The backend of a target that has no native audio control.
pub struct DummyAudio;

impl DummyAudio {
    /// Construction always succeeds.
    pub fn new() -> (r: Result<DummyAudio>)
        ensures
            r is Ok,
    {
        Ok(DummyAudio)
    }
}

impl AudioBackend for DummyAudio {
    fn set_muted(&self, muted: bool) -> (r: Result<()>)
        ensures
            r matches Err(crate::types::AudioError::PlatformNotSupported(m)) && m@ == "audio"@,
            crate::types::reports_platform_not_supported(r),
    {
        Err(AudioError::PlatformNotSupported("audio"))
    }

    fn default_output(&self) -> (r: Result<Option<DeviceId>>)
        ensures
            r matches Err(crate::types::AudioError::PlatformNotSupported(m)) && m@ == "audio"@,
            crate::types::reports_platform_not_supported(r),
    {
        Err(AudioError::PlatformNotSupported("audio"))
    }

    fn output_devices(&self) -> (r: Result<Vec<AudioDevice>>)
        ensures
            r matches Err(crate::types::AudioError::PlatformNotSupported(m)) && m@ == "audio"@,
            crate::types::reports_platform_not_supported(r),
    {
        Err(AudioError::PlatformNotSupported("audio"))
    }

    fn set_default_output(&self, id: &DeviceId) -> (r: Result<()>)
        ensures
            r matches Err(crate::types::AudioError::PlatformNotSupported(m)) && m@ == "audio"@,
            crate::types::reports_platform_not_supported(r),
    {
        Err(AudioError::PlatformNotSupported("audio"))
    }

    fn subscribe<E>(&self) -> (r: Result<tokio::sync::mpsc::UnboundedReceiver<E>>)
        ensures
            r matches Err(crate::types::AudioError::PlatformNotSupported(m)) && m@ == "audio"@,
            crate::types::reports_platform_not_supported(r),
    {
        Err(AudioError::PlatformNotSupported("audio"))
    }
}

} // verus!
