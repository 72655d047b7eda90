//! `audio`: cross-platform system audio control through OS-native APIs.
//!
//! The library holds the backend-neutral vocabulary ([`DeviceId`], [`AudioDevice`],
//! [`AudioError`]), the [`AudioBackend`] contract that a platform backend fulfils, the
//! fallback backend for targets without native audio control, the decisions of the Windows
//! backend that do not depend on COM itself, and the [`Audio`] facade over the fallback
//! backend.

pub mod audio;
pub mod interface;
pub mod platform;
pub mod types;

pub use audio::Audio;
pub use interface::AudioBackend;
pub use platform::dummy::DummyAudio;
pub use platform::windows::{default_output_from, os, output_devices_from};
pub use types::{AudioDevice, AudioError, DeviceId, Result};
