use audio::interface::AudioBackend;
use audio::{
    default_output_from, os, output_devices_from, Audio, AudioDevice, AudioError, DeviceId,
    DummyAudio, Result,
};

fn is_platform_not_supported<T>(r: &Result<T>) -> bool {
    matches!(r, Err(AudioError::PlatformNotSupported("audio")))
}

#[test]
fn device_id_keeps_its_string() {
    let text = "{0.0.0.00000000}.{5f1d0a2e-94c3-4b0e-8d1e-1c2b3a4d5e6f}";
    let id = DeviceId::from_string(String::from(text));
    assert_eq!(id.as_str(), text);
    assert_eq!(id.to_string(), text);
}

#[test]
fn device_id_round_trips_through_its_string() {
    let id = DeviceId::from_string(String::from("speakers-1"));
    let saved = id.to_string();
    let restored = DeviceId::from_string(saved);
    assert_eq!(restored, id);
    assert_eq!(restored.as_str(), "speakers-1");
}

#[test]
fn device_id_empty_string() {
    let id = DeviceId::from_string(String::new());
    assert_eq!(id.as_str(), "");
    assert_eq!(id.to_string(), "");
}

#[test]
fn device_ids_compare_by_string() {
    let a = DeviceId::from_string(String::from("a"));
    let b = DeviceId::from_string(String::from("b"));
    assert_ne!(a, b);
    assert_eq!(a, DeviceId::from_string(String::from("a")));
}

#[test]
fn audio_device_holds_its_fields() {
    let d = AudioDevice {
        id: DeviceId::from_string(String::from("dev")),
        name: String::from("Speakers"),
        is_default: true,
    };
    assert_eq!(d.id.as_str(), "dev");
    assert_eq!(d.name, "Speakers");
    assert!(d.is_default);
    assert_eq!(d.clone(), d);
}

#[test]
fn error_messages() {
    assert_eq!(
        AudioError::PlatformNotSupported("audio").to_string(),
        "Platform not supported: audio"
    );
    assert_eq!(AudioError::Unimplemented("subscribe").to_string(), "Not implemented: subscribe");
    assert_eq!(AudioError::NotFound.to_string(), "Not found");
    assert_eq!(AudioError::InvalidArgument("level").to_string(), "Invalid argument: level");
    assert_eq!(
        AudioError::OsApi(String::from("GetMute: 0x80070005")).to_string(),
        "OS API error: GetMute: 0x80070005"
    );
    assert_eq!(AudioError::Other(String::from("something else")).to_string(), "something else");
}

#[test]
fn error_messages_with_empty_detail() {
    assert_eq!(AudioError::Unimplemented("").to_string(), "Not implemented: ");
    assert_eq!(AudioError::Other(String::new()).to_string(), "");
}

#[test]
fn audio_new_succeeds() {
    assert!(Audio::new().is_ok());
}

#[test]
fn audio_reports_platform_not_supported_everywhere() {
    let audio = Audio::new().unwrap();
    assert!(is_platform_not_supported(&audio.set_muted(true)));
    assert!(is_platform_not_supported(&audio.set_muted(false)));
    assert!(is_platform_not_supported(&audio.default_output()));
    assert!(is_platform_not_supported(&audio.output_devices()));
    let id = DeviceId::from_string(String::from("laptop"));
    assert!(is_platform_not_supported(&audio.set_default_output(&id)));
    assert!(is_platform_not_supported(&audio.subscribe::<u32>()));
}

#[test]
fn dummy_backend_reports_platform_not_supported() {
    let backend = DummyAudio::new().unwrap();
    assert!(is_platform_not_supported(&backend.set_muted(true)));
    assert!(is_platform_not_supported(&backend.default_output()));
    assert!(is_platform_not_supported(&backend.output_devices()));
    let id = DeviceId::from_string(String::from("x"));
    assert!(is_platform_not_supported(&backend.set_default_output(&id)));
    assert!(is_platform_not_supported(&backend.subscribe::<String>()));
}

struct MuteOnly;

impl AudioBackend for MuteOnly {
    fn set_muted(&self, _muted: bool) -> Result<()> {
        Ok(())
    }

    fn default_output(&self) -> Result<Option<DeviceId>> {
        Ok(None)
    }
}

#[test]
fn backend_defaults_report_unimplemented() {
    let b = MuteOnly;
    assert!(b.set_muted(true).is_ok());
    assert!(matches!(b.output_devices(), Err(AudioError::Unimplemented("output_devices"))));
    let id = DeviceId::from_string(String::from("x"));
    assert!(matches!(
        b.set_default_output(&id),
        Err(AudioError::Unimplemented("set_default_output"))
    ));
    assert!(matches!(b.subscribe::<u8>(), Err(AudioError::Unimplemented("subscribe"))));
}

#[test]
fn os_tags_the_failing_call() {
    match os("GetDefaultAudioEndpoint", "Element not found. (0x80070490)") {
        AudioError::OsApi(m) => {
            assert_eq!(m, "GetDefaultAudioEndpoint: Element not found. (0x80070490)")
        }
        other => panic!("unexpected {:?}", other),
    }
    assert_eq!(os("GetId", "boom").to_string(), "OS API error: GetId: boom");
}

#[test]
fn default_output_without_endpoint_is_none() {
    assert!(matches!(default_output_from(None), Ok(None)));
}

#[test]
fn default_output_with_endpoint_is_its_id() {
    let r = default_output_from(Some(Ok(String::from("{endpoint-id}"))));
    match r {
        Ok(Some(id)) => assert_eq!(id.as_str(), "{endpoint-id}"),
        other => panic!("unexpected {:?}", other),
    }
}

#[test]
fn default_output_id_failure_is_passed_on() {
    let r = default_output_from(Some(Err(os("GetId", "access denied"))));
    match r {
        Err(AudioError::OsApi(m)) => assert_eq!(m, "GetId: access denied"),
        other => panic!("unexpected {:?}", other),
    }
}

#[test]
fn output_devices_mark_the_default() {
    let endpoints = vec![
        (String::from("{a}"), String::from("Speakers")),
        (String::from("{b}"), String::from("DJ Controller")),
        (String::from("{c}"), String::from("Headphones")),
    ];
    let default_id = Some(DeviceId::from_string(String::from("{b}")));
    let devices = output_devices_from(&endpoints, &default_id);
    assert_eq!(devices.len(), 3);
    assert_eq!(devices[0].id.as_str(), "{a}");
    assert_eq!(devices[0].name, "Speakers");
    assert!(!devices[0].is_default);
    assert_eq!(devices[1].id.as_str(), "{b}");
    assert_eq!(devices[1].name, "DJ Controller");
    assert!(devices[1].is_default);
    assert_eq!(devices[2].id.as_str(), "{c}");
    assert!(!devices[2].is_default);
}

#[test]
fn output_devices_without_default() {
    let endpoints = vec![(String::from("{a}"), String::from("Speakers"))];
    let devices = output_devices_from(&endpoints, &None);
    assert_eq!(devices.len(), 1);
    assert!(!devices[0].is_default);
    assert!(output_devices_from(&Vec::new(), &None).is_empty());
}

#[test]
fn output_devices_default_not_enumerated() {
    let endpoints = vec![(String::from("{a}"), String::from("Speakers"))];
    let default_id = Some(DeviceId::from_string(String::from("{z}")));
    let devices = output_devices_from(&endpoints, &default_id);
    assert!(!devices[0].is_default);
}
