# audio

System audio control (master volume and mute of the default output, the output-device list,
the default-device control, live change events) through OS-native APIs.

- `src/` is the verified library: the backend-neutral types (`DeviceId`, `AudioDevice`,
  `AudioError` and its messages), the `AudioBackend` contract with its default answers, the
  fallback backend for targets without native audio control, the decisions the Windows Core
  Audio backend takes on the outcomes of its COM calls, and the `Audio` facade.
- `app/` is the async surface around it: the `f32` master-volume types and calls, the
  `Display` adapters, and the Windows COM calls themselves (built on Windows only).
- `tests/` exercises the library on concrete values.
