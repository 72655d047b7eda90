//! Backend-neutral value types: the public vocabulary of the crate. Every platform backend
//! maps the OS's native structures onto these and never leaks its own.

use vstd::prelude::*;
use vstd::string::StringExecFns;

verus! {

/// A stable, string-serializable audio endpoint identifier. It wraps the OS's endpoint id
/// string, which persists across reboots and reconnects, so a device choice can be saved as a
/// plain string and resolved back later.
#[derive(Debug, Clone, PartialEq, Eq, Hash)]
pub struct DeviceId(String);

impl View for DeviceId {
    type V = Seq<char>;

    /// An identifier is exactly the text it wraps.
    open spec fn view(&self) -> Seq<char> {
        self.text()@
    }
}

impl DeviceId {
    /// The string the identifier wraps.
    pub closed spec fn text(&self) -> String {
        self.0
    }

    /// Wrap an already-serialized id string (for example one previously persisted).
    pub fn from_string(id: String) -> (r: DeviceId)
        ensures
            r@ == id@,
    {
        DeviceId(id)
    }

    /// The serialized form of the identifier.
    pub fn as_str(&self) -> (r: &str)
        ensures
            r@ == self@,
    {
        self.0.as_str()
    }

    /// The text of the identifier, as its display form writes it: the id string itself.
    pub fn to_string(&self) -> (r: String)
        ensures
            r@ == self@,
    {
        String::from_str(self.0.as_str())
    }
}

/// An identifier persists as a plain string and resolves back to itself: when `saved` is the
/// serialized form of `id` (what [`DeviceId::as_str`] or [`DeviceId::to_string`] gives back)
/// and `restored` is what [`DeviceId::from_string`] makes of `saved`, `restored` wraps the same
/// id string as `id`.
pub proof fn lemma_device_id_round_trip(id: DeviceId, saved: String, restored: DeviceId)
    requires
        saved@ == id@,
        restored@ == saved@,
    ensures
        restored@ == id@,
{
}

/// A discoverable audio output (render) endpoint, for populating a picker. `id` is the stable
/// handle to persist and select; `name` is the human label; `is_default` marks the system
/// default at enumeration time.
///
/// There is intentionally no built-in/external classification: it cannot be inferred reliably
/// across DJ and onboard hardware. A consumer keys its "force the default back" rule off a
/// remembered preferred-default [`DeviceId`].
#[derive(Debug, Clone, PartialEq, Eq)]
pub struct AudioDevice {
    pub id: DeviceId,
    pub name: String,
    pub is_default: bool,
}

/// Errors surfaced by the crate. Backend-neutral; platform detail rides in `OsApi`.
#[derive(Debug)]
pub enum AudioError {
    /// This OS has no native backend.
    PlatformNotSupported(&'static str),
    /// A recognized operation the active backend does not yet provide.
    Unimplemented(&'static str),
    /// No matching device / no default endpoint.
    NotFound,
    /// Caller passed something invalid.
    InvalidArgument(&'static str),
    /// An OS API call failed; the string carries the platform-specific detail.
    OsApi(String),
    Other(String),
}

/// The result type of every fallible operation of the crate.
pub type Result<T> = core::result::Result<T, AudioError>;

/// `r` is the answer of a target with no native backend: `PlatformNotSupported("audio")`.
pub open spec fn reports_platform_not_supported<T>(r: Result<T>) -> bool {
    r matches Err(AudioError::PlatformNotSupported(m)) && m@ == "audio"@
}

/// `r` is the answer of a backend that does not provide the operation named `op`:
/// `Unimplemented(op)`.
pub open spec fn reports_unimplemented<T>(r: Result<T>, op: Seq<char>) -> bool {
    r matches Err(AudioError::Unimplemented(m)) && m@ == op
}

/// Reporting `PlatformNotSupported("audio")` is failing: such an answer is an error, never a
/// success, and its message reads "Platform not supported: audio".
pub proof fn lemma_platform_not_supported_fails<T>(r: Result<T>)
    requires
        reports_platform_not_supported(r),
    ensures
        r is Err,
        r matches Err(e) && e.message() == "Platform not supported: audio"@,
{
    reveal_strlit("audio");
    reveal_strlit("Platform not supported: ");
    reveal_strlit("Platform not supported: audio");
    if let Err(e) = r {
        assert(e.message() =~= "Platform not supported: audio"@);
    }
}

/// Reporting an operation `op` as unimplemented is failing: such an answer is an error, never a
/// success, and its message reads "Not implemented: " followed by the operation's name.
pub proof fn lemma_unimplemented_fails<T>(r: Result<T>, op: Seq<char>)
    requires
        reports_unimplemented(r, op),
    ensures
        r is Err,
        r matches Err(e) && e.message() == "Not implemented: "@ + op,
{
}

impl AudioError {
    /// The human-readable message of an error: a fixed prefix naming the kind of failure,
    /// followed by the detail the error carries.
    pub open spec fn message(&self) -> Seq<char> {
        match self {
            AudioError::PlatformNotSupported(m) => "Platform not supported: "@ + m@,
            AudioError::Unimplemented(m) => "Not implemented: "@ + m@,
            AudioError::NotFound => "Not found"@,
            AudioError::InvalidArgument(m) => "Invalid argument: "@ + m@,
            AudioError::OsApi(m) => "OS API error: "@ + m@,
            AudioError::Other(m) => m@,
        }
    }

    /// The error's message, as its display form writes it.
    pub fn to_string(&self) -> (r: String)
        ensures
            r@ == self.message(),
    {
        match self {
            AudioError::PlatformNotSupported(m) => {
                let mut s = String::from_str("Platform not supported: ");
                s.append(m);
                s
            },
            AudioError::Unimplemented(m) => {
                let mut s = String::from_str("Not implemented: ");
                s.append(m);
                s
            },
            AudioError::NotFound => String::from_str("Not found"),
            AudioError::InvalidArgument(m) => {
                let mut s = String::from_str("Invalid argument: ");
                s.append(m);
                s
            },
            AudioError::OsApi(m) => {
                let mut s = String::from_str("OS API error: ");
                s.append(m.as_str());
                s
            },
            AudioError::Other(m) => String::from_str(m.as_str()),
        }
    }
}

} // verus!
