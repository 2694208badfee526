use vstd::prelude::*;

verus! {

/// The error of a failed UTF-16 decoding, carried through unread.
#[verifier::external_type_specification]
#[verifier::external_body]
pub struct ExFromUtf16Error(std::string::FromUtf16Error);

/// The native calls that the platform is asked for.
#[derive(Debug, Clone, Copy, PartialEq, Eq, Structural)]
pub enum NativeCall {
    /// Starting the subsystem.
    Startup,
    /// Stopping the subsystem.
    Shutdown,
    /// Enumerating the capture devices.
    Enumeration,
    /// Asking a device for its name.
    NameQuery,
}

/// A failed native call: the call that failed, and the result code that it
/// reported, as it came.
#[derive(Debug, Clone, Copy, PartialEq, Eq, Structural)]
pub struct PlatformError {
    pub call: NativeCall,
    pub code: i32,
}

/// What a request to this crate can fail with.
#[derive(Debug)]
pub enum VoiceLibError {
    /// Represents error caused by platform API.
    PlatformSpecific(PlatformError),
    /// Represents error occurred by string building.
    StringifyError(std::string::FromUtf16Error),
    /// Represents unknown error: here, a request that came without the
    /// outcome of the native call that was due for it.
    Unknown,
}

impl From<PlatformError> for VoiceLibError {
    fn from(error: PlatformError) -> (converted: Self) {
        VoiceLibError::PlatformSpecific(error)
    }
}

impl vstd::std_specs::convert::FromSpecImpl<PlatformError> for VoiceLibError {
    open spec fn obeys_from_spec() -> bool {
        true
    }

    open spec fn from_spec(error: PlatformError) -> Self {
        VoiceLibError::PlatformSpecific(error)
    }
}

impl From<std::string::FromUtf16Error> for VoiceLibError {
    fn from(error: std::string::FromUtf16Error) -> (converted: Self) {
        VoiceLibError::StringifyError(error)
    }
}

impl vstd::std_specs::convert::FromSpecImpl<std::string::FromUtf16Error> for VoiceLibError {
    open spec fn obeys_from_spec() -> bool {
        true
    }

    open spec fn from_spec(error: std::string::FromUtf16Error) -> Self {
        VoiceLibError::StringifyError(error)
    }
}

} // verus!
