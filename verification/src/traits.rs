use vstd::prelude::*;

use crate::error::VoiceLibError;

verus! {

/// The entry point to a platform's audio devices.
pub trait Host {
    type Device: AudioDevice;

    /// The capture devices, in the order in which the platform enumerated
    /// them. `enumerated` is the outcome of the native enumeration, its
    /// handles or its result code, which the caller makes only when the host
    /// has no list yet, and `None` otherwise.
    fn audio_devices(
        &mut self,
        enumerated: Option<Result<Vec<usize>, i32>>,
    ) -> Result<&[Self::Device], VoiceLibError>;
}

/// One audio device.
pub trait AudioDevice {
    /// The device's display name. `queried` is the outcome of the native
    /// name query, the name's UTF-16 code units or the query's result code,
    /// which the caller makes only when the device has no name yet, and
    /// `None` otherwise.
    fn readable_name(
        &mut self,
        queried: Option<Result<Vec<u16>, i32>>,
    ) -> Result<&str, VoiceLibError>;
}

/// A stream of audio between a device and the program.
pub trait Stream {
}

} // verus!
