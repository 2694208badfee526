use smallvec::SmallVec;
use vstd::prelude::*;

use super::audio_device::AudioDevice;

verus! {

/// The devices of one enumeration, held in a `smallvec::SmallVec` with room
/// for ten of them before it moves to the heap.
#[verifier::external_body]
pub struct CaptureDevices {
    devices: SmallVec<[AudioDevice; 10]>,
}

/// The devices that a collection holds, first to last.
pub uninterp spec fn capture_devices_items(devices: CaptureDevices) -> Seq<AudioDevice>;

impl CaptureDevices {
    /// Calls `SmallVec::from_vec`, which takes the vector's items over as
    /// they stand, first to last. It allocates nothing and cannot fail.
    #[verifier::external_body]
    pub(crate) fn from_vec(items: Vec<AudioDevice>) -> (devices: Self)
        ensures
            capture_devices_items(devices) == items@,
    {
        CaptureDevices { devices: SmallVec::from_vec(items) }
    }

    /// Calls `SmallVec::as_ref`, which lends the items as one slice, first to
    /// last.
    #[verifier::external_body]
    pub(crate) fn as_slice(&self) -> (items: &[AudioDevice])
        ensures
            items@ == capture_devices_items(*self),
    {
        self.devices.as_ref()
    }

    /// Calls `SmallVec::index_mut`, which lends the item at `index` for
    /// change; the other items stay as they are. It panics past the end,
    /// which `requires` leaves out.
    #[verifier::external_body]
    pub(crate) fn get_mut(&mut self, index: usize) -> (device: &mut AudioDevice)
        requires
            index < capture_devices_items(*old(self)).len(),
        ensures
            *device == capture_devices_items(*old(self))[index as int],
            capture_devices_items(*final(self)) == capture_devices_items(*old(self)).update(
                index as int,
                *final(device),
            ),
    {
        &mut self.devices[index]
    }
}

} // verus!
