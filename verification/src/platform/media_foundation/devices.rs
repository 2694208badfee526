use vstd::prelude::*;

use super::audio_device::{name_resolution, named, AudioDevice, DeviceView};
use super::capture_devices::{capture_devices_items, CaptureDevices};
use super::context::Context;
use super::once::{answered, kept, lemma_computed_once, outcome_view};
use crate::error::{NativeCall, PlatformError, VoiceLibError};

verus! {

/// The devices of a collection as contracts see them.
spec fn device_views(devices: Seq<AudioDevice>) -> Seq<DeviceView> {
    devices.map_values(|device: AudioDevice| device@)
}

/// The devices that an enumeration yields: one for each handle, in the
/// order of the handles, none of them named yet.
pub open spec fn fresh_devices(sources: Seq<usize>) -> Seq<DeviceView> {
    sources.map_values(|source: usize| DeviceView { source, name: None })
}

/// What a native enumeration comes to: the devices of its handles, the
/// enumeration's failure with its code as it came, or `Unknown` where no
/// enumeration was made.
pub open spec fn enumeration(enumerated: Option<Result<Seq<usize>, i32>>) -> Result<
    Seq<DeviceView>,
    VoiceLibError,
> {
    match enumerated {
        Some(Ok(sources)) => Ok(fresh_devices(sources)),
        Some(Err(code)) => Err(
            VoiceLibError::PlatformSpecific(PlatformError { call: NativeCall::Enumeration, code }),
        ),
        None => Err(VoiceLibError::Unknown),
    }
}

/// Whether `answer` is what a catalog owes: the devices of the list, one
/// for one and in its order, or the very error.
pub open spec fn presents(
    answer: Result<&[AudioDevice], VoiceLibError>,
    owed: Result<Seq<DeviceView>, VoiceLibError>,
) -> bool {
    match owed {
        Ok(list) => {
            &&& answer matches Ok(devices)
            &&& devices@.len() == list.len()
            &&& forall|i: int| 0 <= i < list.len() ==> (#[trigger] devices@[i])@ == list[i]
        },
        Err(error) => answer matches Err(refusal) && refusal == error,
    }
}

/// Whether a catalog has a device at `index`.
pub open spec fn has_device(catalog: Option<Seq<DeviceView>>, index: int) -> bool {
    catalog matches Some(devices) && 0 <= index < devices.len()
}

/// The handle for which the native name query is due before the device at
/// `index` can answer with a name: that device's, while it keeps no name.
/// `None` where the device keeps a name, and where there is no such device.
pub open spec fn query_due(catalog: Option<Seq<DeviceView>>, index: int) -> Option<usize> {
    if has_device(catalog, index) && catalog->0[index].name is None {
        Some(catalog->0[index].source)
    } else {
        None
    }
}

/// The catalog after its device at `index` was asked for its name with
/// `resolved` at hand: that device keeps a name as a compute-once cache
/// does, all else stays. Without such a device nothing changes.
pub open spec fn catalog_after_naming(
    catalog: Option<Seq<DeviceView>>,
    index: int,
    resolved: Result<Seq<char>, VoiceLibError>,
) -> Option<Seq<DeviceView>> {
    if has_device(catalog, index) {
        let devices = catalog->0;
        Some(
            devices.update(
                index,
                DeviceView {
                    source: devices[index].source,
                    name: kept(devices[index].name, resolved),
                },
            ),
        )
    } else {
        catalog
    }
}

/// What the device at `index` answers when asked for its name with
/// `resolved` at hand; `None` without such a device.
pub open spec fn catalog_name(
    catalog: Option<Seq<DeviceView>>,
    index: int,
    resolved: Result<Seq<char>, VoiceLibError>,
) -> Option<Result<Seq<char>, VoiceLibError>> {
    if has_device(catalog, index) {
        Some(answered(catalog->0[index].name, resolved))
    } else {
        None
    }
}

/// A lent name of a listed device as contracts see it.
pub open spec fn named_at(answer: Option<Result<&str, VoiceLibError>>) -> Option<
    Result<Seq<char>, VoiceLibError>,
> {
    match answer {
        Some(name) => Some(named(name)),
        None => None,
    }
}

/// The catalog of capture devices: without a list until the first
/// successful enumeration, fixed in length and order from then on.
pub struct Devices {
    devices: Option<CaptureDevices>,
}

impl View for Devices {
    type V = Option<Seq<DeviceView>>;

    closed spec fn view(&self) -> Option<Seq<DeviceView>> {
        match self.devices {
            Some(devices) => Some(device_views(capture_devices_items(devices))),
            None => None,
        }
    }
}

impl Devices {
    /// A catalog without a list.
    pub fn new() -> (devices: Self)
        ensures
            devices@ is None,
    {
        Devices { devices: None }
    }

    /// Whether the native enumeration is due before [`Self::get`] can
    /// answer with a list: it is, exactly while the catalog has none.
    pub fn needs_enumeration(&self) -> (needed: bool)
        ensures
            needed == (self@ is None),
    {
        self.devices.is_none()
    }

    /// Wraps each handle as a device, in the order of the handles.
    fn collect_devices(sources: &Vec<usize>) -> (devices: CaptureDevices)
        ensures
            device_views(capture_devices_items(devices)) == fresh_devices(sources@),
    {
        let mut items: Vec<AudioDevice> = Vec::new();
        let mut next: usize = 0;
        while next < sources.len()
            invariant
                next <= sources.len(),
                items@.len() == next,
                forall|i: int|
                    0 <= i < next ==> (#[trigger] items@[i])@ == (DeviceView {
                        source: sources@[i],
                        name: None,
                    }),
            decreases sources.len() - next,
        {
            items.push(AudioDevice::from(sources[next]));
            next = next + 1;
        }
        CaptureDevices::from_vec(items)
    }

    /// Answers with the list of devices. With a list kept, that is the
    /// answer and `enumerated` is not looked at. Without one, `enumerated`
    /// decides: its handles become the list, each wrapped as a device, in
    /// their order, be they none at all; a failed enumeration is handed
    /// back with its code as it came, a missing one is `Unknown`, and the
    /// catalog stays without a list.
    ///
    /// `context` stands for the started subsystem, without which nothing
    /// could have been enumerated.
    pub fn get(
        &mut self,
        context: &Context,
        enumerated: Option<Result<Vec<usize>, i32>>,
    ) -> (answer: Result<&[AudioDevice], VoiceLibError>)
        ensures
            final(self)@ == kept(old(self)@, enumeration(outcome_view(enumerated))),
            presents(answer, answered(old(self)@, enumeration(outcome_view(enumerated)))),
    {
        let _ = context;
        if self.devices.is_none() {
            match enumerated {
                Some(Ok(sources)) => {
                    self.devices = Some(Devices::collect_devices(&sources));
                },
                Some(Err(code)) => {
                    return Err(
                        VoiceLibError::PlatformSpecific(
                            PlatformError { call: NativeCall::Enumeration, code },
                        ),
                    );
                },
                None => {
                    return Err(VoiceLibError::Unknown);
                },
            }
        }
        Ok(self.devices.as_ref().unwrap().as_slice())
    }

    /// The handle for which the native name query is due before
    /// [`Self::readable_name`] can answer with the name of the device at
    /// `index`; `None` where none is due.
    pub fn name_query_due(&self, index: usize) -> (due: Option<usize>)
        ensures
            due == query_due(self@, index as int),
    {
        match &self.devices {
            None => None,
            Some(devices) => {
                let items = devices.as_slice();
                if index < items.len() && items[index].cached_name().is_none() {
                    Some(items[index].source())
                } else {
                    None
                }
            },
        }
    }

    /// Answers with the name of the device at `index`, as
    /// [`readable_name`](crate::traits::AudioDevice::readable_name) does for
    /// that device, and keeps a newly resolved name in the list. The other
    /// devices, and the order of all, stay as they are. `None` where the
    /// catalog has no device at `index`.
    pub fn readable_name(
        &mut self,
        index: usize,
        queried: Option<Result<Vec<u16>, i32>>,
    ) -> (answer: Option<Result<&str, VoiceLibError>>)
        ensures
            final(self)@ == catalog_after_naming(
                old(self)@,
                index as int,
                name_resolution(outcome_view(queried)),
            ),
            named_at(answer) == catalog_name(
                old(self)@,
                index as int,
                name_resolution(outcome_view(queried)),
            ),
    {
        match &mut self.devices {
            None => None,
            Some(devices) => {
                if index < devices.as_slice().len() {
                    proof {
                        let items = capture_devices_items(*devices);
                        assert forall|changed: AudioDevice|
                            #[trigger] device_views(items.update(index as int, changed))
                                == device_views(items).update(index as int, changed@) by {
                            assert(device_views(items.update(index as int, changed))
                                =~= device_views(items).update(index as int, changed@));
                        }
                    }
                    let device = devices.get_mut(index);
                    Some(crate::traits::AudioDevice::readable_name(device, queried))
                } else {
                    None
                }
            },
        }
    }
}

/// Enumeration happens once. A catalog that has answered with a list
/// keeps it: the native enumeration is no longer due, and the next request
/// is answered with the same devices in the same order and changes nothing,
/// whatever outcome is handed in with it.
pub proof fn lemma_enumeration_idempotent(
    catalog: Option<Seq<DeviceView>>,
    first: Option<Result<Seq<usize>, i32>>,
    second: Option<Result<Seq<usize>, i32>>,
)
    requires
        answered(catalog, enumeration(first)) is Ok,
    ensures
        kept(catalog, enumeration(first)) is Some,
        kept(kept(catalog, enumeration(first)), enumeration(second)) == kept(
            catalog,
            enumeration(first),
        ),
        answered(kept(catalog, enumeration(first)), enumeration(second)) == answered(
            catalog,
            enumeration(first),
        ),
{
    lemma_computed_once(catalog, enumeration(first), enumeration(second));
}

/// Naming keeps the list. Asking a device for its name, with whatever
/// outcome, leaves the catalog with the same devices in the same order:
/// every handle stays where it is, and every other device keeps what it
/// had. A failed resolution changes nothing at all, and after an answer
/// with a name no query is due for that device any more.
pub proof fn lemma_naming_keeps_devices(
    catalog: Option<Seq<DeviceView>>,
    index: int,
    resolved: Result<Seq<char>, VoiceLibError>,
)
    ensures
        catalog is None ==> catalog_after_naming(catalog, index, resolved) is None,
        catalog matches Some(devices) ==> {
            &&& catalog_after_naming(catalog, index, resolved) matches Some(after)
            &&& after.len() == devices.len()
            &&& forall|i: int| 0 <= i < devices.len() ==> after[i].source == devices[i].source
            &&& forall|i: int| 0 <= i < devices.len() && i != index ==> after[i] == devices[i]
        },
        resolved is Err ==> catalog_after_naming(catalog, index, resolved) == catalog,
        catalog_name(catalog, index, resolved) matches Some(Ok(_)) ==> query_due(
            catalog_after_naming(catalog, index, resolved),
            index,
        ) is None,
{
}

} // verus!
