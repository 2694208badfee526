mod audio_device;
mod capture_devices;
mod context;
mod devices;
mod once;
mod strings;

pub use audio_device::{
    decoded_name, lemma_name_idempotent, name_resolution, name_view, named, AudioDevice,
    DeviceView,
};
pub use capture_devices::{capture_devices_items, CaptureDevices};
pub use context::{
    acquire_failure, admissible, claims_after_acquire, held, history_after_acquire,
    lemma_idle_gap_restarts, lemma_one_session, lemma_started_while_claimed,
    lemma_startups_paired, never_idle, shutdowns, starts_subsystem, startups, stops_subsystem,
    ClaimOp, Context, Initialization,
};
pub use devices::{
    catalog_after_naming, catalog_name, enumeration, fresh_devices, has_device,
    lemma_enumeration_idempotent, lemma_naming_keeps_devices, named_at, presents, query_due,
    Devices,
};
pub use once::{answered, kept, lemma_computed_once, outcome_view};
pub use strings::utf16_decoding;

use vstd::prelude::*;

use crate::error::VoiceLibError;

verus! {

/// The entry point: a claim on the started subsystem together with the
/// catalog of its capture devices.
///
/// The devices of the list are lent for reading. Their names are asked for
/// through the host, which keeps each resolved name in the list. A host
/// ends with [`Host::release`], which gives its claim back.
pub struct Host {
    context: Context,
    devices: Devices,
}

impl View for Host {
    type V = Option<Seq<DeviceView>>;

    closed spec fn view(&self) -> Option<Seq<DeviceView>> {
        self.devices@
    }
}

impl Host {
    /// A host on the claim `context`, its catalog without a list.
    pub fn new(context: Context) -> (host: Self)
        ensures
            host@ is None,
    {
        Host { context, devices: Devices::new() }
    }

    /// Takes a claim on the subsystem that `initialization` tracks, as
    /// [`Initialization::acquire`] does, and builds a host on it. Where the
    /// claim is refused, the refusal is handed back and no host comes to be.
    pub fn create(
        initialization: &mut Initialization,
        startup: Option<Result<(), i32>>,
    ) -> (created: Result<Self, VoiceLibError>)
        requires
            old(initialization).claims() < usize::MAX,
        ensures
            final(initialization).well_formed(),
            final(initialization).claims() == claims_after_acquire(
                old(initialization).claims(),
                startup,
            ),
            final(initialization).history() == history_after_acquire(
                old(initialization).history(),
                startup,
            ),
            match acquire_failure(old(initialization).claims(), startup) {
                None => created matches Ok(host) && host@ is None,
                Some(error) => created matches Err(refusal) && refusal == error,
            },
    {
        match Context::new(initialization, startup) {
            Ok(context) => Ok(Host::new(context)),
            Err(error) => Err(error),
        }
    }

    /// Whether the native enumeration is due before
    /// [`audio_devices`](crate::traits::Host::audio_devices) can answer
    /// with a list: it is, exactly while the host has none.
    pub fn needs_enumeration(&self) -> (needed: bool)
        ensures
            needed == (self@ is None),
    {
        self.devices.needs_enumeration()
    }

    /// The handle for which the native name query is due before
    /// [`Self::readable_name`] can answer with the name of the device at
    /// `index`; `None` where none is due.
    pub fn name_query_due(&self, index: usize) -> (due: Option<usize>)
        ensures
            due == query_due(self@, index as int),
    {
        self.devices.name_query_due(index)
    }

    /// Answers with the name of the device at `index`; see
    /// [`Devices::readable_name`].
    pub fn readable_name(
        &mut self,
        index: usize,
        queried: Option<Result<Vec<u16>, i32>>,
    ) -> (answer: Option<Result<&str, VoiceLibError>>)
        ensures
            final(self)@ == catalog_after_naming(
                old(self)@,
                index as int,
                name_resolution(outcome_view(queried)),
            ),
            named_at(answer) == catalog_name(
                old(self)@,
                index as int,
                name_resolution(outcome_view(queried)),
            ),
    {
        self.devices.readable_name(index, queried)
    }

    /// Ends the host and gives its claim up, as [`Initialization::release`]
    /// does. Returns whether the native shutdown call is due.
    #[must_use]
    pub fn release(self, initialization: &mut Initialization) -> (shutdown: bool)
        requires
            old(initialization).claims() > 0,
        ensures
            final(initialization).well_formed(),
            final(initialization).claims() == old(initialization).claims() - 1,
            final(initialization).history() == old(initialization).history().push(
                ClaimOp::Release,
            ),
            shutdown == stops_subsystem(old(initialization).claims() as int),
    {
        initialization.release(self.context)
    }
}

impl crate::traits::Host for Host {
    type Device = AudioDevice;

    /// Answers with the list of devices; see [`Devices::get`].
    fn audio_devices(
        &mut self,
        enumerated: Option<Result<Vec<usize>, i32>>,
    ) -> (answer: Result<&[AudioDevice], VoiceLibError>)
        ensures
            final(self)@ == kept(old(self)@, enumeration(outcome_view(enumerated))),
            presents(answer, answered(old(self)@, enumeration(outcome_view(enumerated)))),
    {
        self.devices.get(&self.context, enumerated)
    }
}

} // verus!
