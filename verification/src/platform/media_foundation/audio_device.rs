use vstd::prelude::*;

use super::once::{answered, kept, lemma_computed_once, outcome_view};
use super::strings::{string_from_utf16, utf16_decoding};
use crate::error::{NativeCall, PlatformError, VoiceLibError};

verus! {

/// What a device is, as contracts see it: the handle by which the platform
/// finds it again, and its display name once that is known.
pub struct DeviceView {
    pub source: usize,
    pub name: Option<Seq<char>>,
}

/// One capture device: the handle that the enumeration gave for it, and its
/// display name from the first successful query on.
#[derive(Debug)]
pub struct AudioDevice {
    source: usize,
    readable_name: Option<String>,
}

impl View for AudioDevice {
    type V = DeviceView;

    closed spec fn view(&self) -> DeviceView {
        DeviceView {
            source: self.source,
            name: match self.readable_name {
                Some(name) => Some(name@),
                None => None,
            },
        }
    }
}

/// A name as contracts see it.
pub open spec fn name_view(name: Result<String, VoiceLibError>) -> Result<
    Seq<char>,
    VoiceLibError,
> {
    match name {
        Ok(text) => Ok(text@),
        Err(error) => Err(error),
    }
}

/// A lent name as contracts see it.
pub open spec fn named(answer: Result<&str, VoiceLibError>) -> Result<Seq<char>, VoiceLibError> {
    match answer {
        Ok(text) => Ok(text@),
        Err(error) => Err(error),
    }
}

/// The name that `units` spell: their UTF-16 decoding, or the error of a
/// string that could not be built.
pub open spec fn decoded_name(units: Seq<u16>) -> Result<Seq<char>, VoiceLibError> {
    match utf16_decoding(units) {
        Ok(text) => Ok(text),
        Err(error) => Err(VoiceLibError::StringifyError(error)),
    }
}

/// What a native name query resolves to: the decoded name, the query's
/// failure with its code as it came, or `Unknown` where no query was made.
pub open spec fn name_resolution(queried: Option<Result<Seq<u16>, i32>>) -> Result<
    Seq<char>,
    VoiceLibError,
> {
    match queried {
        Some(Ok(units)) => decoded_name(units),
        Some(Err(code)) => Err(
            VoiceLibError::PlatformSpecific(PlatformError { call: NativeCall::NameQuery, code }),
        ),
        None => Err(VoiceLibError::Unknown),
    }
}

impl AudioDevice {
    /// The device for `source` that has no name yet.
    pub closed spec fn unnamed(source: usize) -> Self {
        AudioDevice { source, readable_name: None }
    }

    /// A device for `source`, its name not yet known.
    pub fn new(source: usize) -> (device: Self)
        ensures
            device@ == (DeviceView { source, name: None }),
    {
        AudioDevice { source, readable_name: None }
    }

    /// The handle by which the platform finds the device again.
    pub fn source(&self) -> (source: usize)
        ensures
            source == self@.source,
    {
        self.source
    }

    /// The name, if the device keeps one. `None` says that the native name
    /// query is due before the device can answer with a name.
    pub fn cached_name(&self) -> (name: Option<&str>)
        ensures
            match name {
                Some(text) => self@.name == Some(text@),
                None => self@.name is None,
            },
    {
        match &self.readable_name {
            Some(name) => Some(name.as_str()),
            None => None,
        }
    }

    /// Builds the name that the code units of a native answer spell.
    pub fn get_readable_name(units: &[u16]) -> (name: Result<String, VoiceLibError>)
        ensures
            name_view(name) == decoded_name(units@),
    {
        match string_from_utf16(units) {
            Ok(text) => Ok(text),
            Err(error) => Err(VoiceLibError::StringifyError(error)),
        }
    }

    /// Answers with the device's name, keeping `resolved` as that name if the
    /// device had none and the resolution succeeded. A name once kept stays:
    /// a later `resolved` is not looked at.
    pub fn cache_name(
        &mut self,
        resolved: Result<String, VoiceLibError>,
    ) -> (answer: Result<&str, VoiceLibError>)
        ensures
            final(self)@ == (DeviceView {
                source: old(self)@.source,
                name: kept(old(self)@.name, name_view(resolved)),
            }),
            named(answer) == answered(old(self)@.name, name_view(resolved)),
    {
        if self.readable_name.is_none() {
            match resolved {
                Ok(name) => {
                    self.readable_name = Some(name);
                },
                Err(error) => {
                    return Err(error);
                },
            }
        }
        Ok(self.readable_name.as_ref().unwrap().as_str())
    }
}

impl crate::traits::AudioDevice for AudioDevice {
    /// Answers with the device's name. With a name kept, that is the answer
    /// and `queried` is not looked at. Without one, `queried` decides: its
    /// code units are decoded and, if that succeeds, kept; a failed query is
    /// handed back with its code as it came, undecodable units are a
    /// `StringifyError`, a missing query is `Unknown`, and the device stays
    /// without a name.
    fn readable_name(
        &mut self,
        queried: Option<Result<Vec<u16>, i32>>,
    ) -> (answer: Result<&str, VoiceLibError>)
        ensures
            final(self)@ == (DeviceView {
                source: old(self)@.source,
                name: kept(old(self)@.name, name_resolution(outcome_view(queried))),
            }),
            named(answer) == answered(old(self)@.name, name_resolution(outcome_view(queried))),
    {
        if self.readable_name.is_some() {
            return Ok(self.readable_name.as_ref().unwrap().as_str());
        }
        let resolved = match queried {
            Some(Ok(units)) => AudioDevice::get_readable_name(units.as_slice()),
            Some(Err(code)) => Err(
                VoiceLibError::PlatformSpecific(
                    PlatformError { call: NativeCall::NameQuery, code },
                ),
            ),
            None => Err(VoiceLibError::Unknown),
        };
        self.cache_name(resolved)
    }
}

impl From<usize> for AudioDevice {
    /// Wraps a handle as a device, as [`AudioDevice::new`] does.
    fn from(source: usize) -> (device: Self)
        ensures
            device@ == (DeviceView { source, name: None }),
    {
        AudioDevice { source, readable_name: None }
    }
}

impl vstd::std_specs::convert::FromSpecImpl<usize> for AudioDevice {
    open spec fn obeys_from_spec() -> bool {
        true
    }

    open spec fn from_spec(source: usize) -> Self {
        AudioDevice::unnamed(source)
    }
}

/// A name is resolved once. A device that has answered with a name keeps
/// it: the native name query is no longer due, and the next request is
/// answered with the same name and changes nothing, whatever outcome is
/// handed in with it.
pub proof fn lemma_name_idempotent(
    cached: Option<Seq<char>>,
    first: Option<Result<Seq<u16>, i32>>,
    second: Option<Result<Seq<u16>, i32>>,
)
    requires
        answered(cached, name_resolution(first)) is Ok,
    ensures
        kept(cached, name_resolution(first)) is Some,
        kept(kept(cached, name_resolution(first)), name_resolution(second)) == kept(
            cached,
            name_resolution(first),
        ),
        answered(kept(cached, name_resolution(first)), name_resolution(second)) == answered(
            cached,
            name_resolution(first),
        ),
{
    lemma_computed_once(cached, name_resolution(first), name_resolution(second));
}

} // verus!
