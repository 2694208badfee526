use voice::platform::{AudioDevice, Host, Initialization};
use voice::traits::Host as HostApi;
use voice::{NativeCall, PlatformError, VoiceLibError};

/// Stands in for the native enumeration: counts the calls that reach it.
struct Enumerator {
    calls: usize,
    outcome: Result<Vec<usize>, i32>,
}

impl Enumerator {
    fn giving(sources: &[usize]) -> Self {
        Enumerator { calls: 0, outcome: Ok(sources.to_vec()) }
    }

    fn failing(code: i32) -> Self {
        Enumerator { calls: 0, outcome: Err(code) }
    }

    fn enumerate(&mut self) -> Result<Vec<usize>, i32> {
        self.calls += 1;
        self.outcome.clone()
    }
}

fn started_host() -> Host {
    let mut initialization = Initialization::new();
    Host::create(&mut initialization, Some(Ok(()))).unwrap()
}

fn audio_devices<'a>(
    host: &'a mut Host,
    enumerator: &mut Enumerator,
) -> Result<&'a [AudioDevice], VoiceLibError> {
    let enumerated = if host.needs_enumeration() { Some(enumerator.enumerate()) } else { None };
    host.audio_devices(enumerated)
}

fn sources_of(devices: &[AudioDevice]) -> Vec<usize> {
    devices.iter().map(|device| device.source()).collect()
}

#[test]
fn a_new_host_has_no_list() {
    let host = started_host();
    assert!(host.needs_enumeration());
}

#[test]
fn enumeration_is_made_once() {
    let mut host = started_host();
    let mut enumerator = Enumerator::giving(&[11, 22, 33]);
    let first = sources_of(audio_devices(&mut host, &mut enumerator).unwrap());
    let second = sources_of(audio_devices(&mut host, &mut enumerator).unwrap());
    assert_eq!(first, vec![11, 22, 33]);
    assert_eq!(second, first);
    assert_eq!(enumerator.calls, 1);
    assert!(!host.needs_enumeration());
}

#[test]
fn empty_enumeration_is_an_empty_list() {
    let mut host = started_host();
    let mut enumerator = Enumerator::giving(&[]);
    let devices = audio_devices(&mut host, &mut enumerator).unwrap();
    assert!(devices.is_empty());
    assert!(!host.needs_enumeration());
    assert!(audio_devices(&mut host, &mut enumerator).unwrap().is_empty());
    assert_eq!(enumerator.calls, 1);
}

#[test]
fn devices_keep_the_order_of_the_handles() {
    let mut host = started_host();
    let devices = host.audio_devices(Some(Ok(vec![42, 7, 19, 7]))).unwrap();
    assert_eq!(sources_of(devices), vec![42, 7, 19, 7]);
    assert!(devices.iter().all(|device| device.cached_name().is_none()));
}

#[test]
fn more_devices_than_ten_keep_their_order_too() {
    let mut host = started_host();
    let sources: Vec<usize> = (0..25).map(|i| 1000 - 3 * i).collect();
    let devices = host.audio_devices(Some(Ok(sources.clone()))).unwrap();
    assert_eq!(devices.len(), 25);
    assert_eq!(sources_of(devices), sources);
}

#[test]
fn failed_enumeration_is_handed_back_as_it_came() {
    let mut host = started_host();
    let mut enumerator = Enumerator::failing(-2147024891);
    let answer = audio_devices(&mut host, &mut enumerator);
    assert!(matches!(
        answer,
        Err(VoiceLibError::PlatformSpecific(PlatformError {
            call: NativeCall::Enumeration,
            code: -2147024891
        }))
    ));
    assert!(host.needs_enumeration());
}

#[test]
fn failed_enumeration_is_tried_again() {
    let mut host = started_host();
    let mut enumerator = Enumerator::failing(-1);
    assert!(audio_devices(&mut host, &mut enumerator).is_err());
    assert!(audio_devices(&mut host, &mut enumerator).is_err());
    assert_eq!(enumerator.calls, 2);
    enumerator.outcome = Ok(vec![3]);
    assert_eq!(sources_of(audio_devices(&mut host, &mut enumerator).unwrap()), vec![3]);
    assert_eq!(sources_of(audio_devices(&mut host, &mut enumerator).unwrap()), vec![3]);
    assert_eq!(enumerator.calls, 3);
}

#[test]
fn missing_enumeration_is_unknown() {
    let mut host = started_host();
    assert!(matches!(host.audio_devices(None), Err(VoiceLibError::Unknown)));
    assert!(host.needs_enumeration());
}

#[test]
fn a_kept_list_outlasts_later_outcomes() {
    let mut host = started_host();
    host.audio_devices(Some(Ok(vec![1, 2]))).unwrap();
    let after_other = sources_of(host.audio_devices(Some(Ok(vec![9, 9, 9]))).unwrap());
    assert_eq!(after_other, vec![1, 2]);
    let after_failure = sources_of(host.audio_devices(Some(Err(-1))).unwrap());
    assert_eq!(after_failure, vec![1, 2]);
}
