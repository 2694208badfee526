use voice::platform::{AudioDevice, Host, Initialization};
use voice::traits::{AudioDevice as DeviceApi, Host as HostApi};
use voice::{NativeCall, PlatformError, VoiceLibError};

/// Stands in for the native name query: counts the calls that reach it.
struct NameService {
    calls: usize,
    failing: Vec<usize>,
}

impl NameService {
    fn new() -> Self {
        NameService { calls: 0, failing: Vec::new() }
    }

    fn query(&mut self, source: usize) -> Result<Vec<u16>, i32> {
        self.calls += 1;
        if self.failing.contains(&source) {
            Err(-(source as i32))
        } else {
            Ok(utf16(&format!("Microphone {source}")))
        }
    }
}

fn utf16(text: &str) -> Vec<u16> {
    text.encode_utf16().collect()
}

fn host_with(sources: &[usize]) -> Host {
    let mut initialization = Initialization::new();
    let mut host = Host::create(&mut initialization, Some(Ok(()))).unwrap();
    host.audio_devices(Some(Ok(sources.to_vec()))).unwrap();
    host
}

fn readable_name(
    host: &mut Host,
    service: &mut NameService,
    index: usize,
) -> Option<Result<String, VoiceLibError>> {
    let queried = host.name_query_due(index).map(|source| service.query(source));
    host.readable_name(index, queried).map(|name| name.map(str::to_owned))
}

fn cached_names(host: &mut Host) -> Vec<Option<String>> {
    host.audio_devices(None)
        .unwrap()
        .iter()
        .map(|device| device.cached_name().map(str::to_owned))
        .collect()
}

#[test]
fn a_new_device_has_a_handle_and_no_name() {
    let device = AudioDevice::new(5);
    assert_eq!(device.source(), 5);
    assert_eq!(device.cached_name(), None);
}

#[test]
fn a_name_is_queried_once() {
    let mut host = host_with(&[8]);
    let mut service = NameService::new();
    let first = readable_name(&mut host, &mut service, 0).unwrap().unwrap();
    let second = readable_name(&mut host, &mut service, 0).unwrap().unwrap();
    assert_eq!(first, "Microphone 8");
    assert_eq!(second, first);
    assert_eq!(service.calls, 1);
}

#[test]
fn a_device_answers_with_its_first_name_ever_after() {
    let mut device = AudioDevice::new(1);
    assert_eq!(device.readable_name(Some(Ok(utf16("Line In")))).unwrap(), "Line In");
    assert_eq!(device.cached_name(), Some("Line In"));
    assert_eq!(device.readable_name(None).unwrap(), "Line In");
    assert_eq!(device.readable_name(Some(Ok(utf16("Other")))).unwrap(), "Line In");
    assert_eq!(device.readable_name(Some(Err(-1))).unwrap(), "Line In");
    assert_eq!(device.source(), 1);
}

#[test]
fn one_failing_device_leaves_the_others_their_names() {
    let mut host = host_with(&[10, 20, 30]);
    let mut service = NameService::new();
    service.failing.push(20);
    let mut answers = Vec::new();
    for index in 0..3 {
        answers.push(readable_name(&mut host, &mut service, index).unwrap());
    }
    assert_eq!(answers[0].as_deref().unwrap(), "Microphone 10");
    assert!(matches!(
        answers[1],
        Err(VoiceLibError::PlatformSpecific(PlatformError {
            call: NativeCall::NameQuery,
            code: -20
        }))
    ));
    assert_eq!(answers[2].as_deref().unwrap(), "Microphone 30");
    assert_eq!(
        cached_names(&mut host),
        vec![Some("Microphone 10".to_owned()), None, Some("Microphone 30".to_owned())]
    );
}

#[test]
fn naming_one_device_touches_no_other() {
    let mut host = host_with(&[4, 5, 6]);
    let name = host.readable_name(1, Some(Ok(utf16("Headset")))).unwrap().unwrap().to_owned();
    assert_eq!(name, "Headset");
    assert_eq!(cached_names(&mut host), vec![None, Some("Headset".to_owned()), None]);
    let sources: Vec<usize> =
        host.audio_devices(None).unwrap().iter().map(|device| device.source()).collect();
    assert_eq!(sources, vec![4, 5, 6]);
}

#[test]
fn names_are_decoded_from_utf16() {
    assert_eq!(AudioDevice::get_readable_name(&utf16("Mikrofon (USB)")).unwrap(), "Mikrofon (USB)");
    assert_eq!(AudioDevice::get_readable_name(&[0x0041, 0x00DF, 0x6771]).unwrap(), "Aß東");
    assert_eq!(AudioDevice::get_readable_name(&[0xD83C, 0xDFA4]).unwrap(), "\u{1F3A4}");
    assert_eq!(AudioDevice::get_readable_name(&[]).unwrap(), "");
}

#[test]
fn a_lone_surrogate_is_a_stringify_error() {
    assert!(matches!(
        AudioDevice::get_readable_name(&[0x0041, 0xD800]),
        Err(VoiceLibError::StringifyError(_))
    ));
    let mut device = AudioDevice::new(2);
    let answer = device.readable_name(Some(Ok(vec![0xDC00, 0x0041])));
    assert!(matches!(answer, Err(VoiceLibError::StringifyError(_))));
    assert_eq!(device.cached_name(), None);
}

#[test]
fn a_failed_query_is_tried_again() {
    let mut host = host_with(&[77]);
    let mut service = NameService::new();
    service.failing.push(77);
    assert!(readable_name(&mut host, &mut service, 0).unwrap().is_err());
    assert!(readable_name(&mut host, &mut service, 0).unwrap().is_err());
    assert_eq!(service.calls, 2);
    service.failing.clear();
    assert_eq!(readable_name(&mut host, &mut service, 0).unwrap().unwrap(), "Microphone 77");
    assert_eq!(readable_name(&mut host, &mut service, 0).unwrap().unwrap(), "Microphone 77");
    assert_eq!(service.calls, 3);
}

#[test]
fn a_missing_query_is_unknown() {
    let mut device = AudioDevice::new(3);
    assert!(matches!(device.readable_name(None), Err(VoiceLibError::Unknown)));
    assert_eq!(device.cached_name(), None);
    let mut host = host_with(&[3]);
    assert!(matches!(host.readable_name(0, None), Some(Err(VoiceLibError::Unknown))));
}

#[test]
fn there_is_no_name_without_a_device() {
    let mut initialization = Initialization::new();
    let mut host = Host::create(&mut initialization, Some(Ok(()))).unwrap();
    assert!(host.readable_name(0, Some(Ok(utf16("Ghost")))).is_none());
    host.audio_devices(Some(Ok(vec![1, 2]))).unwrap();
    assert!(host.readable_name(2, Some(Ok(utf16("Ghost")))).is_none());
    assert!(host.readable_name(usize::MAX, None).is_none());
    assert_eq!(cached_names(&mut host), vec![None, None]);
}

#[test]
fn a_kept_name_outlasts_later_resolutions() {
    let mut device = AudioDevice::new(9);
    assert_eq!(device.cache_name(Ok("Array".to_owned())).unwrap(), "Array");
    assert_eq!(device.cache_name(Ok("Other".to_owned())).unwrap(), "Array");
    assert_eq!(device.cache_name(Err(VoiceLibError::Unknown)).unwrap(), "Array");
}

#[test]
fn a_failed_resolution_keeps_no_name() {
    let mut device = AudioDevice::new(9);
    let failure = PlatformError { call: NativeCall::NameQuery, code: 5 };
    let answer = device.cache_name(Err(VoiceLibError::PlatformSpecific(failure)));
    assert!(matches!(answer, Err(VoiceLibError::PlatformSpecific(kept)) if kept == failure));
    assert_eq!(device.cached_name(), None);
    assert_eq!(device.cache_name(Ok("Late".to_owned())).unwrap(), "Late");
}

#[test]
fn a_handle_converts_into_an_unnamed_device() {
    let device = AudioDevice::from(31);
    assert_eq!(device.source(), 31);
    assert_eq!(device.cached_name(), None);
}

#[test]
fn a_query_is_due_only_for_a_listed_device_without_a_name() {
    let mut initialization = Initialization::new();
    let mut host = Host::create(&mut initialization, Some(Ok(()))).unwrap();
    assert_eq!(host.name_query_due(0), None);
    host.audio_devices(Some(Ok(vec![40, 50]))).unwrap();
    assert_eq!(host.name_query_due(0), Some(40));
    assert_eq!(host.name_query_due(1), Some(50));
    assert_eq!(host.name_query_due(2), None);
    assert!(host.readable_name(1, Some(Err(-1))).unwrap().is_err());
    assert_eq!(host.name_query_due(1), Some(50));
    assert!(host.readable_name(1, Some(Ok(utf16("Webcam")))).unwrap().is_ok());
    assert_eq!(host.name_query_due(1), None);
    assert_eq!(host.name_query_due(0), Some(40));
}

#[test]
fn names_are_kept_past_the_tenth_device() {
    let sources: Vec<usize> = (100..125).collect();
    let mut host = host_with(&sources);
    let mut service = NameService::new();
    for index in [0, 9, 10, 24] {
        let name = readable_name(&mut host, &mut service, index).unwrap().unwrap();
        assert_eq!(name, format!("Microphone {}", 100 + index));
    }
    let names = cached_names(&mut host);
    assert_eq!(names.len(), 25);
    for (index, name) in names.iter().enumerate() {
        if [0, 9, 10, 24].contains(&index) {
            assert_eq!(name.as_deref(), Some(format!("Microphone {}", 100 + index).as_str()));
        } else {
            assert_eq!(*name, None);
        }
    }
    assert_eq!(service.calls, 4);
}
