use audio_passthrough::device::{
    device_names, select, Endpoint, SampleFormat, StreamFormat,
};
use audio_passthrough::error::EngineError;

fn some(name: &str) -> Option<String> {
    Some(name.to_string())
}

#[test]
fn select_gives_the_first_exact_match() {
    let devices = Some(vec![some("a"), None, some("b"), some("b")]);
    assert_eq!(select(&devices, &"b".to_string()), Ok(2));
    assert_eq!(select(&devices, &"a".to_string()), Ok(0));
}

#[test]
fn select_compares_names_exactly() {
    let devices = Some(vec![some("Mic "), some("mic"), some("Mic")]);
    assert_eq!(select(&devices, &"Mic".to_string()), Ok(2));
    assert_eq!(select(&devices, &"MIC".to_string()), Err(EngineError::DeviceNotFound));
    assert_eq!(select(&devices, &"".to_string()), Err(EngineError::DeviceNotFound));
}

#[test]
fn select_skips_devices_without_a_readable_name() {
    let devices = Some(vec![None, None, some("x")]);
    assert_eq!(select(&devices, &"x".to_string()), Ok(2));
    let unnamed: Option<Vec<Option<String>>> = Some(vec![None, None]);
    assert_eq!(select(&unnamed, &"".to_string()), Err(EngineError::DeviceNotFound));
}

#[test]
fn select_finds_nothing_in_an_empty_or_failed_enumeration() {
    assert_eq!(select(&Some(vec![]), &"x".to_string()), Err(EngineError::DeviceNotFound));
    assert_eq!(select(&None, &"x".to_string()), Err(EngineError::DeviceNotFound));
}

#[test]
fn device_names_keeps_the_readable_names_in_order() {
    let devices = Some(vec![some("b"), None, some("a"), some("b")]);
    assert_eq!(device_names(&devices), vec!["b".to_string(), "a".to_string(), "b".to_string()]);
}

#[test]
fn device_names_of_a_failed_enumeration_is_empty() {
    assert_eq!(device_names(&None), Vec::<String>::new());
    assert_eq!(device_names(&Some(vec![])), Vec::<String>::new());
    assert_eq!(device_names(&Some(vec![None])), Vec::<String>::new());
}

#[test]
fn endpoint_keeps_its_name() {
    let endpoint = Endpoint::new("line in".to_string());
    assert_eq!(endpoint.name(), "line in");
    assert_eq!(endpoint.format(), None);
}

#[test]
fn endpoint_keeps_its_format() {
    let format =
        StreamFormat { sample_rate: 44100, channels: 2, sample_format: SampleFormat::F32 };
    let endpoint = Endpoint::with_format("line in".to_string(), Some(format));
    assert_eq!(endpoint.name(), "line in");
    assert_eq!(endpoint.format(), Some(format));
    let bare = Endpoint::with_format("line out".to_string(), None);
    assert_eq!(bare.name(), "line out");
    assert_eq!(bare.format(), None);
}

#[test]
fn each_error_has_its_own_message() {
    assert_eq!(EngineError::DeviceNotFound.message(), "device not found");
    assert_eq!(EngineError::EndpointMissing.message(), "input or output device is not selected");
    assert_eq!(EngineError::StreamSetupFailed.message(), "failed to open or start a stream");
    assert_eq!(EngineError::StopTimeout.message(), "stream thread couldn't stop");
    assert_eq!(EngineError::LockContention.message(), "failed to lock audio manager");
}
