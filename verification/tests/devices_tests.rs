use watson::devices::{
    build_available_devices, build_device_list, loopback_config_warning, resolve_device,
    system_audio_output_device,
};
use watson::errors::RecorderError;

#[test]
fn catalog_marks_the_default_and_labels_unknown_devices() {
    let list = build_device_list(
        &vec![Some("Mic A".to_string()), None, Some("Mic B".to_string())],
        &Some("Mic B".to_string()),
    );
    assert_eq!(list.len(), 3);
    assert_eq!(list[0].name, "Mic A");
    assert!(!list[0].is_default);
    assert_eq!(list[1].name, "Unknown Device");
    assert!(!list[1].is_default);
    assert_eq!(list[2].name, "Mic B");
    assert!(list[2].is_default);
}

#[test]
fn catalog_with_no_default_marks_none() {
    let list = build_device_list(&vec![Some("Mic A".to_string())], &None);
    assert_eq!(list.len(), 1);
    assert!(!list[0].is_default);
}

#[test]
fn requested_device_is_bound_exactly() {
    let list = build_device_list(
        &vec![Some("Mic A".to_string()), Some("Mic B".to_string())],
        &Some("Mic A".to_string()),
    );
    let bound = resolve_device(&Some("Mic B".to_string()), &list);
    assert_eq!(bound, Ok("Mic B".to_string()));
}

#[test]
fn missing_device_is_refused_not_substituted() {
    let list = build_device_list(
        &vec![Some("Mic A".to_string())],
        &Some("Mic A".to_string()),
    );
    let bound = resolve_device(&Some("Mic Z".to_string()), &list);
    assert_eq!(bound, Err(RecorderError::DeviceNotFound));
}

#[test]
fn no_request_binds_the_default() {
    let list = build_device_list(
        &vec![Some("Mic A".to_string()), Some("Mic B".to_string())],
        &Some("Mic B".to_string()),
    );
    assert_eq!(resolve_device(&None, &list), Ok("Mic B".to_string()));
}

#[test]
fn no_request_and_no_default_is_refused() {
    let list = build_device_list(&vec![Some("Mic A".to_string())], &None);
    assert_eq!(resolve_device(&None, &list), Err(RecorderError::NoDefaultDevice));
}

#[test]
fn full_catalog_carries_both_directions() {
    let devices = build_available_devices(
        &vec![Some("Mic".to_string())],
        &Some("Mic".to_string()),
        &vec![None],
        &Some("Unknown Device".to_string()),
    );
    assert_eq!(devices.input_devices.len(), 1);
    assert!(devices.input_devices[0].is_default);
    assert_eq!(devices.output_devices[0].name, "Unknown Device");
    assert!(devices.output_devices[0].is_default);
}

#[test]
fn loopback_check_warns_unless_the_loopback_device_is_selected() {
    assert_eq!(
        loopback_config_warning(&"Watson (BlackHole 2ch)".to_string()),
        None
    );
    let warning = loopback_config_warning(&"MacBook Pro Speakers".to_string());
    assert_eq!(
        warning,
        Some(
            "MacOS - Recording with BlackHole multi-output failed. Ensure that the BlackHole audio device is selected and this one is renamed `Watson`"
                .to_string()
        )
    );
}

#[test]
fn synthetic_system_audio_entry() {
    let d = system_audio_output_device();
    assert_eq!(d.name, "System Audio");
    assert!(d.is_default);
}
