use audio_capture::devices::{descriptors_from_names, matches_selector, select_device, AudioDevice};
use audio_capture::CaptureError;

fn named(names: &[&str]) -> Vec<AudioDevice> {
    names
        .iter()
        .map(|n| AudioDevice { id: String::from(*n), name: String::from(*n) })
        .collect()
}

#[test]
fn selector_matching_is_case_insensitive_substring() {
    assert!(matches_selector("USB Microphone", "mic"));
    assert!(matches_selector("usb microphone", "MIC"));
    assert!(matches_selector("USB Microphone", "USB MICROPHONE"));
    assert!(matches_selector("anything", ""));
    assert!(!matches_selector("Line In", "mic"));
    assert!(!matches_selector("mic", "microphone"));
}

#[test]
fn select_device_picks_first_matching_name() {
    let devices = named(&["Line In", "USB Microphone", "Another Mic"]);
    let r = select_device(&devices, &Some(String::from("mic")), Some(0));
    assert_eq!(r.unwrap(), 1);
}

#[test]
fn select_device_falls_back_to_default_when_nothing_matches() {
    let devices = named(&["Line In", "Aux"]);
    let r = select_device(&devices, &Some(String::from("mic")), Some(1));
    assert_eq!(r.unwrap(), 1);
}

#[test]
fn select_device_without_selector_takes_default() {
    let devices = named(&["Line In", "Aux"]);
    let r = select_device(&devices, &None, Some(0));
    assert_eq!(r.unwrap(), 0);
}

#[test]
fn select_device_with_nothing_fails() {
    let devices: Vec<AudioDevice> = Vec::new();
    let r = select_device(&devices, &None, None);
    assert_eq!(r.unwrap_err(), CaptureError::NoDeviceFound);
    let devices = named(&["Line In"]);
    let r = select_device(&devices, &Some(String::from("mic")), None);
    assert_eq!(r.unwrap_err(), CaptureError::NoDeviceFound);
}

#[test]
fn descriptors_mirror_the_reported_names() {
    let names = vec![String::from("USB Microphone"), String::from("Line In")];
    let devices = descriptors_from_names(&names);
    assert_eq!(devices.len(), 2);
    assert_eq!(devices[0].id, "USB Microphone");
    assert_eq!(devices[0].name, "USB Microphone");
    assert_eq!(devices[1].id, "Line In");
    assert_eq!(devices[1].name, "Line In");
}
