use jit_shipper::backend::{choice_label, Backend, UiEvent};

fn listed() -> Backend<u32> {
    let mut b: Backend<u32> = Backend::new();
    b.get_device_list(vec![
        Some((1, "iPhone".to_string())),
        None,
        Some((3, "iPad".to_string())),
    ]);
    b
}

#[test]
fn new_backend_is_empty() {
    let b: Backend<u32> = Backend::new();
    assert!(b.chosen_device.is_none());
    assert!(b.device_list.is_none());
    assert!(b.dmg_path.is_none());
    assert!(!b.show_about);
    assert!(b.error.is_none());
    assert!(b.needs_device_list());
    assert!(!b.needs_dmg());
}

#[test]
fn device_list_keeps_answering_devices_in_order() {
    let b = listed();
    assert_eq!(
        b.device_list,
        Some(vec![(1, "iPhone".to_string()), (3, "iPad".to_string())])
    );
    assert!(!b.needs_device_list());
}

#[test]
fn choosing_wants_image_and_labels() {
    let mut b = listed();
    assert_eq!(b.chosen_label(), Some("None".to_string()));
    b.dmg_ready("/old.dmg".to_string());
    b.handle_ui(UiEvent::DeviceChosen(1));
    assert_eq!(b.chosen_device, Some(1));
    assert!(b.dmg_path.is_none());
    assert!(b.needs_dmg());
    assert_eq!(b.chosen_label(), Some("iPad".to_string()));
    assert_eq!(b.chosen_entry(), Some(&(3, "iPad".to_string())));
    b.dmg_ready("/home/u/JIT Shipper/15.0.dmg".to_string());
    assert!(!b.needs_dmg());
}

#[test]
fn choice_past_list_has_no_entry() {
    let mut b = listed();
    b.handle_ui(UiEvent::DeviceChosen(5));
    assert_eq!(b.chosen_entry(), None);
    assert_eq!(b.chosen_label(), None);
}

#[test]
fn refresh_forgets_devices() {
    let mut b = listed();
    b.handle_ui(UiEvent::DeviceChosen(0));
    b.dmg_ready("x".to_string());
    b.handle_ui(UiEvent::Refreshed);
    assert!(b.device_list.is_none());
    assert!(b.chosen_device.is_none());
    assert!(b.dmg_path.is_none());
    assert!(b.needs_device_list());
}

#[test]
fn windows_open_and_close() {
    let mut b = listed();
    b.handle_ui(UiEvent::AboutOpened);
    assert!(b.show_about);
    b.handle_ui(UiEvent::AboutClosed);
    assert!(!b.show_about);
    b.handle_ui(UiEvent::DeviceChosen(0));
    b.dmg_failed("Error downloading DMG".to_string());
    assert_eq!(b.error, Some("Error downloading DMG".to_string()));
    assert!(b.chosen_device.is_none());
    assert!(!b.needs_dmg());
    b.handle_ui(UiEvent::ErrorClosed);
    assert!(b.error.is_none());
    assert!(b.device_list.is_some());
}

#[test]
fn choice_label_joins_udid_and_name() {
    assert_eq!(choice_label("0000-1111", "My Phone"), "0000-1111 - My Phone");
}

#[test]
fn frame_ends_settled() {
    // A frame in which a device is clicked and its image retrieval fails.
    let mut b: Backend<u32> = Backend::new();
    if b.needs_device_list() {
        b.get_device_list(vec![Some((1, "iPhone".to_string()))]);
    }
    b.handle_ui(UiEvent::DeviceChosen(0));
    if b.needs_dmg() {
        b.dmg_failed("Error downloading DMG".to_string());
    }
    assert_eq!(b.chosen_device.is_some(), b.dmg_path.is_some());
    // The next frame picks it again and the image is found.
    b.handle_ui(UiEvent::DeviceChosen(0));
    if b.needs_dmg() {
        b.dmg_ready("/home/u/JIT Shipper/15.0.dmg".to_string());
    }
    assert_eq!(b.chosen_device, Some(0));
    assert_eq!(b.chosen_device.is_some(), b.dmg_path.is_some());
}
