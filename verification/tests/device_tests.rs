use jit_shipper::device::{platform_of, Device, Platform};

#[test]
fn platform_names() {
    assert_eq!(platform_of("macos"), Some(Platform::MacOs));
    assert_eq!(platform_of("linux"), Some(Platform::Linux));
    assert_eq!(platform_of("windows"), Some(Platform::Windows));
    assert_eq!(platform_of("freebsd"), None);
    assert_eq!(platform_of("Linux"), None);
}

#[test]
fn new_device_keeps_fields() {
    let d = Device::new("abc".to_string(), "Phone".to_string(), "15.0".to_string());
    assert_eq!(d.udid, "abc");
    assert_eq!(d.name, "Phone");
    assert_eq!(d.version, "15.0");
}

#[test]
fn unix_commands_run_tools_directly() {
    let c = Device::idevice_id_command(Platform::Linux);
    assert_eq!(c.program, "idevice_id");
    assert_eq!(c.args, vec!["-l".to_string()]);
    let m = Device::idevice_id_command(Platform::MacOs);
    assert_eq!(m.program, c.program);
    assert_eq!(m.args, c.args);
    let i = Device::ideviceinfo_command(Platform::MacOs, "00008030-XYZ".to_string());
    assert_eq!(i.program, "ideviceinfo");
    assert_eq!(i.args, vec!["-u".to_string(), "00008030-XYZ".to_string()]);
}

#[test]
fn windows_commands_go_through_powershell() {
    let c = Device::idevice_id_command(Platform::Windows);
    assert_eq!(c.program, "powershell");
    assert_eq!(
        c.args,
        vec!["libimobiledevice/idevice_id.exe".to_string(), "-l".to_string()]
    );
    let d = Device::new("u1".to_string(), "n".to_string(), "v".to_string());
    let r = d.run_app_command(Platform::Windows, "com.example.app".to_string());
    assert_eq!(r.program, "powershell");
    assert_eq!(
        r.args,
        vec![
            "libimobiledevice/idevicedebug.exe".to_string(),
            "-u".to_string(),
            "u1".to_string(),
            "--detach".to_string(),
            "run".to_string(),
            "com.example.app".to_string()
        ]
    );
    let l = d.return_idi_command(Platform::Linux);
    assert_eq!(l.program, "ideviceinstaller");
    assert_eq!(l.args, vec!["-l".to_string(), "-u".to_string(), "u1".to_string()]);
}

#[test]
fn launch_judged_by_error_stream() {
    assert!(Device::launch_succeeded(""));
    assert!(!Device::launch_succeeded("error: no such app"));
    assert!(!Device::launch_succeeded(" "));
}

#[test]
fn scan_target_is_trimmed_listing() {
    assert_eq!(Device::scan_target("abc123\n"), Some("abc123".to_string()));
    assert_eq!(Device::scan_target("  abc123  \r\n"), Some("abc123".to_string()));
    // The whole listing is taken, not its first line.
    assert_eq!(Device::scan_target("a\nb\n"), Some("a\nb".to_string()));
}

#[test]
fn scan_target_none_when_first_line_empty() {
    assert_eq!(Device::scan_target(""), None);
    assert_eq!(Device::scan_target("\n"), None);
    assert_eq!(Device::scan_target("\r\nabc"), None);
    assert_eq!(Device::scan_target("\nabc"), None);
    // A lone carriage return is a line of its own.
    assert_eq!(Device::scan_target("\r"), Some(String::new()));
}

#[test]
fn report_gives_last_values_trimmed() {
    let report = "ActivationState: Activated\nDeviceName: My Phone \nProductVersion: 15.1\nDeviceName:  Other\n";
    assert_eq!(
        Device::read_report(report),
        Some(("Other".to_string(), "15.1".to_string()))
    );
}

#[test]
fn report_value_stops_at_second_colon() {
    let report = "DeviceName: a:b\nProductVersion:16.0";
    assert_eq!(
        Device::read_report(report),
        Some(("a".to_string(), "16.0".to_string()))
    );
}

#[test]
fn report_without_keys_gives_empty_values() {
    assert_eq!(
        Device::read_report("Foo: bar\n\n"),
        Some((String::new(), String::new()))
    );
}

#[test]
fn report_with_bare_key_cannot_be_read() {
    assert_eq!(Device::read_report("DeviceName\nProductVersion: 1"), None);
    assert_eq!(Device::read_report("DeviceName: x\nProductVersion"), None);
    // With trailing text the line is no bare key.
    assert!(Device::read_report("DeviceName \n").is_some());
}

#[test]
fn device_scan_finds_one_device() {
    let devices = Device::device_scan(
        "00008101-AAAA\n",
        "DeviceName: Pad\nProductVersion: 14.4\n",
    );
    assert_eq!(devices.len(), 1);
    assert_eq!(devices[0].udid, "00008101-AAAA");
    assert_eq!(devices[0].name, "Pad");
    assert_eq!(devices[0].version, "14.4");
}

#[test]
fn device_scan_empty_listing() {
    assert!(Device::scan_is_readable("", "DeviceName\n"));
    let devices = Device::device_scan("", "DeviceName\n");
    assert!(devices.is_empty());
}

#[test]
fn device_scan_unreadable_report() {
    assert!(!Device::scan_is_readable("abc\n", "ProductVersion\n"));
    assert!(Device::scan_is_readable("abc\n", "ProductVersion: 1\n"));
}

#[test]
fn app_scan_maps_names_to_identifiers() {
    let listing = "CFBundleIdentifier, CFBundleVersion, CFBundleDisplayName\ncom.a.one, 1.0, One\n\ncom.b.two , 2, Two \n";
    assert!(Device::listing_is_readable(listing));
    let apps = Device::app_scan(listing);
    assert_eq!(
        apps,
        vec![
            ("One".to_string(), "com.a.one".to_string()),
            ("Two".to_string(), "com.b.two".to_string())
        ]
    );
}

#[test]
fn app_scan_later_line_wins() {
    let listing = "header\ncom.first, 1, Same\ncom.other, 1, Else\ncom.second, 2, Same";
    let apps = Device::app_scan(listing);
    assert_eq!(apps.len(), 2);
    assert!(apps.contains(&("Same".to_string(), "com.second".to_string())));
    assert!(apps.contains(&("Else".to_string(), "com.other".to_string())));
}

#[test]
fn app_scan_skips_header_only() {
    assert_eq!(Device::app_scan("only, a, header"), vec![]);
    assert_eq!(Device::app_scan(""), vec![]);
}

#[test]
fn app_scan_short_line_cannot_be_read() {
    assert!(!Device::listing_is_readable("header\ncom.a, 1"));
    assert!(!Device::listing_is_readable("header\r\n\r"));
    assert!(Device::listing_is_readable("a, b\n"));
}
