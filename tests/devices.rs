use simctl::device::{Available, ByName};
use simctl::get_app_container::Container;
use simctl::io::{Display, ImageType, Mask};
use simctl::list::{DeviceInfo, DeviceState, ListOutput};
use simctl::privacy::PrivacyService;
use simctl::status_bar::{BatteryState, CellularMode, DataNetworkType};
use simctl::ui::Appearance;
use simctl::{Device, DeviceQuery, Error, ExitStatus, Invocation, Output, Simctl, Stream};

const UDID: &str = "7B1E2F3A-0000-4C5D-9E8F-0123456789AB";
const SIMCTL: &str = "/Applications/Xcode.app/Contents/Developer/usr/bin/simctl";

fn info(name: &str, udid: &str, state: &str, available: bool) -> DeviceInfo {
    DeviceInfo {
        runtime_identifier: String::new(),
        availability_error: None,
        data_path: format!("/tmp/{}/data", udid),
        log_path: format!("/tmp/{}/log", udid),
        udid: udid.to_owned(),
        is_available: available,
        device_type_identifier: "com.apple.CoreSimulator.SimDeviceType.iPhone-SE--2nd-generation-".to_owned(),
        state: DeviceState::from_name(state),
        name: name.to_owned(),
    }
}

fn listing(state: &str) -> ListOutput {
    ListOutput {
        device_types: vec![],
        runtimes: vec![],
        devices: vec![(
            "com.apple.CoreSimulator.SimRuntime.iOS-17-0".to_owned(),
            vec![info("iPhone SE (2nd generation)", UDID, state, true)],
        )],
        pairs: vec![],
    }
}

fn device_in(state: &str) -> Device {
    let simctl = Simctl::new(None);
    let list = simctl.list(listing(state));
    let mut query = list.devices().available().by_name("iPhone SE (2nd generation)");
    query.next().unwrap().clone()
}

fn device() -> Device {
    device_in("Shutdown")
}

fn args(inv: &Invocation) -> Vec<&str> {
    inv.args.iter().map(|a| a.as_str()).collect()
}

fn success(stdout: &[u8]) -> Output {
    Output { status: ExitStatus { code: Some(0) }, stdout: stdout.to_vec(), stderr: vec![] }
}

fn failure(code: i32, stdout: &[u8], stderr: &[u8]) -> Output {
    Output { status: ExitStatus { code: Some(code) }, stdout: stdout.to_vec(), stderr: stderr.to_vec() }
}

fn assert_simctl(inv: &Invocation, expected: &[&str]) {
    assert_eq!(inv.program, SIMCTL);
    assert_eq!(args(inv), expected);
    assert!(inv.envs.is_empty());
    assert!(inv.stdin.is_none());
    assert_eq!(inv.stdout, Stream::Piped);
    assert_eq!(inv.stderr, Stream::Piped);
}

#[test]
fn test_list() {
    let simctl = Simctl::new(None);
    let list = simctl.list(ListOutput { device_types: vec![], runtimes: vec![], devices: vec![], pairs: vec![] });
    assert!(list.devices().is_empty());
    assert_simctl(&simctl.list_command(), &["list", "-j"]);
}

#[test]
fn test_boot() {
    let boot = device().boot();
    assert_simctl(&boot, &["boot", UDID]);
    assert_eq!(device_in("Booted").info().state, DeviceState::Booted);

    let shutdown = device_in("Booted").shutdown();
    assert_simctl(&shutdown, &["shutdown", UDID]);
    assert_eq!(device_in("Shutdown").info().state, DeviceState::Shutdown);
}

#[test]
fn test_shutdown() {
    assert_simctl(&device().boot(), &["boot", UDID]);
    assert_eq!(device_in("Booted").info().state, DeviceState::Booted);

    assert_simctl(&device().shutdown(), &["shutdown", UDID]);
    assert_eq!(device_in("Shutdown").info().state, DeviceState::Shutdown);
}

#[test]
fn test_get_app_container() {
    let path = "/Applications/Xcode.app/Contents/Developer/Platforms/iPhoneOS.platform/Library/Developer/CoreSimulator/Profiles/Runtimes/iOS.simruntime/Contents/Resources/RuntimeRoot/Applications/MobileSafari.app";
    let inv = device().get_app_container("com.apple.mobilesafari", &Container::App);
    assert_simctl(&inv, &["get_app_container", UDID, "com.apple.mobilesafari", "app"]);
    let read = Device::read_app_container(success(format!("{}\n", path).as_bytes())).unwrap();
    assert_eq!(read, path);

    let inv = device().get_app_container("com.apple.mobilesafari", &Container::Data);
    assert_simctl(&inv, &["get_app_container", UDID, "com.apple.mobilesafari", "data"]);
}

#[test]
fn test_getenv() {
    let boot = device().boot_with_env(vec![("TEST_VAR", "Hello World!")]);
    assert_eq!(args(&boot), vec!["boot", UDID]);
    assert_eq!(boot.envs, vec![("SIMCTL_CHILD_TEST_VAR".to_owned(), "Hello World!".to_owned())]);

    assert_simctl(&device().getenv("TEST_VAR"), &["getenv", UDID, "TEST_VAR"]);
    assert_eq!(Device::read_env(success(b"Hello World!\n")).unwrap(), "Hello World!");
    assert_simctl(&device().getenv("TEST_VAR_"), &["getenv", UDID, "TEST_VAR_"]);
    assert_eq!(Device::read_env(success(b"")).unwrap(), "");
}

#[test]
fn test_install() {
    let path = String::from("tests/Example.app");
    assert_simctl(&device().install(&path), &["install", UDID, path.as_str()]);
    assert_simctl(&device().uninstall("com.glacyr.simctl.Example"), &["uninstall", UDID, "com.glacyr.simctl.Example"]);
}

#[test]
fn test_uninstall() {
    let path = String::from("tests/Example.app");
    assert_simctl(&device().install(&path), &["install", UDID, path.as_str()]);
    assert_simctl(&device().uninstall("com.glacyr.simctl.Example"), &["uninstall", UDID, "com.glacyr.simctl.Example"]);
}

#[test]
fn test_screenshot() {
    let inv = device().io().screenshot(ImageType::Png, Display::Internal, Mask::Ignored);
    assert_simctl(&inv, &["io", UDID, "screenshot", "--type=png", "--display=internal", "--mask=ignored", "-"]);
    let png = vec![0x89, b'P', b'N', b'G', 0x0d, 0x0a, 0x1a, 0x0a];
    assert_eq!(simctl::io::IO::read_screenshot(success(&png)).unwrap(), png);
}

#[test]
fn test_keychain_reset() {
    assert_simctl(&device().keychain().reset(), &["keychain", UDID, "reset"]);
}

#[test]
fn test_launch() {
    let path = "/dev/zero";
    let inv = device().launch("com.apple.mobilesafari").stdout(&path).stderr(&path).exec();
    assert_eq!(inv.program, SIMCTL);
    assert_eq!(args(&inv), vec!["launch", "--stdout=/dev/zero", "--stderr=/dev/zero", UDID, "com.apple.mobilesafari"]);
    assert_eq!(inv.stdout, Stream::Piped);
    assert_eq!(inv.stderr, Stream::Piped);
}

#[test]
fn test_open_url() {
    assert_simctl(&device().open_url("https://www.glacyr.com/"), &["openurl", UDID, "https://www.glacyr.com/"]);
}

#[test]
fn test_privacy_grant() {
    let inv = device().privacy().grant(PrivacyService::Location, "com.apple.Maps");
    assert_simctl(&inv, &["privacy", UDID, "grant", "location", "com.apple.Maps"]);
}

#[test]
fn test_privacy_revoke() {
    let inv = device().privacy().revoke(PrivacyService::Location, "com.apple.Maps");
    assert_simctl(&inv, &["privacy", UDID, "revoke", "location", "com.apple.Maps"]);
}

#[test]
fn test_privacy_reset() {
    let grant = device().privacy().grant(PrivacyService::Location, "com.apple.Maps");
    assert_simctl(&grant, &["privacy", UDID, "grant", "location", "com.apple.Maps"]);
    let inv = device().privacy().reset(PrivacyService::Location, "com.apple.Maps");
    assert_simctl(&inv, &["privacy", UDID, "reset", "location", "com.apple.Maps"]);
}

#[test]
fn test_privacy_reset_all() {
    let grant = device().privacy().grant(PrivacyService::Location, "com.apple.Maps");
    assert_simctl(&grant, &["privacy", UDID, "grant", "location", "com.apple.Maps"]);
    let inv = device().privacy().reset_all(PrivacyService::Location);
    assert_simctl(&inv, &["privacy", UDID, "reset", "location"]);
}

#[test]
fn test_push() {
    let payload = br#"{"aps":{"alert":{"body":"Hello World!"}}}"#.to_vec();
    let inv = device().push("com.apple.mobilecal", payload.clone());
    assert_eq!(inv.program, SIMCTL);
    assert_eq!(args(&inv), vec!["push", UDID, "com.apple.mobilecal", "-"]);
    assert_eq!(inv.stdin, Some(payload));
}

#[test]
fn test_status_bar() {
    let inv = device()
        .status_bar()
        .empty_override()
        .time("00:00")
        .data_network(DataNetworkType::Cell4G)
        .cellular_mode(CellularMode::Active)
        .cellular_bars(3)
        .operator_name("Babel")
        .battery_state(BatteryState::Discharging)
        .battery_level(42)
        .apply();
    assert_simctl(
        &inv,
        &[
            "status_bar", UDID, "override", "--time", "00:00", "--dataNetwork", "4g", "--cellularMode", "active",
            "--cellularBars", "3", "--operatorName", "Babel", "--batteryState", "discharging", "--batteryLevel", "42",
        ],
    );
    assert_simctl(&device().status_bar().clear(), &["status_bar", UDID, "clear"]);
}

#[test]
fn test_terminate() {
    let launch = device().launch("com.apple.mobilesafari").exec();
    assert_eq!(args(&launch), vec!["launch", "--console", UDID, "com.apple.mobilesafari"]);
    assert_eq!(launch.stdout, Stream::Inherit);
    assert_simctl(&device().terminate("com.apple.mobilesafari"), &["terminate", UDID, "com.apple.mobilesafari"]);
    assert!(success(b"").validate().is_ok());
}

#[test]
fn test_appearance() {
    assert_simctl(&device().ui().set_appearance(Appearance::Dark), &["ui", UDID, "appearance", "dark"]);
    assert_simctl(&device().ui().appearance(), &["ui", UDID, "appearance"]);
    assert_eq!(simctl::ui::UI::read_appearance(success(b"dark\n")).unwrap(), Appearance::Dark);

    assert_simctl(&device().ui().set_appearance(Appearance::Light), &["ui", UDID, "appearance", "light"]);
    assert_eq!(simctl::ui::UI::read_appearance(success(b"light\n")).unwrap(), Appearance::Light);
}

#[test]
fn query_filters_by_availability_and_name() {
    let simctl = Simctl::new(None);
    let devices = vec![
        Device::new(simctl.clone(), info("iPhone 15", "A", "Booted", true)),
        Device::new(simctl.clone(), info("iPhone SE (2nd generation)", "B", "Shutdown", false)),
        Device::new(simctl.clone(), info("iPhone SE (2nd generation)", "C", "Shutdown", true)),
        Device::new(simctl.clone(), info("iPhone SE (2nd generation)", "D", "Booted", true)),
    ];
    let mut available: Available = devices.as_slice().available();
    assert_eq!(available.next().unwrap().info().udid, "A");
    assert_eq!(available.next().unwrap().info().udid, "C");
    let mut named: ByName = available.by_name("iPhone SE (2nd generation)");
    assert_eq!(named.next().unwrap().info().udid, "D");
    assert!(named.next().is_none());
    assert!(named.next().is_none());

    let mut all_named = devices.as_slice().by_name("iPhone SE (2nd generation)");
    assert_eq!(all_named.next().unwrap().info().udid, "B");
    let mut none = devices.as_slice().by_name("iPad");
    assert!(none.next().is_none());
}

#[test]
fn unsuccessful_exit_keeps_output_and_status() {
    let out = || failure(164, b"partial\n", b"Invalid device: nope\n");
    for r in [
        Device::read_env(out()).map(|_| ()),
        Device::read_app_container(out()).map(|_| ()),
        simctl::ui::UI::read_appearance(out()).map(|_| ()),
        simctl::io::IO::read_screenshot(out()).map(|_| ()),
        out().validate(),
        out().validate_with_output().map(|_| ()),
    ] {
        match r {
            Err(Error::Output { stdout, stderr, status }) => {
                assert_eq!(stdout, b"partial\n".to_vec());
                assert_eq!(stderr, b"Invalid device: nope\n".to_vec());
                assert_eq!(status.code, Some(164));
            }
            _ => panic!("expected the process failure"),
        }
    }
    let killed = Output { status: ExitStatus { code: None }, stdout: vec![], stderr: vec![] };
    assert!(matches!(killed.validate(), Err(Error::Output { status: ExitStatus { code: None }, .. })));
    assert!(success(b"").validate().is_ok());
}

#[test]
fn text_that_is_not_utf8_is_an_error() {
    assert!(matches!(Device::read_env(success(&[0xff, 0xfe])), Err(Error::Utf8(_))));
    assert!(matches!(Device::read_app_container(success(&[b'/', 0xc0])), Err(Error::Utf8(_))));
    assert!(matches!(simctl::ui::UI::read_appearance(success(&[0xed, 0xa0, 0x80])), Err(Error::Utf8(_))));
}

#[test]
fn reading_text_trims_whitespace() {
    assert_eq!(Device::read_env(success(b"  spaced value \t\n")).unwrap(), "spaced value");
    assert_eq!(Device::read_env(success("  caf\u{e9}\n".as_bytes())).unwrap(), "caf\u{e9}");
    assert_eq!(Device::read_env(success(b"\n\n")).unwrap(), "");
}
