use simctl::get_app_container::Container;
use simctl::io::{Display, ImageType, Mask};
use simctl::list::{DeviceInfo, DevicePair, DevicePairState, DeviceState, DeviceSummary, ListOutput};
use simctl::privacy::PrivacyService;
use simctl::status_bar::{BatteryState, CellularMode, DataNetworkType, WifiMode};
use simctl::ui::Appearance;
use simctl::{Device, ExitStatus, Invocation, Output, Simctl, Stream};

fn info(name: &str, udid: &str) -> DeviceInfo {
    DeviceInfo {
        runtime_identifier: "left over".to_owned(),
        availability_error: Some("runtime profile not found".to_owned()),
        data_path: format!("/data/{}", udid),
        log_path: format!("/log/{}", udid),
        udid: udid.to_owned(),
        is_available: false,
        device_type_identifier: String::new(),
        state: DeviceState::Shutdown,
        name: name.to_owned(),
    }
}

fn summary(name: &str, udid: &str) -> DeviceSummary {
    DeviceSummary { name: name.to_owned(), udid: udid.to_owned(), state: DeviceState::Booted }
}

fn device() -> Device {
    let mut i = info("iPhone 15", "U1");
    i.is_available = true;
    Device::new(Simctl::with_developer_dir("/Dev"), i)
}

fn args(inv: &Invocation) -> Vec<&str> {
    inv.args.iter().map(|a| a.as_str()).collect()
}

fn success(stdout: &[u8]) -> Output {
    Output { status: ExitStatus { code: Some(0) }, stdout: stdout.to_vec(), stderr: vec![] }
}

#[test]
fn appearance_tokens_read_back() {
    for a in [Appearance::Light, Appearance::Dark, Appearance::Custom("unsupported".to_owned())] {
        assert_eq!(Appearance::from_name(a.name()), a);
    }
    assert_eq!(Appearance::Light.name(), "light");
    assert_eq!(Appearance::Dark.name(), "dark");
    assert_eq!(Appearance::from_name("Dark"), Appearance::Custom("Dark".to_owned()));
    assert_eq!(Appearance::from_name(""), Appearance::Custom(String::new()));
    // A custom appearance spelled like a mode reads back as that mode.
    assert_eq!(Appearance::from_name(Appearance::Custom("light".to_owned()).name()), Appearance::Light);
    assert_eq!(simctl::ui::UI::read_appearance(success(b"unsupported\n")).unwrap(), Appearance::Custom("unsupported".to_owned()));
}

#[test]
fn state_tokens_read_back() {
    assert_eq!(DeviceState::from_name("Booted"), DeviceState::Booted);
    assert_eq!(DeviceState::from_name("Shutdown"), DeviceState::Shutdown);
    assert_eq!(DeviceState::from_name("Shutting Down"), DeviceState::Unknown);
    assert_eq!(DeviceState::from_name("booted"), DeviceState::Unknown);
    assert_eq!(DevicePairState::from_name("(unavailable)"), DevicePairState::Unavailable);
    assert_eq!(DevicePairState::from_name("(active, disconnected)"), DevicePairState::ActiveDisconnected);
    assert_eq!(DevicePairState::from_name("(active, connected)"), DevicePairState::Unknown);
}

#[test]
fn listing_copies_group_keys() {
    let doc = ListOutput {
        device_types: vec![],
        runtimes: vec![],
        devices: vec![
            ("com.apple.CoreSimulator.SimRuntime.iOS-16-4".to_owned(), vec![info("iPhone 14", "A"), info("iPad", "B")]),
            ("com.apple.CoreSimulator.SimRuntime.tvOS-16-4".to_owned(), vec![]),
            ("com.apple.CoreSimulator.SimRuntime.watchOS-9-4".to_owned(), vec![info("Apple Watch", "C")]),
        ],
        pairs: vec![(
            "PAIR-1".to_owned(),
            DevicePair {
                udid: String::new(),
                watch: summary("Apple Watch", "C"),
                phone: summary("iPhone 14", "A"),
                state: DevicePairState::ActiveDisconnected,
            },
        )],
    };
    let simctl = Simctl::with_developer_dir("/Dev");
    let mut list = simctl.list(doc);
    let devices = list.devices();
    assert_eq!(devices.len(), 3);
    let seen: Vec<(&str, &str)> =
        devices.iter().map(|d| (d.info().udid.as_str(), d.info().runtime_identifier.as_str())).collect();
    assert_eq!(
        seen,
        vec![
            ("A", "com.apple.CoreSimulator.SimRuntime.iOS-16-4"),
            ("B", "com.apple.CoreSimulator.SimRuntime.iOS-16-4"),
            ("C", "com.apple.CoreSimulator.SimRuntime.watchOS-9-4"),
        ]
    );
    assert_eq!(devices[0].info().data_path, "/data/A");
    assert_eq!(devices[0].info().availability_error.as_deref(), Some("runtime profile not found"));
    assert_eq!(devices[2].simctl().developer_dir, "/Dev");
    assert_eq!(list.pairs().len(), 1);
    assert_eq!(list.pairs()[0].udid, "PAIR-1");
    assert_eq!(list.pairs()[0].watch.udid, "C");
    assert_eq!(list.pairs()[0].state, DevicePairState::ActiveDisconnected);

    list.refresh(ListOutput { device_types: vec![], runtimes: vec![], devices: vec![], pairs: vec![] });
    assert!(list.devices().is_empty());
    assert!(list.pairs().is_empty());
    assert!(list.device_types().is_empty());
    assert!(list.runtimes().is_empty());
}

#[test]
fn unset_variable_reads_as_empty() {
    assert_eq!(Device::read_env(success(b"")).unwrap(), "");
}

#[test]
fn redirected_launch_streams_are_not_inherited() {
    let only_stdout = device().launch("com.example.App").stdout("/tmp/out.log").exec();
    assert_eq!(args(&only_stdout), vec!["launch", "--stdout=/tmp/out.log", "U1", "com.example.App"]);
    assert_eq!(only_stdout.stdout, Stream::Piped);
    assert_eq!(only_stdout.stderr, Stream::Inherit);

    let only_stderr = device().launch("com.example.App").stderr("/tmp/err.log").exec();
    assert_eq!(only_stderr.stdout, Stream::Inherit);
    assert_eq!(only_stderr.stderr, Stream::Piped);

    let pty = device().launch("com.example.App").stdout("/tmp/out.log").use_pty(true).exec();
    assert_eq!(args(&pty), vec!["launch", "--console-pty", "U1", "com.example.App"]);
    assert_eq!(pty.stdout, Stream::Inherit);
}

#[test]
fn launch_passes_flags_arguments_and_environment() {
    let inv = device()
        .launch("com.example.App")
        .wait_for_debugger(true)
        .terminate_running_process(true)
        .arg("--verbose")
        .arg("two words")
        .env("API_URL", "http://localhost")
        .exec();
    assert_eq!(inv.program, "/Dev/usr/bin/simctl");
    assert_eq!(args(&inv), vec!["launch", "--wait-for-debugger", "--terminate-running-process", "--console", "U1", "com.example.App", "--verbose", "two words"]);
    assert_eq!(inv.envs, vec![("SIMCTL_CHILD_API_URL".to_owned(), "http://localhost".to_owned())]);

    let spawned = device()
        .launch("com.example.App")
        .terminate_running_process(true)
        .stdout("/tmp/out.log")
        .arg("-x")
        .spawn();
    assert_eq!(args(&spawned), vec!["launch", "--terminate-running-process", "--console", "U1", "com.example.App", "-x"]);
    assert_eq!(spawned.stdout, Stream::Piped);
    assert_eq!(spawned.stderr, Stream::Piped);

    let pty = device().launch("com.example.App").use_pty(true).spawn();
    assert_eq!(args(&pty), vec!["launch", "--console-pty", "U1", "com.example.App"]);
}

#[test]
fn boot_passes_prefixed_environment() {
    let inv = device().boot_with_env(vec![("A", "1"), ("LANG", "en_US.UTF-8")]);
    assert_eq!(args(&inv), vec!["boot", "U1"]);
    assert_eq!(
        inv.envs,
        vec![
            ("SIMCTL_CHILD_A".to_owned(), "1".to_owned()),
            ("SIMCTL_CHILD_LANG".to_owned(), "en_US.UTF-8".to_owned()),
        ]
    );
    assert!(device().boot_with_env(vec![]).envs.is_empty());
    assert_eq!(simctl::launch::child_env("X"), "SIMCTL_CHILD_X");
}

#[test]
fn developer_dir_resolution() {
    assert_eq!(Simctl::new(None).developer_dir, "/Applications/Xcode.app/Contents/Developer");
    assert_eq!(
        Simctl::new(Some("/Applications/Xcode-beta.app/Contents/Developer")).developer_dir,
        "/Applications/Xcode-beta.app/Contents/Developer"
    );
    assert_eq!(Simctl::with_xcode("/Applications/Xcode.app").developer_dir, "/Applications/Xcode.app/Contents/Developer");
    assert_eq!(Simctl::with_xcode("/Applications/Xcode.app/").developer_dir, "/Applications/Xcode.app/Contents/Developer");
    assert_eq!(Simctl::with_xcode("").developer_dir, "Contents/Developer");
    assert_eq!(Simctl::with_developer_dir("/Dev/").command("list").program, "/Dev/usr/bin/simctl");

    let open = Simctl::with_developer_dir("/Dev").open();
    assert_eq!(open.program, "open");
    assert_eq!(args(&open), vec!["/Dev/Applications/Simulator.app"]);
    assert_eq!(open.stdout, Stream::Null);
    assert_eq!(open.stderr, Stream::Null);
}

#[test]
fn numbers_render_in_decimal() {
    assert_eq!(simctl::text::decimal_text(0), "0");
    assert_eq!(simctl::text::decimal_text(7), "7");
    assert_eq!(simctl::text::decimal_text(10), "10");
    assert_eq!(simctl::text::decimal_text(42), "42");
    assert_eq!(simctl::text::decimal_text(100), "100");
    assert_eq!(simctl::text::decimal_text(usize::MAX), usize::MAX.to_string());
}

#[test]
fn status_bar_flags_keep_their_order() {
    let empty = device().status_bar().empty_override().apply();
    assert_eq!(args(&empty), vec!["status_bar", "U1", "override"]);

    let all = device()
        .status_bar()
        .empty_override()
        .battery_level(0)
        .battery_state(BatteryState::Charged)
        .operator_name("Carrier")
        .cellular_bars(0)
        .cellular_mode(CellularMode::NotSupported)
        .wifi_bars(2)
        .wifi_mode(WifiMode::Searching)
        .data_network(DataNetworkType::CellLtePlus)
        .time("9:41")
        .apply();
    assert_eq!(
        args(&all),
        vec![
            "status_bar", "U1", "override", "--time", "9:41", "--dataNetwork", "lte+", "--wifiMode", "searching",
            "--wifiBars", "2", "--cellularMode", "notSupported", "--cellularBars", "0", "--operatorName", "Carrier",
            "--batteryState", "charged", "--batteryLevel", "0",
        ]
    );
}

#[test]
fn option_tokens_are_the_tool_literals() {
    let tokens: Vec<String> = [
        PrivacyService::All,
        PrivacyService::Calendar,
        PrivacyService::ContactsLimited,
        PrivacyService::Contacts,
        PrivacyService::Location,
        PrivacyService::LocationAlways,
        PrivacyService::PhotosAdd,
        PrivacyService::Photos,
        PrivacyService::MediaLibrary,
        PrivacyService::Microphone,
        PrivacyService::Motion,
        PrivacyService::Reminders,
        PrivacyService::Siri,
    ]
    .iter()
    .map(|s| s.to_string())
    .collect();
    assert_eq!(
        tokens,
        vec![
            "all", "calendar", "contacts-limited", "contacts", "location", "location-always", "photos-add", "photos",
            "media-library", "microphone", "motion", "reminders", "siri",
        ]
    );

    let shots: Vec<Vec<String>> = [
        (ImageType::Tiff, Display::External, Mask::Alpha),
        (ImageType::Bmp, Display::Internal, Mask::Black),
        (ImageType::Gif, Display::Internal, Mask::Ignored),
        (ImageType::Jpeg, Display::External, Mask::Ignored),
    ]
    .iter()
    .map(|(t, d, m)| device().io().screenshot(*t, *d, *m).args[3..6].to_vec())
    .collect();
    assert_eq!(shots[0], vec!["--type=tiff", "--display=external", "--mask=alpha"]);
    assert_eq!(shots[1], vec!["--type=bmp", "--display=internal", "--mask=black"]);
    assert_eq!(shots[2][0], "--type=gif");
    assert_eq!(shots[3][0], "--type=jpeg");

    let networks: Vec<String> = [
        DataNetworkType::Wifi,
        DataNetworkType::Cell3G,
        DataNetworkType::Cell4G,
        DataNetworkType::CellLte,
        DataNetworkType::CellLteA,
        DataNetworkType::CellLtePlus,
    ]
    .iter()
    .map(|n| device().status_bar().empty_override().data_network(*n).apply().args[4].clone())
    .collect();
    assert_eq!(networks, vec!["wifi", "3g", "4g", "lte", "lte-a", "lte+"]);

    let wifi = device().status_bar().empty_override().wifi_mode(WifiMode::Failed).apply();
    assert_eq!(args(&wifi)[3..], ["--wifiMode", "failed"]);
    let cell = device().status_bar().empty_override().cellular_mode(CellularMode::Searching).apply();
    assert_eq!(args(&cell)[3..], ["--cellularMode", "searching"]);
    let battery = device().status_bar().empty_override().battery_state(BatteryState::Charging).apply();
    assert_eq!(args(&battery)[3..], ["--batteryState", "charging"]);

    let group = device().get_app_container("com.example.App", &Container::Group("group.com.example".to_owned()));
    assert_eq!(args(&group), vec!["get_app_container", "U1", "com.example.App", "group.com.example"]);
    let custom = device().ui().set_appearance(Appearance::Custom("unsupported".to_owned()));
    assert_eq!(args(&custom), vec!["ui", "U1", "appearance", "unsupported"]);
}
