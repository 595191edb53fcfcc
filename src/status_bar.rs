//! Supporting types for the `simctl status_bar` subcommand.
use vstd::prelude::*;

use crate::device::Device;
use crate::process::Invocation;
use crate::text::{decimal, decimal_text};

verus! {

/// Controls the battery state that is shown in the status bar.
#[derive(Clone, Copy, Debug, PartialEq, Eq, Structural)]
pub enum BatteryState {
    /// The battery is charging.
    Charging,
    /// The battery is fully charged.
    Charged,
    /// The battery is discharging (disconnected from external power).
    Discharging,
}

impl BatteryState {
    /// The token that `simctl` takes for this state.
    pub open spec fn token(self) -> Seq<char> {
        match self {
            BatteryState::Charging => "charging"@,
            BatteryState::Charged => "charged"@,
            BatteryState::Discharging => "discharging"@,
        }
    }

    fn token_text(&self) -> (r: &'static str)
        ensures
            r@ == self.token(),
    {
        match self {
            BatteryState::Charging => "charging",
            BatteryState::Charged => "charged",
            BatteryState::Discharging => "discharging",
        }
    }
}

/// Controls the cellular mode that is shown in the status bar.
#[derive(Clone, Copy, Debug, PartialEq, Eq, Structural)]
pub enum CellularMode {
    /// The device does not support cellular connectivity.
    NotSupported,
    /// The device is searching for a cellular network.
    Searching,
    /// The device failed to find a cellular network.
    Failed,
    /// The device is connected to a cellular network.
    Active,
}

impl CellularMode {
    /// The token that `simctl` takes for this mode.
    pub open spec fn token(self) -> Seq<char> {
        match self {
            CellularMode::NotSupported => "notSupported"@,
            CellularMode::Searching => "searching"@,
            CellularMode::Failed => "failed"@,
            CellularMode::Active => "active"@,
        }
    }

    fn token_text(&self) -> (r: &'static str)
        ensures
            r@ == self.token(),
    {
        match self {
            CellularMode::NotSupported => "notSupported",
            CellularMode::Searching => "searching",
            CellularMode::Failed => "failed",
            CellularMode::Active => "active",
        }
    }
}

/// Controls the data network that is shown in the status bar.
#[derive(Clone, Copy, Debug, PartialEq, Eq, Structural)]
pub enum DataNetworkType {
    /// A Wi-Fi network.
    Wifi,
    /// A 3G cellular network.
    Cell3G,
    /// A 4G cellular network.
    Cell4G,
    /// An LTE cellular network.
    CellLte,
    /// An LTE-Advanced cellular network.
    CellLteA,
    /// An LTE+ cellular network.
    CellLtePlus,
}

impl DataNetworkType {
    /// The token that `simctl` takes for this network type.
    pub open spec fn token(self) -> Seq<char> {
        match self {
            DataNetworkType::Wifi => "wifi"@,
            DataNetworkType::Cell3G => "3g"@,
            DataNetworkType::Cell4G => "4g"@,
            DataNetworkType::CellLte => "lte"@,
            DataNetworkType::CellLteA => "lte-a"@,
            DataNetworkType::CellLtePlus => "lte+"@,
        }
    }

    fn token_text(&self) -> (r: &'static str)
        ensures
            r@ == self.token(),
    {
        match self {
            DataNetworkType::Wifi => "wifi",
            DataNetworkType::Cell3G => "3g",
            DataNetworkType::Cell4G => "4g",
            DataNetworkType::CellLte => "lte",
            DataNetworkType::CellLteA => "lte-a",
            DataNetworkType::CellLtePlus => "lte+",
        }
    }
}

/// Controls the Wi-Fi mode that is shown in the status bar.
#[derive(Clone, Copy, Debug, PartialEq, Eq, Structural)]
pub enum WifiMode {
    /// The device is searching for a Wi-Fi network.
    Searching,
    /// The device failed to find a Wi-Fi network.
    Failed,
    /// The device is connected to a Wi-Fi network.
    Active,
}

impl WifiMode {
    /// The token that `simctl` takes for this mode.
    pub open spec fn token(self) -> Seq<char> {
        match self {
            WifiMode::Searching => "searching"@,
            WifiMode::Failed => "failed"@,
            WifiMode::Active => "active"@,
        }
    }

    fn token_text(&self) -> (r: &'static str)
        ensures
            r@ == self.token(),
    {
        match self {
            WifiMode::Searching => "searching",
            WifiMode::Failed => "failed",
            WifiMode::Active => "active",
        }
    }
}

/// A flag and its value, or nothing where there is no value.
pub open spec fn flag(name: Seq<char>, value: Option<Seq<char>>) -> Seq<Seq<char>> {
    match value {
        Some(v) => seq![name, v],
        None => Seq::empty(),
    }
}

/// Appends a flag and its value to the arguments of `inv`.
fn push_flag(inv: &mut Invocation, name: &str, value: &str)
    ensures
        final(inv).arg_texts() == old(inv).arg_texts() + seq![name@, value@],
        final(inv).program == old(inv).program,
        final(inv).envs == old(inv).envs,
        final(inv).stdin == old(inv).stdin,
        final(inv).stdout == old(inv).stdout,
        final(inv).stderr == old(inv).stderr,
{
    inv.arg(name);
    inv.arg(value);
    proof {
        assert(final(inv).arg_texts() =~= old(inv).arg_texts() + seq![name@, value@]);
    }
}

/// Wrapper around the `simctl status_bar` subcommand.
pub struct StatusBar {
    pub device: Device,
}

impl Device {
    /// Returns a wrapper around the `simctl status_bar` subcommand.
    pub fn status_bar(&self) -> (r: StatusBar)
        ensures
            r.device == *self,
    {
        StatusBar { device: self.clone() }
    }
}

impl StatusBar {
    /// Returns the call that clears any earlier override.
    pub fn clear(&self) -> (r: Invocation)
        ensures
            self.device.simctl.runs(r, seq!["status_bar"@, self.device.info.udid@, "clear"@]),
    {
        let mut inv = self.device.subcommand("status_bar");
        inv.arg("clear");
        proof {
            assert(inv.arg_texts() =~= seq!["status_bar"@, self.device.info.udid@, "clear"@]);
        }
        inv
    }

    /// Returns an empty override that can be applied to this status bar.
    pub fn empty_override(&self) -> (r: StatusBarOverride)
        ensures
            r.device == self.device,
            r.time is None,
            r.data_network is None,
            r.wifi_mode is None,
            r.wifi_bars is None,
            r.cellular_mode is None,
            r.cellular_bars is None,
            r.operator_name is None,
            r.battery_state is None,
            r.battery_level is None,
    {
        StatusBarOverride {
            device: self.device.clone(),
            time: None,
            data_network: None,
            wifi_mode: None,
            wifi_bars: None,
            cellular_mode: None,
            cellular_bars: None,
            operator_name: None,
            battery_state: None,
            battery_level: None,
        }
    }
}

/// Builder of a status bar override; each value that is set replaces what
/// the status bar shows.
pub struct StatusBarOverride {
    pub device: Device,
    pub time: Option<String>,
    pub data_network: Option<DataNetworkType>,
    pub wifi_mode: Option<WifiMode>,
    pub wifi_bars: Option<usize>,
    pub cellular_mode: Option<CellularMode>,
    pub cellular_bars: Option<usize>,
    pub operator_name: Option<String>,
    pub battery_state: Option<BatteryState>,
    pub battery_level: Option<usize>,
}

/// The text of an optional string.
pub open spec fn text_of(s: Option<String>) -> Option<Seq<char>> {
    match s {
        Some(t) => Some(t@),
        None => None,
    }
}

/// The decimal text of an optional number.
pub open spec fn decimal_of(n: Option<usize>) -> Option<Seq<char>> {
    match n {
        Some(v) => Some(decimal(v as nat)),
        None => None,
    }
}

impl StatusBarOverride {
    /// The arguments of the call that applies this override: the flags that
    /// pass the values that are set, in a fixed order.
    pub open spec fn override_args(self) -> Seq<Seq<char>> {
        seq!["status_bar"@, self.device.info.udid@, "override"@] + flag(
            "--time"@,
            text_of(self.time),
        ) + flag(
            "--dataNetwork"@,
            match self.data_network {
                Some(n) => Some(n.token()),
                None => None,
            },
        ) + flag(
            "--wifiMode"@,
            match self.wifi_mode {
                Some(m) => Some(m.token()),
                None => None,
            },
        ) + flag("--wifiBars"@, decimal_of(self.wifi_bars)) + flag(
            "--cellularMode"@,
            match self.cellular_mode {
                Some(m) => Some(m.token()),
                None => None,
            },
        ) + flag("--cellularBars"@, decimal_of(self.cellular_bars)) + flag(
            "--operatorName"@,
            text_of(self.operator_name),
        ) + flag(
            "--batteryState"@,
            match self.battery_state {
                Some(s) => Some(s.token()),
                None => None,
            },
        ) + flag("--batteryLevel"@, decimal_of(self.battery_level))
    }

    /// Sets the time that is shown in the status bar.
    pub fn time(&mut self, time: &str) -> (r: &mut StatusBarOverride)
        ensures
            r.time matches Some(t) && t@ == time@,
            *r == (StatusBarOverride { time: r.time, ..*old(self) }),
            *final(self) == *final(r),
    {
        self.time = Some(time.to_owned());
        self
    }

    /// Sets the data network type that is shown in the status bar (e.g. 3G
    /// or 4G).
    pub fn data_network(&mut self, data_network: DataNetworkType) -> (r: &mut StatusBarOverride)
        ensures
            *r == (StatusBarOverride { data_network: Some(data_network), ..*old(self) }),
            *final(self) == *final(r),
    {
        self.data_network = Some(data_network);
        self
    }

    /// Sets the Wi-Fi mode that is shown in the status bar.
    pub fn wifi_mode(&mut self, wifi_mode: WifiMode) -> (r: &mut StatusBarOverride)
        ensures
            *r == (StatusBarOverride { wifi_mode: Some(wifi_mode), ..*old(self) }),
            *final(self) == *final(r),
    {
        self.wifi_mode = Some(wifi_mode);
        self
    }

    /// Sets the number of Wi-Fi bars that are shown in the status bar; it
    /// shows only in Wi-Fi mode [`WifiMode::Active`].
    pub fn wifi_bars(&mut self, wifi_bars: usize) -> (r: &mut StatusBarOverride)
        ensures
            *r == (StatusBarOverride { wifi_bars: Some(wifi_bars), ..*old(self) }),
            *final(self) == *final(r),
    {
        self.wifi_bars = Some(wifi_bars);
        self
    }

    /// Sets the cellular mode that is shown in the status bar.
    pub fn cellular_mode(&mut self, cellular_mode: CellularMode) -> (r: &mut StatusBarOverride)
        ensures
            *r == (StatusBarOverride { cellular_mode: Some(cellular_mode), ..*old(self) }),
            *final(self) == *final(r),
    {
        self.cellular_mode = Some(cellular_mode);
        self
    }

    /// Sets the number of cellular bars that are shown in the status bar; it
    /// shows only in cellular mode [`CellularMode::Active`].
    pub fn cellular_bars(&mut self, cellular_bars: usize) -> (r: &mut StatusBarOverride)
        ensures
            *r == (StatusBarOverride { cellular_bars: Some(cellular_bars), ..*old(self) }),
            *final(self) == *final(r),
    {
        self.cellular_bars = Some(cellular_bars);
        self
    }

    /// Sets the operator name that is shown in the status bar; it shows only
    /// in cellular mode [`CellularMode::Active`].
    pub fn operator_name(&mut self, name: &str) -> (r: &mut StatusBarOverride)
        ensures
            r.operator_name matches Some(t) && t@ == name@,
            *r == (StatusBarOverride { operator_name: r.operator_name, ..*old(self) }),
            *final(self) == *final(r),
    {
        self.operator_name = Some(name.to_owned());
        self
    }

    /// Sets the battery state that is shown in the status bar.
    pub fn battery_state(&mut self, state: BatteryState) -> (r: &mut StatusBarOverride)
        ensures
            *r == (StatusBarOverride { battery_state: Some(state), ..*old(self) }),
            *final(self) == *final(r),
    {
        self.battery_state = Some(state);
        self
    }

    /// Sets the battery level that is shown in the status bar; it shows only
    /// in battery state [`BatteryState::Discharging`].
    pub fn battery_level(&mut self, level: usize) -> (r: &mut StatusBarOverride)
        ensures
            *r == (StatusBarOverride { battery_level: Some(level), ..*old(self) }),
            *final(self) == *final(r),
    {
        self.battery_level = Some(level);
        self
    }

    /// Returns the call that applies this override to the status bar.
    pub fn apply(&self) -> (r: Invocation)
        ensures
            self.device.simctl.runs(r, self.override_args()),
    {
        let mut inv = self.device.subcommand("status_bar");
        inv.arg("override");
        proof {
            assert(inv.arg_texts() =~= seq!["status_bar"@, self.device.info.udid@, "override"@]);
        }
        let time = match &self.time {
            Some(t) => Some(t.as_str()),
            None => None,
        };
        push_optional_flag(&mut inv, "--time", time);
        let network = match &self.data_network {
            Some(n) => Some(n.token_text()),
            None => None,
        };
        push_optional_flag(&mut inv, "--dataNetwork", network);
        let wifi_mode = match &self.wifi_mode {
            Some(m) => Some(m.token_text()),
            None => None,
        };
        push_optional_flag(&mut inv, "--wifiMode", wifi_mode);
        let wifi_bars = optional_decimal(self.wifi_bars);
        push_optional_flag(&mut inv, "--wifiBars", optional_str(&wifi_bars));
        let cellular_mode = match &self.cellular_mode {
            Some(m) => Some(m.token_text()),
            None => None,
        };
        push_optional_flag(&mut inv, "--cellularMode", cellular_mode);
        let cellular_bars = optional_decimal(self.cellular_bars);
        push_optional_flag(&mut inv, "--cellularBars", optional_str(&cellular_bars));
        let operator = match &self.operator_name {
            Some(t) => Some(t.as_str()),
            None => None,
        };
        push_optional_flag(&mut inv, "--operatorName", operator);
        let battery_state = match &self.battery_state {
            Some(st) => Some(st.token_text()),
            None => None,
        };
        push_optional_flag(&mut inv, "--batteryState", battery_state);
        let battery_level = optional_decimal(self.battery_level);
        push_optional_flag(&mut inv, "--batteryLevel", optional_str(&battery_level));
        inv
    }
}

/// The text of an optional string slice.
pub open spec fn str_text(s: Option<&str>) -> Option<Seq<char>> {
    match s {
        Some(t) => Some(t@),
        None => None,
    }
}

/// Appends a flag and its value to the arguments of `inv` where there is a
/// value.
fn push_optional_flag(inv: &mut Invocation, name: &str, value: Option<&str>)
    ensures
        final(inv).arg_texts() == old(inv).arg_texts() + flag(name@, str_text(value)),
        final(inv).program == old(inv).program,
        final(inv).envs == old(inv).envs,
        final(inv).stdin == old(inv).stdin,
        final(inv).stdout == old(inv).stdout,
        final(inv).stderr == old(inv).stderr,
{
    match value {
        Some(v) => push_flag(inv, name, v),
        None => {
            proof {
                assert(old(inv).arg_texts() + flag(name@, str_text(value)) =~= old(inv).arg_texts());
            }
        },
    }
}

/// Renders an optional number in decimal.
fn optional_decimal(n: Option<usize>) -> (r: Option<String>)
    ensures
        text_of(r) == decimal_of(n),
{
    match n {
        Some(v) => Some(decimal_text(v)),
        None => None,
    }
}

/// Borrows the text of an optional string.
fn optional_str(s: &Option<String>) -> (r: Option<&str>)
    ensures
        str_text(r) == text_of(*s),
{
    match s {
        Some(t) => Some(t.as_str()),
        None => None,
    }
}

} // verus!
