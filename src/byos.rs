//! Request and response shapes of the device protocol.

use vstd::prelude::*;

use crate::battery_percent_of;
use crate::battery_percentage;
use crate::decimal::{decimal_string, decimal_text, i32_of_text, parse_i32, parse_u32, u32_of_text};

verus! {

/// What a device reports about itself in its request headers.
#[derive(Clone, Debug)]
pub struct DeviceInfo {
    /// MAC address (`ID` header), "unknown" where absent.
    pub mac_address: String,
    /// Battery voltage in millivolts (`Battery-Voltage` header, in volts).
    pub battery_voltage_mv: Option<u32>,
    /// Firmware version (`FW-Version` header).
    pub firmware_version: Option<String>,
    /// WiFi signal strength in dBm (`RSSI` header).
    pub rssi: Option<i32>,
    /// Current refresh rate in seconds (`Refresh-Rate` header).
    pub refresh_rate: Option<u32>,
}

/// Reply to `GET /api/display`.
#[derive(Clone, Debug)]
pub struct DisplayResponse {
    /// 0 for success, 1 for an error.
    pub status: u32,
    pub image_url: String,
    /// The device redraws only when this differs from the previous one.
    pub filename: Option<String>,
    pub update_firmware: bool,
    /// Set only together with `update_firmware`.
    pub firmware_url: Option<String>,
    /// Seconds until the next poll, as decimal text.
    pub refresh_rate: String,
    pub reset_firmware: bool,
}

/// Reply to `GET /api/setup`.
#[derive(Clone, Debug)]
pub struct SetupResponse {
    pub api_key: String,
    pub friendly_id: String,
    pub image_url: String,
    pub message: String,
}

/// Reply to `POST /api/log`.
#[derive(Clone, Debug)]
pub struct LogResponse {
    pub status: String,
}

pub open spec fn text_view(o: Option<String>) -> Option<Seq<char>> {
    match o {
        Some(s) => Some(s@),
        None => None,
    }
}

pub open spec fn str_view(o: Option<&str>) -> Option<Seq<char>> {
    match o {
        Some(s) => Some(s@),
        None => None,
    }
}

/// The last four characters of a MAC address, or all of a shorter one.
pub open spec fn short_id_of(mac: Seq<char>) -> Seq<char> {
    if mac.len() >= 4 {
        mac.skip(mac.len() - 4)
    } else {
        mac
    }
}

impl DeviceInfo {
    /// A device known only by its MAC address.
    pub fn new(mac_address: &str) -> (r: Self)
        ensures
            r.mac_address@ == mac_address@,
            r.battery_voltage_mv.is_none(),
            r.firmware_version.is_none(),
            r.rssi.is_none(),
            r.refresh_rate.is_none(),
    {
        DeviceInfo {
            mac_address: String::from_str(mac_address),
            battery_voltage_mv: None,
            firmware_version: None,
            rssi: None,
            refresh_rate: None,
        }
    }

    /// Builds the record from the raw header values. A missing `ID` gives
    /// "unknown"; a number that does not parse counts as absent.
    pub fn from_headers(
        id: Option<&str>,
        battery_voltage_mv: Option<u32>,
        firmware_version: Option<&str>,
        rssi: Option<&str>,
        refresh_rate: Option<&str>,
    ) -> (r: Self)
        ensures
            id matches Some(m) ==> r.mac_address@ == m@,
            id.is_none() ==> r.mac_address@ == "unknown"@,
            r.battery_voltage_mv == battery_voltage_mv,
            text_view(r.firmware_version) == str_view(firmware_version),
            rssi.is_none() ==> r.rssi.is_none(),
            rssi matches Some(s) ==> r.rssi == i32_of_text(s@),
            refresh_rate.is_none() ==> r.refresh_rate.is_none(),
            refresh_rate matches Some(s) ==> r.refresh_rate == u32_of_text(s@),
    {
        let mac_address = match id {
            Some(m) => String::from_str(m),
            None => String::from_str("unknown"),
        };
        let firmware_version = match firmware_version {
            Some(v) => Some(String::from_str(v)),
            None => None,
        };
        let rssi = match rssi {
            Some(s) => parse_i32(s),
            None => None,
        };
        let refresh_rate = match refresh_rate {
            Some(s) => parse_u32(s),
            None => None,
        };
        DeviceInfo { mac_address, battery_voltage_mv, firmware_version, rssi, refresh_rate }
    }

    pub fn with_battery_voltage_mv(self, voltage_mv: u32) -> (r: Self)
        ensures
            r == (DeviceInfo { battery_voltage_mv: Some(voltage_mv), ..self }),
    {
        DeviceInfo { battery_voltage_mv: Some(voltage_mv), ..self }
    }

    pub fn with_firmware_version(self, version: &str) -> (r: Self)
        ensures
            text_view(r.firmware_version) == Some(version@),
            r.mac_address == self.mac_address,
            r.battery_voltage_mv == self.battery_voltage_mv,
            r.rssi == self.rssi,
            r.refresh_rate == self.refresh_rate,
    {
        DeviceInfo { firmware_version: Some(String::from_str(version)), ..self }
    }

    pub fn with_rssi(self, rssi: i32) -> (r: Self)
        ensures
            r == (DeviceInfo { rssi: Some(rssi), ..self }),
    {
        DeviceInfo { rssi: Some(rssi), ..self }
    }

    pub fn with_refresh_rate(self, rate: u32) -> (r: Self)
        ensures
            r == (DeviceInfo { refresh_rate: Some(rate), ..self }),
    {
        DeviceInfo { refresh_rate: Some(rate), ..self }
    }

    /// Battery voltage in millivolts, if reported.
    pub fn battery_voltage_mv(&self) -> (r: Option<u32>)
        ensures
            r == self.battery_voltage_mv,
    {
        self.battery_voltage_mv
    }

    /// Battery charge in percent, if the voltage was reported.
    pub fn battery_percentage(&self) -> (r: Option<u8>)
        ensures
            self.battery_voltage_mv.is_none() ==> r.is_none(),
            self.battery_voltage_mv matches Some(mv) ==> (r matches Some(p) && p as nat
                == battery_percent_of(mv as nat)),
    {
        match self.battery_voltage_mv {
            Some(mv) => Some(battery_percentage(mv)),
            None => None,
        }
    }

    /// The last four characters of the MAC address, or all of it when
    /// shorter.
    pub fn short_id(&self) -> (r: &str)
        ensures
            r@ == short_id_of(self.mac_address@),
    {
        let s = self.mac_address.as_str();
        let len = s.unicode_len();
        if len >= 4 {
            s.substring_char(len - 4, len)
        } else {
            assert(s@.subrange(0, len as int) =~= s@);
            s.substring_char(0, len)
        }
    }
}

impl DisplayResponse {
    /// A success reply showing `image_url`, refreshed every 60 seconds.
    pub fn new(image_url: &str, filename: &str) -> (r: Self)
        ensures
            r.status == 0,
            r.image_url@ == image_url@,
            text_view(r.filename) == Some(filename@),
            !r.update_firmware,
            r.firmware_url.is_none(),
            r.refresh_rate@ == decimal_text(60),
            !r.reset_firmware,
    {
        DisplayResponse {
            status: 0,
            image_url: String::from_str(image_url),
            filename: Some(String::from_str(filename)),
            update_firmware: false,
            firmware_url: None,
            refresh_rate: decimal_string(60),
            reset_firmware: false,
        }
    }

    /// The same reply with a refresh rate of `seconds`.
    pub fn with_refresh_rate(self, seconds: u32) -> (r: Self)
        ensures
            r.refresh_rate@ == decimal_text(seconds as nat),
            r.status == self.status,
            r.image_url == self.image_url,
            r.filename == self.filename,
            r.update_firmware == self.update_firmware,
            r.firmware_url == self.firmware_url,
            r.reset_firmware == self.reset_firmware,
    {
        DisplayResponse { refresh_rate: decimal_string(seconds as u64), ..self }
    }

    /// The same reply, asking the device to update from `firmware_url`.
    pub fn with_firmware_update(self, firmware_url: &str) -> (r: Self)
        ensures
            r.update_firmware,
            text_view(r.firmware_url) == Some(firmware_url@),
            r.status == self.status,
            r.image_url == self.image_url,
            r.filename == self.filename,
            r.refresh_rate == self.refresh_rate,
            r.reset_firmware == self.reset_firmware,
    {
        DisplayResponse {
            update_firmware: true,
            firmware_url: Some(String::from_str(firmware_url)),
            ..self
        }
    }

    /// The same reply, asking the device to reset.
    pub fn with_reset(self) -> (r: Self)
        ensures
            r == (DisplayResponse { reset_firmware: true, ..self }),
    {
        DisplayResponse { reset_firmware: true, ..self }
    }

    /// The error reply: status 1, no image, retry in 300 seconds.
    pub fn error() -> (r: Self)
        ensures
            r.status == 1,
            r.image_url@.len() == 0,
            r.filename.is_none(),
            !r.update_firmware,
            r.firmware_url.is_none(),
            r.refresh_rate@ == decimal_text(300),
            !r.reset_firmware,
    {
        DisplayResponse {
            status: 1,
            image_url: String::new(),
            filename: None,
            update_firmware: false,
            firmware_url: None,
            refresh_rate: decimal_string(300),
            reset_firmware: false,
        }
    }
}

impl Default for DisplayResponse {
    /// A success reply with no image, refreshed every 60 seconds.
    fn default() -> (r: Self)
        ensures
            r.status == 0,
            r.image_url@.len() == 0,
            r.filename.is_none(),
            !r.update_firmware,
            r.firmware_url.is_none(),
            r.refresh_rate@ == decimal_text(60),
            !r.reset_firmware,
    {
        DisplayResponse {
            status: 0,
            image_url: String::new(),
            filename: None,
            update_firmware: false,
            firmware_url: None,
            refresh_rate: decimal_string(60),
            reset_firmware: false,
        }
    }
}

impl SetupResponse {
    /// The setup reply, with API key "byos".
    pub fn new(friendly_id: &str, image_url: &str, message: &str) -> (r: Self)
        ensures
            r.api_key@ == "byos"@,
            r.friendly_id@ == friendly_id@,
            r.image_url@ == image_url@,
            r.message@ == message@,
    {
        SetupResponse {
            api_key: String::from_str("byos"),
            friendly_id: String::from_str(friendly_id),
            image_url: String::from_str(image_url),
            message: String::from_str(message),
        }
    }
}

impl LogResponse {
    /// The reply to a received log: status "ok".
    pub fn ok() -> (r: Self)
        ensures
            r.status@ == "ok"@,
    {
        LogResponse { status: String::from_str("ok") }
    }
}

impl Default for LogResponse {
    fn default() -> (r: Self)
        ensures
            r.status@ == "ok"@,
    {
        LogResponse::ok()
    }
}

} // verus!
