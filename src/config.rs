//! Process-wide settings, built once at startup and only read afterwards.

use vstd::prelude::*;

verus! {

/// Which of the two candidates the device selector returns.
#[derive(Clone, Copy, Debug, PartialEq, Eq, Structural)]
pub enum SelectionMode {
    /// The first device whose advertised name contains a configured substring.
    ByName,
    /// The device with the strongest signal, the earliest seen on ties.
    StrongestSignal,
}

/// Heart Rate Measurement characteristic (0x2A37) as a 128-bit UUID.
pub const HEART_RATE_MEASUREMENT_UUID: u128 = 0x00002a37_0000_1000_8000_00805f9b34fb;

/// Heart Rate service (0x180D) as a 128-bit UUID.
pub const HEART_RATE_SERVICE_UUID: u128 = 0x0000180d_0000_1000_8000_00805f9b34fb;

pub struct Config {
    /// IPv4 address of the OSC receiver, most significant octet first.
    pub osc_ip: [u8; 4],
    pub osc_port: u16,
    /// Substrings of advertised names that mark a wanted device (case-sensitive).
    pub target_device_names: Vec<String>,
    pub heart_rate_char_uuid: u128,
    pub heart_rate_service_uuid: u128,
    /// The rate that maps to a full `hr_percent`; never zero.
    pub max_heart_rate_for_percent: u16,
    pub scan_duration_secs: u64,
    pub retry_delay_secs: u64,
    /// Seconds without a notification after which the link counts as dead.
    pub heartbeat_timeout_secs: u64,
    pub selection_mode: SelectionMode,
}

impl Config {
    pub open spec fn wf(&self) -> bool {
        self.max_heart_rate_for_percent > 0
    }

    /// The settings the relay ships with: OSC to 127.0.0.1:9000, the standard
    /// heart-rate service and characteristic, a ceiling of 200 for
    /// `hr_percent`, 5 s scans and retry delays, a 15 s idle timeout and
    /// selection by signal strength.
    pub fn standard() -> (r: Config)
        ensures
            r.wf(),
            r.osc_ip == [127u8, 0u8, 0u8, 1u8],
            r.osc_port == 9000,
            r.target_device_names@.len() == 4,
            r.target_device_names@[0]@ == "Xiaomi Smart Band 9"@,
            r.target_device_names@[1]@ == "Xiaomi Smart Band 10"@,
            r.target_device_names@[2]@ == "HUAWEI"@,
            r.target_device_names@[3]@ == "HONOR"@,
            r.heart_rate_char_uuid == HEART_RATE_MEASUREMENT_UUID,
            r.heart_rate_service_uuid == HEART_RATE_SERVICE_UUID,
            r.max_heart_rate_for_percent == 200,
            r.scan_duration_secs == 5,
            r.retry_delay_secs == 5,
            r.heartbeat_timeout_secs == 15,
            r.selection_mode == SelectionMode::StrongestSignal,
    {
        let mut names: Vec<String> = Vec::new();
        names.push("Xiaomi Smart Band 9".to_owned());
        names.push("Xiaomi Smart Band 10".to_owned());
        names.push("HUAWEI".to_owned());
        names.push("HONOR".to_owned());
        Config {
            osc_ip: [127u8, 0u8, 0u8, 1u8],
            osc_port: 9000,
            target_device_names: names,
            heart_rate_char_uuid: HEART_RATE_MEASUREMENT_UUID,
            heart_rate_service_uuid: HEART_RATE_SERVICE_UUID,
            max_heart_rate_for_percent: 200,
            scan_duration_secs: 5,
            retry_delay_secs: 5,
            heartbeat_timeout_secs: 15,
            selection_mode: SelectionMode::StrongestSignal,
        }
    }
}

} // verus!
