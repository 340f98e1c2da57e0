//! Satellite configuration (`cfg.toml`, baked in at build time) and the
//! sanity checks applied to it at boot.
use vstd::prelude::*;
use vstd::string::*;
use crate::text::{decimal, u64_to_decimal};

verus! {

/// The satellite's settings; every field falls back to a default when
/// `cfg.toml` does not set it.
pub struct Config {
    pub wifi_ssid: &'static str,
    pub wifi_pass: &'static str,
    pub mqtt_url: &'static str,
    pub sat_id: &'static str,
    pub locale: &'static str,
    /// Must match the server's `[mqtt] topic_root`. A mismatch is silent:
    /// the satellite publishes into a namespace nothing subscribes to.
    pub topic_root: &'static str,
}

impl Default for Config {
    /// The defaults used when `cfg.toml` is absent.
    fn default() -> (c: Self)
        ensures
            c.wifi_ssid@ == ""@,
            c.wifi_pass@ == ""@,
            c.mqtt_url@ == "mqtt://127.0.0.1:1883"@,
            c.sat_id@ == "esp32-sat"@,
            c.locale@ == "fr"@,
            c.topic_root@ == "assist"@,
    {
        Config {
            wifi_ssid: "",
            wifi_pass: "",
            mqtt_url: "mqtt://127.0.0.1:1883",
            sat_id: "esp32-sat",
            locale: "fr",
            topic_root: "assist",
        }
    }
}

/// Longest plausible value for any config string, in bytes. A longer value
/// means the baked-in constant is not the one this source generated (a
/// stale or partially written flash).
pub const MAX_LEN: usize = 512;

/// Returns `value` when its length is plausible, else `fallback`, so a
/// corrupt constant degrades to a working default instead of aborting the
/// boot.
pub fn checked(value: &'static str, name: &str, fallback: &'static str) -> (r: &'static str)
    ensures
        r == (if value.len() > MAX_LEN { fallback } else { value }),
{
    if value.len() > MAX_LEN {
        return fallback;
    }
    value
}

/// The boot-time report of every field's length (lengths only, never the
/// values, so no secret is printed):
/// `config lengths: ssid=… pass=… url=… sat_id=… locale=… topic_root=…`.
pub fn log_lengths(cfg: &Config) -> (line: String)
    ensures
        line@ == "config lengths: ssid="@ + decimal(cfg.wifi_ssid.len() as nat)
            + " pass="@ + decimal(cfg.wifi_pass.len() as nat)
            + " url="@ + decimal(cfg.mqtt_url.len() as nat)
            + " sat_id="@ + decimal(cfg.sat_id.len() as nat)
            + " locale="@ + decimal(cfg.locale.len() as nat)
            + " topic_root="@ + decimal(cfg.topic_root.len() as nat),
{
    let mut line = String::from_str("config lengths: ssid=");
    line.append(u64_to_decimal(cfg.wifi_ssid.len() as u64).as_str());
    line.append(" pass=");
    line.append(u64_to_decimal(cfg.wifi_pass.len() as u64).as_str());
    line.append(" url=");
    line.append(u64_to_decimal(cfg.mqtt_url.len() as u64).as_str());
    line.append(" sat_id=");
    line.append(u64_to_decimal(cfg.sat_id.len() as u64).as_str());
    line.append(" locale=");
    line.append(u64_to_decimal(cfg.locale.len() as u64).as_str());
    line.append(" topic_root=");
    line.append(u64_to_decimal(cfg.topic_root.len() as u64).as_str());
    line
}

} // verus!
