//! Configuration resolution. Every setting is resolved through the same
//! ordered fallback — the process environment wins over the `.env` file,
//! which wins over the built-in default — stated once, in
//! [`SettingSource::resolve`]. The numeric settings must parse; a value that
//! does not is fatal at startup, before the process serves anything.

use vstd::prelude::*;
use crate::text::{chars_of, dec_value, is_numeral_below, parse_u16, parse_u64, uint_digits};

verus! {

/// The application settings after one configuration load.
#[derive(Debug, Clone)]
pub struct AppConfig {
    /// The port the query surface listens on.
    pub listen_port: u16,
    /// The address it binds; "0.0.0.0" admits every interface.
    pub listen_address: String,
    /// Where log files go.
    pub log_dir: String,
    /// The log level name.
    pub log_level: String,
    /// Seconds between poll ticks; zero disables monitoring entirely and
    /// the scheduler is never started.
    pub observable_interval: u64,
    /// The webhook endpoint notifications are posted to; empty disables
    /// monitoring.
    pub chat_webhook_url: String,
    /// The channel the webhook posts into.
    pub chat_webhook_channel: String,
    /// The display name for this host in notifications.
    pub server_name: String,
}

/// A required startup value that could not be parsed. Fatal: the process
/// exits before serving.
#[derive(Debug, Clone, Copy, PartialEq, Eq, Structural)]
pub enum ConfigError {
    InvalidListenPort,
    InvalidObservableInterval,
}

/// The message a configuration failure is reported with.
pub open spec fn config_error_message(e: ConfigError) -> Seq<char> {
    match e {
        ConfigError::InvalidListenPort => "LISTEN_PORT cannot parse port number"@,
        ConfigError::InvalidObservableInterval
            => "OBSERVABLE_INTERVAL cannot parse interval seconds."@,
    }
}

impl ConfigError {
    /// The message this failure is reported with.
    pub fn message(&self) -> (m: String)
        ensures
            m@ == config_error_message(*self),
    {
        match self {
            ConfigError::InvalidListenPort => "LISTEN_PORT cannot parse port number".to_owned(),
            ConfigError::InvalidObservableInterval
                => "OBSERVABLE_INTERVAL cannot parse interval seconds.".to_owned(),
        }
    }
}

/// The two places one setting may come from: the process environment and
/// the `.env` file, each absent when unset there.
pub struct SettingSource {
    pub process: Option<String>,
    pub file: Option<String>,
}

/// The resolved text of one setting under the ordered fallback.
pub open spec fn resolved_value(source: SettingSource, default: Seq<char>) -> Seq<char> {
    match source.process {
        Option::Some(v) => v@,
        Option::None => match source.file {
            Option::Some(v) => v@,
            Option::None => default,
        },
    }
}

impl SettingSource {
    /// Resolves this setting: the process environment wins over the `.env`
    /// file, which wins over the given default.
    pub fn resolve(self, default: &str) -> (r: String)
        ensures
            r@ == resolved_value(self, default@),
    {
        match self.process {
            Option::Some(v) => v,
            Option::None => match self.file {
                Option::Some(v) => v,
                Option::None => default.to_owned(),
            },
        }
    }
}

/// Everything one configuration load reads, before resolution.
pub struct RawSettings {
    pub listen_address: SettingSource,
    pub listen_port: SettingSource,
    pub log_dir: SettingSource,
    pub log_level: SettingSource,
    pub observable_interval: SettingSource,
    pub chat_webhook_url: SettingSource,
    pub chat_webhook_channel: SettingSource,
    pub server_name: SettingSource,
    /// The host's machine name, the last fallback for the server name.
    pub computer_name: Option<String>,
}

/// The last fallback for the server name: the machine name, or nothing.
pub open spec fn fallback_name(computer_name: Option<String>) -> Seq<char> {
    match computer_name {
        Option::Some(v) => v@,
        Option::None => ""@,
    }
}

/// Whether the poll interval setting is fatal: a webhook URL is configured,
/// so the interval is needed, and its text does not parse.
pub open spec fn interval_fails(raw: RawSettings) -> bool {
    resolved_value(raw.chat_webhook_url, ""@).len() > 0 && !is_numeral_below(
        resolved_value(raw.observable_interval, "120"@),
        u64::MAX as int,
    )
}

/// Whether the listen port setting is fatal: its text does not parse.
pub open spec fn port_fails(raw: RawSettings) -> bool {
    !is_numeral_below(resolved_value(raw.listen_port, "9284"@), u16::MAX as int)
}

/// The poll interval a successful load yields: forced to zero — monitoring
/// disabled — whenever the webhook URL is empty.
pub open spec fn interval_value(raw: RawSettings) -> int {
    if resolved_value(raw.chat_webhook_url, ""@).len() == 0 {
        0
    } else {
        dec_value(uint_digits(resolved_value(raw.observable_interval, "120"@)))
    }
}

impl AppConfig {
    /// Resolves one configuration load, with the documented defaults. The
    /// interval is checked before the port, so when both fail the interval
    /// failure is the one reported.
    pub fn from_settings(raw: RawSettings) -> (r: Result<AppConfig, ConfigError>)
        ensures
            r is Err <==> interval_fails(raw) || port_fails(raw),
            interval_fails(raw) ==> r == Result::<AppConfig, ConfigError>::Err(
                ConfigError::InvalidObservableInterval,
            ),
            !interval_fails(raw) && port_fails(raw) ==> r == Result::<
                AppConfig,
                ConfigError,
            >::Err(ConfigError::InvalidListenPort),
            r matches Ok(c) ==> c.listen_address@ == resolved_value(raw.listen_address, "0.0.0.0"@)
                && c.listen_port as int == dec_value(
                uint_digits(resolved_value(raw.listen_port, "9284"@)),
            ) && c.log_dir@ == resolved_value(raw.log_dir, "./log"@) && c.log_level@
                == resolved_value(raw.log_level, "Debug"@) && c.observable_interval as int
                == interval_value(raw) && c.chat_webhook_url@ == resolved_value(
                raw.chat_webhook_url,
                ""@,
            ) && c.chat_webhook_channel@ == resolved_value(raw.chat_webhook_channel, ""@)
                && c.server_name@ == resolved_value(
                raw.server_name,
                fallback_name(raw.computer_name),
            ),
    {
        let chat_webhook_url = raw.chat_webhook_url.resolve("");
        let observable_interval: u64 = if chat_webhook_url.as_str().is_empty() {
            0
        } else {
            let interval_text = raw.observable_interval.resolve("120");
            let interval_chars = chars_of(interval_text.as_str());
            match parse_u64(&interval_chars) {
                Option::Some(v) => v,
                Option::None => {
                    return Result::Err(ConfigError::InvalidObservableInterval);
                },
            }
        };
        let port_text = raw.listen_port.resolve("9284");
        let port_chars = chars_of(port_text.as_str());
        let listen_port = match parse_u16(&port_chars) {
            Option::Some(v) => v,
            Option::None => {
                return Result::Err(ConfigError::InvalidListenPort);
            },
        };
        let machine_name = match raw.computer_name {
            Option::Some(v) => v,
            Option::None => {
                proof {
                    reveal_strlit("");
                }
                String::new()
            },
        };
        let server_name = raw.server_name.resolve(machine_name.as_str());
        Result::Ok(
            AppConfig {
                listen_port,
                listen_address: raw.listen_address.resolve("0.0.0.0"),
                log_dir: raw.log_dir.resolve("./log"),
                log_level: raw.log_level.resolve("Debug"),
                observable_interval,
                chat_webhook_url,
                chat_webhook_channel: raw.chat_webhook_channel.resolve(""),
                server_name,
            },
        )
    }
}

} // verus!
