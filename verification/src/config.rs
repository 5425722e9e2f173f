use vstd::prelude::*;

verus! {

/// Settings of the server.
pub struct Config {
    pub smtp_port: u16,
    pub http_port: u16,
    /// Directory that holds the message database.
    pub data_dir: String,
    /// Largest message, in bytes, that the SMTP side accepts.
    pub max_message_size: usize,
    /// Number of received messages that may wait for storage.
    pub channel_capacity: usize,
}

/// Port of the SMTP listener.
pub open spec fn default_smtp_port() -> u16 { 1025 }

/// Port of the HTTP listener.
pub open spec fn default_http_port() -> u16 { 1080 }

/// 25 MiB, matching real-world provider limits.
pub open spec fn default_max_message_size() -> nat { 25 * 1024 * 1024 }

pub open spec fn default_channel_capacity() -> nat { 1024 }

impl Config {
    /// The settings the server runs with.
    pub fn from_env() -> (config: Config)
        ensures
            config.smtp_port == default_smtp_port(),
            config.http_port == default_http_port(),
            config.data_dir@ == "./data"@,
            config.max_message_size == default_max_message_size(),
            config.channel_capacity == default_channel_capacity(),
    {
        Config {
            smtp_port: 1025,
            http_port: 1080,
            data_dir: String::from_str("./data"),
            max_message_size: 25 * 1024 * 1024,
            channel_capacity: 1024,
        }
    }
}

} // verus!
