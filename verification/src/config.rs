//! The configuration of the service: directories, file names, the size
//! limit and the listening address, each with its default.

use crate::text::{bounded_literal, decimal, decimal_digits, parse_unsigned};
use vstd::prelude::*;
use vstd::string::StringExecFns;

verus! {

/// The name of the environment variable for `json_dir`.
pub const JSON_DIR_VAR: &'static str = "JSON_DIR";

/// The name of the environment variable for `large_json_dir`.
pub const LARGE_JSON_DIR_VAR: &'static str = "LARGE_JSON_DIR";

/// The name of the environment variable for `upload_dir`.
pub const UPLOAD_DIR_VAR: &'static str = "UPLOAD_DIR";

/// The name of the environment variable for `large_upload_dir`.
pub const LARGE_UPLOAD_DIR_VAR: &'static str = "LARGE_UPLOAD_DIR";

/// The name of the environment variable for `max_file_size_mb`.
pub const MAX_FILE_SIZE_MB_VAR: &'static str = "MAX_FILE_SIZE_MB";

/// The name of the environment variable for `upload_file_name`.
pub const UPLOAD_FILE_NAME_VAR: &'static str = "UPLOAD_FILE_NAME";

/// The name of the environment variable for `server_host`.
pub const SERVER_HOST_VAR: &'static str = "SERVER_HOST";

/// The name of the environment variable for `server_port`.
pub const SERVER_PORT_VAR: &'static str = "SERVER_PORT";

/// The size limit where none is set, in megabytes.
pub const DEFAULT_MAX_FILE_SIZE_MB: usize = 500;

/// The port where none is set.
pub const DEFAULT_SERVER_PORT: u16 = 8080;

/// The settings as found, each the text of its variable or `None` where the
/// variable is not set.
#[derive(Debug, Clone)]
pub struct Settings {
    pub json_dir: Option<String>,
    pub large_json_dir: Option<String>,
    pub upload_dir: Option<String>,
    pub large_upload_dir: Option<String>,
    pub max_file_size_mb: Option<String>,
    pub upload_file_name: Option<String>,
    pub server_host: Option<String>,
    pub server_port: Option<String>,
}

/// The configuration of the service.
#[derive(Debug, Clone)]
pub struct AppConfig {
    pub json_dir: String,
    pub large_json_dir: String,
    pub upload_dir: String,
    pub large_upload_dir: String,
    pub max_file_size_mb: usize,
    pub upload_file_name: String,
    pub server_host: String,
    pub server_port: u16,
}

/// The text of a setting, or `default` where it is not set.
pub open spec fn text_or(value: Option<String>, default: Seq<char>) -> Seq<char> {
    match value {
        Some(text) => text@,
        None => default,
    }
}

/// The number of a setting, or `default` where it is not set or its text is
/// no decimal literal of a number up to `max`.
pub open spec fn number_or(value: Option<String>, max: u64, default: u64) -> u64 {
    match value {
        Some(text) => match bounded_literal(text@, max) {
            Some(n) => n,
            None => default,
        },
        None => default,
    }
}

fn text_setting(value: Option<String>, default: &str) -> (text: String)
    ensures
        text@ == text_or(value, default@),
{
    match value {
        Some(text) => text,
        None => String::from_str(default),
    }
}

fn number_setting(value: &Option<String>, max: u64, default: u64) -> (n: u64)
    requires
        default <= max,
    ensures
        n == number_or(*value, max, default),
        n <= max,
{
    match value {
        Some(text) => match parse_unsigned(text.as_str(), max) {
            Some(n) => n,
            None => default,
        },
        None => default,
    }
}

impl Settings {
    /// No variable set.
    pub fn unset() -> (settings: Settings)
        ensures
            settings.json_dir is None,
            settings.large_json_dir is None,
            settings.upload_dir is None,
            settings.large_upload_dir is None,
            settings.max_file_size_mb is None,
            settings.upload_file_name is None,
            settings.server_host is None,
            settings.server_port is None,
    {
        Settings {
            json_dir: None,
            large_json_dir: None,
            upload_dir: None,
            large_upload_dir: None,
            max_file_size_mb: None,
            upload_file_name: None,
            server_host: None,
            server_port: None,
        }
    }
}

impl AppConfig {
    /// The configuration that `settings` gives: each text as set, each
    /// number as written, and the default wherever a variable is not set or
    /// its number cannot be read.
    pub open spec fn of(settings: Settings) -> AppConfigView {
        AppConfigView {
            json_dir: text_or(settings.json_dir, "./tmp/"@),
            large_json_dir: text_or(settings.large_json_dir, "./tmp-large/"@),
            upload_dir: text_or(settings.upload_dir, "./uploads/"@),
            large_upload_dir: text_or(settings.large_upload_dir, "./uploads-large/"@),
            max_file_size_mb: number_or(
                settings.max_file_size_mb,
                usize::MAX as u64,
                DEFAULT_MAX_FILE_SIZE_MB as u64,
            ) as usize,
            upload_file_name: text_or(settings.upload_file_name, "upload.zip"@),
            server_host: text_or(settings.server_host, "127.0.0.1"@),
            server_port: number_or(
                settings.server_port,
                u16::MAX as u64,
                DEFAULT_SERVER_PORT as u64,
            ) as u16,
        }
    }

    /// Builds the configuration from the settings found.
    pub fn new(settings: Settings) -> (config: AppConfig)
        ensures
            config@ == AppConfig::of(settings),
    {
        let max_file_size_mb = number_setting(
            &settings.max_file_size_mb,
            usize::MAX as u64,
            DEFAULT_MAX_FILE_SIZE_MB as u64,
        );
        let server_port = number_setting(
            &settings.server_port,
            u16::MAX as u64,
            DEFAULT_SERVER_PORT as u64,
        );
        AppConfig {
            json_dir: text_setting(settings.json_dir, "./tmp/"),
            large_json_dir: text_setting(settings.large_json_dir, "./tmp-large/"),
            upload_dir: text_setting(settings.upload_dir, "./uploads/"),
            large_upload_dir: text_setting(settings.large_upload_dir, "./uploads-large/"),
            max_file_size_mb: max_file_size_mb as usize,
            upload_file_name: text_setting(settings.upload_file_name, "upload.zip"),
            server_host: text_setting(settings.server_host, "127.0.0.1"),
            server_port: server_port as u16,
        }
    }

    /// What `describe` writes.
    pub open spec fn description(&self) -> Seq<char> {
        "JSON_DIR: "@ + self.json_dir@ + ", LARGE_JSON_DIR: "@ + self.large_json_dir@
            + ", UPLOAD_DIR: "@ + self.upload_dir@ + ", LARGE_UPLOAD_DIR: "@
            + self.large_upload_dir@ + ", MAX_FILE_SIZE_MB: "@ + decimal_digits(
            self.max_file_size_mb as nat,
        ) + ", UPLOAD_FILE_NAME: "@ + self.upload_file_name@ + ", SERVER_HOST: "@
            + self.server_host@ + ", SERVER_PORT: "@ + decimal_digits(self.server_port as nat)
    }

    /// The configuration in one line, each value after the name of its
    /// variable.
    pub fn describe(&self) -> (line: String)
        ensures
            line@ == self.description(),
    {
        let mut line = String::from_str("JSON_DIR: ");
        line.append(self.json_dir.as_str());
        line.append(", LARGE_JSON_DIR: ");
        line.append(self.large_json_dir.as_str());
        line.append(", UPLOAD_DIR: ");
        line.append(self.upload_dir.as_str());
        line.append(", LARGE_UPLOAD_DIR: ");
        line.append(self.large_upload_dir.as_str());
        line.append(", MAX_FILE_SIZE_MB: ");
        let limit = decimal(self.max_file_size_mb as u64);
        line.append(limit.as_str());
        line.append(", UPLOAD_FILE_NAME: ");
        line.append(self.upload_file_name.as_str());
        line.append(", SERVER_HOST: ");
        line.append(self.server_host.as_str());
        line.append(", SERVER_PORT: ");
        let port = decimal(self.server_port as u64);
        line.append(port.as_str());
        line
    }

    /// Where an upload is stored: the upload's file name in `json_dir`.
    pub fn upload_file_path(&self) -> (path: String)
        ensures
            path@ == self.json_dir@ + self.upload_file_name@,
    {
        let mut path = self.json_dir.clone();
        path.append(self.upload_file_name.as_str());
        path
    }

    /// Where a large upload is unpacked: `unzipped/` in `json_dir`.
    pub fn unzipped_dir(&self) -> (path: String)
        ensures
            path@ == self.json_dir@ + "unzipped/"@,
    {
        let mut path = self.json_dir.clone();
        path.append("unzipped/");
        path
    }
}

/// The mathematical form of an `AppConfig`.
pub struct AppConfigView {
    pub json_dir: Seq<char>,
    pub large_json_dir: Seq<char>,
    pub upload_dir: Seq<char>,
    pub large_upload_dir: Seq<char>,
    pub max_file_size_mb: usize,
    pub upload_file_name: Seq<char>,
    pub server_host: Seq<char>,
    pub server_port: u16,
}

impl View for AppConfig {
    type V = AppConfigView;

    open spec fn view(&self) -> AppConfigView {
        AppConfigView {
            json_dir: self.json_dir@,
            large_json_dir: self.large_json_dir@,
            upload_dir: self.upload_dir@,
            large_upload_dir: self.large_upload_dir@,
            max_file_size_mb: self.max_file_size_mb,
            upload_file_name: self.upload_file_name@,
            server_host: self.server_host@,
            server_port: self.server_port,
        }
    }
}

} // verus!
