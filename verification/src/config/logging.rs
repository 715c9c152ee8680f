//! Where log files go and how long they are kept.

use crate::common::text::{chars_of, decimal_u64, parse_u64};
use vstd::prelude::*;

verus! {

/// The size at which a log file counts as full, unless configured: 10 MiB.
pub const DEFAULT_MAX_FILE_SIZE: u64 = 10485760;

/// The number of days log files are kept, unless configured.
pub const DEFAULT_RETENTION_DAYS: u64 = 7;

/// The seconds of a day.
pub const SECONDS_PER_DAY: u64 = 86400;

/// Settings of the log files.
#[derive(Clone)]
pub struct LogConfig {
    pub log_dir: String,
    pub file_prefix: String,
    pub max_file_size: u64,
    pub retention_days: u64,
}

impl Default for LogConfig {
    fn default() -> (config: Self)
        ensures
            config.log_dir@ == "logs"@,
            config.file_prefix@ == "demeter"@,
            config.max_file_size == DEFAULT_MAX_FILE_SIZE,
            config.retention_days == DEFAULT_RETENTION_DAYS,
    {
        Self {
            log_dir: "logs".to_owned(),
            file_prefix: "demeter".to_owned(),
            max_file_size: DEFAULT_MAX_FILE_SIZE,
            retention_days: DEFAULT_RETENTION_DAYS,
        }
    }
}

/// The text of a setting, or the default where the setting is absent.
pub open spec fn text_setting(given: Option<String>, default: Seq<char>) -> Seq<char> {
    match given {
        Some(text) => text@,
        None => default,
    }
}

/// The number of a setting, or the default where the setting is absent or
/// does not write an unsigned 64-bit number.
pub open spec fn number_setting(given: Option<String>, default: u64) -> u64 {
    match given {
        Some(text) => match decimal_u64(text@) {
            Some(number) => number,
            None => default,
        },
        None => default,
    }
}

fn read_number(given: Option<String>, default: u64) -> (number: u64)
    ensures
        number == number_setting(given, default),
{
    match given {
        Some(text) => {
            let chars = chars_of(text.as_str());
            match parse_u64(&chars) {
                Some(number) => number,
                None => default,
            }
        },
        None => default,
    }
}

impl LogConfig {
    /// The settings made of what the environment holds under `LOG_DIR`,
    /// `LOG_FILE_PREFIX`, `LOG_MAX_FILE_SIZE` and `LOG_RETENTION_DAYS`, each
    /// `None` where the variable is not set. What is missing, and a number
    /// that cannot be read, falls back to the default.
    pub fn from_values(
        log_dir: Option<String>,
        file_prefix: Option<String>,
        max_file_size: Option<String>,
        retention_days: Option<String>,
    ) -> (config: Self)
        ensures
            config.log_dir@ == text_setting(log_dir, "logs"@),
            config.file_prefix@ == text_setting(file_prefix, "demeter"@),
            config.max_file_size == number_setting(max_file_size, DEFAULT_MAX_FILE_SIZE),
            config.retention_days == number_setting(retention_days, DEFAULT_RETENTION_DAYS),
    {
        Self {
            log_dir: match log_dir {
                Some(text) => text,
                None => "logs".to_owned(),
            },
            file_prefix: match file_prefix {
                Some(text) => text,
                None => "demeter".to_owned(),
            },
            max_file_size: read_number(max_file_size, DEFAULT_MAX_FILE_SIZE),
            retention_days: read_number(retention_days, DEFAULT_RETENTION_DAYS),
        }
    }

    /// Whether a log file last written `age_seconds` and `age_nanos` ago has
    /// outlived `retention_days` and is to be deleted: its age is strictly
    /// more than that many days.
    pub fn is_expired(age_seconds: u64, age_nanos: u32, retention_days: u64) -> (expired: bool)
        requires
            retention_days * SECONDS_PER_DAY <= u64::MAX,
        ensures
            expired == (age_seconds > retention_days * SECONDS_PER_DAY || (age_seconds
                == retention_days * SECONDS_PER_DAY && age_nanos > 0)),
    {
        let kept: u64 = retention_days * SECONDS_PER_DAY;
        age_seconds > kept || (age_seconds == kept && age_nanos > 0)
    }

    /// The size limit in whole mebibytes, as shown when logging starts.
    pub fn max_file_size_mib(&self) -> (mib: u64)
        ensures
            mib == self.max_file_size / 1048576,
    {
        self.max_file_size / 1048576
    }
}

} // verus!
