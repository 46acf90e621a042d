//! Command-line parameters of the bridge and the logging set-up they ask for.
use vstd::prelude::*;
use crate::logging::{invalid_rotation_message, rotation_named, LogConfig, RotationPeriod};

verus! {

/// The bridge's command-line parameters.
#[derive(Debug, Clone)]
pub struct Params {
    /// User name for the hub.
    pub user: String,
    /// Password for the hub.
    pub password: String,
    /// Host name or address of the hub; looked for on the network when absent.
    pub host: Option<String>,
    /// Port of the hub's broker.
    pub port: Option<u16>,
    /// Path of a settings file; default settings when absent.
    pub settings: Option<String>,
    /// Directory for log files; logs go to the console when absent.
    pub log_dir: Option<String>,
    /// Start of the log files' names.
    pub log_prefix: String,
    /// Log rotation period: minutely, hourly, daily or never.
    pub log_rotation: String,
    /// How many log files to keep, 0 for all.
    pub max_log_files: usize,
    /// Whether logs also go to the console when they go to files.
    pub log_to_console: bool,
}

impl Default for Params {
    /// The values taken when no option is given: user and password `admin`,
    /// port 1883, prefix `comelit-hub`, daily rotation, seven files kept.
    fn default() -> (p: Params)
        ensures
            p.user@ == "admin"@,
            p.password@ == "admin"@,
            p.host is None,
            p.port == Some(1883u16),
            p.settings is None,
            p.log_dir is None,
            p.log_prefix@ == "comelit-hub"@,
            p.log_rotation@ == "daily"@,
            p.max_log_files == 7,
            !p.log_to_console,
    {
        Params {
            user: String::from_str("admin"),
            password: String::from_str("admin"),
            host: None,
            port: Some(1883),
            settings: None,
            log_dir: None,
            log_prefix: String::from_str("comelit-hub"),
            log_rotation: String::from_str("daily"),
            max_log_files: 7,
            log_to_console: false,
        }
    }
}

/// Where the logs go.
#[derive(Debug, Clone)]
pub enum LoggingPlan {
    /// To the console only.
    Console,
    /// To rotated files only.
    File(LogConfig),
    /// To rotated files and to the console.
    Dual(LogConfig),
}

/// Whether `c` is the file configuration the parameters describe.
pub open spec fn config_from(c: LogConfig, dir: Seq<char>, p: Params, rotation: RotationPeriod) -> bool {
    &&& c.log_dir@ == dir
    &&& c.log_prefix@ == p.log_prefix@
    &&& c.rotation == rotation
    &&& c.max_log_files == p.max_log_files
}

/// The logging the parameters ask for: the console alone without a log
/// directory; otherwise files in that directory, rotated as named (a name
/// that is no rotation period is refused), with the console as well when
/// asked for.
pub fn logging_plan(p: &Params) -> (r: Result<LoggingPlan, String>)
    ensures
        p.log_dir is None ==> r matches Ok(LoggingPlan::Console),
        p.log_dir matches Some(dir) ==> match rotation_named(p.log_rotation@) {
            None => r matches Err(msg) && msg@ == invalid_rotation_message(p.log_rotation@),
            Some(rotation) => match r {
                Ok(LoggingPlan::File(c)) => !p.log_to_console && config_from(c, dir@, *p, rotation),
                Ok(LoggingPlan::Dual(c)) => p.log_to_console && config_from(c, dir@, *p, rotation),
                _ => false,
            },
        },
{
    match &p.log_dir {
        None => Ok(LoggingPlan::Console),
        Some(dir) => {
            let rotation = match RotationPeriod::parse(p.log_rotation.as_str()) {
                Ok(rotation) => rotation,
                Err(msg) => return Err(msg),
            };
            let config = LogConfig {
                log_dir: dir.clone(),
                log_prefix: p.log_prefix.clone(),
                rotation,
                max_log_files: p.max_log_files,
            };
            if p.log_to_console {
                Ok(LoggingPlan::Dual(config))
            } else {
                Ok(LoggingPlan::File(config))
            }
        },
    }
}

} // verus!
