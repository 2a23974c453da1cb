//! Command-line options and their validation.

use crate::levels::{is_valid_log_level, valid_level, LEVEL_LIST};
use crate::resolve::PathKind;
use crate::text::{concat_text, push_text};
use vstd::prelude::*;

verus! {

/// The command-line options.
#[derive(Debug, Clone)]
pub struct Cli {
    /// Settings file to load.
    pub config: Option<String>,
    /// Check the settings and stop, without serving.
    pub verify: bool,
    /// Log level: error, warn, info, debug or trace, in any letter case.
    pub loglevel: String,
    /// Log directory.
    pub log: Option<String>,
}

/// The outcome of checking the options: the first check that fails, in this
/// order, gives the message.
pub open spec fn cli_check(cli: Cli, config_exists: bool, log_kind: PathKind) -> Result<(), Seq<char>> {
    if !valid_level(cli.loglevel@) {
        Err("Invalid log level '"@ + cli.loglevel@ + "'. Valid levels are: "@ + LEVEL_LIST@)
    } else if cli.config is Some && !config_exists {
        Err("Configuration file '"@ + cli.config->0@ + "' does not exist"@)
    } else if cli.log is Some && log_kind == PathKind::Missing {
        Err("Cannot run without a log directory. The directory '"@ + cli.log->0@
            + "' does not exist"@)
    } else if cli.log is Some && log_kind == PathKind::File {
        Err("Cannot run without a log directory. The path '"@ + cli.log->0@
            + "' is not a directory"@)
    } else {
        Ok(())
    }
}

fn quoted_message(a: &str, b: &str, c: &str) -> (r: String)
    ensures
        r@ == a@ + b@ + c@,
{
    let mut m = concat_text(a, b);
    push_text(&mut m, c);
    m
}

impl Cli {
    /// Checks the options: the log level must be valid, a named settings file
    /// must exist, and a named log directory must be a directory. The caller
    /// tells whether the settings file exists and what the log directory
    /// names on disk; each is looked at only when the option is given.
    pub fn validate(&self, config_exists: bool, log_kind: PathKind) -> (r: Result<(), String>)
        ensures
            match r {
                Ok(()) => cli_check(*self, config_exists, log_kind) is Ok,
                Err(m) => cli_check(*self, config_exists, log_kind) == Err::<(), Seq<char>>(m@),
            },
    {
        if !is_valid_log_level(self.loglevel.as_str()) {
            let mut m = quoted_message(
                "Invalid log level '",
                self.loglevel.as_str(),
                "'. Valid levels are: ",
            );
            push_text(&mut m, LEVEL_LIST);
            return Err(m);
        }
        if let Some(c) = &self.config {
            if !config_exists {
                return Err(quoted_message("Configuration file '", c.as_str(), "' does not exist"));
            }
        }
        if let Some(d) = &self.log {
            if log_kind == PathKind::Missing {
                return Err(
                    quoted_message(
                        "Cannot run without a log directory. The directory '",
                        d.as_str(),
                        "' does not exist",
                    ),
                );
            }
            if log_kind == PathKind::File {
                return Err(
                    quoted_message(
                        "Cannot run without a log directory. The path '",
                        d.as_str(),
                        "' is not a directory",
                    ),
                );
            }
        }
        Ok(())
    }
}

} // verus!
