//! Audit-trail records: composing the log lines and the date-partitioned
//! file name of the tracker's append-only text log.
//!
//! Every line reads `<timestamp> - SystemTracker - <LEVEL> - <message>`
//! with a trailing newline. Clock reads and file writes are outside
//! concerns: the caller hands in the formatted timestamp and date and
//! appends the returned line to the sink, swallowing write failures.

use vstd::prelude::*;
use vstd::string::StringExecFns;

verus! {

/// One full log line, newline included.
pub open spec fn log_line_chars(timestamp: Seq<char>, level: Seq<char>, message: Seq<
    char,
>) -> Seq<char> {
    timestamp + " - SystemTracker - "@ + level + " - "@ + message + "\n"@
}

/// The stats record body: category, then the rendered data.
pub open spec fn stats_message_chars(stats_type: Seq<char>, stats_data: Seq<char>) -> Seq<
    char,
> {
    stats_type + ": "@ + stats_data
}

/// Composer of the tracker's log records; holds the directory the
/// day-partitioned log files live in.
#[derive(Debug, Clone, PartialEq)]
pub struct TrackerLogger {
    pub log_dir: String,
}

impl TrackerLogger {
    /// A logger writing under the given directory.
    pub fn new(log_dir: &str) -> (r: TrackerLogger)
        ensures
            r.log_dir@ == log_dir@,
    {
        TrackerLogger { log_dir: log_dir.to_owned() }
    }

    /// The file the given day's records belong in:
    /// `<dir>/tracker_<date>.log`.
    pub fn log_file_name(&self, date: &str) -> (r: String)
        ensures
            r@ == self.log_dir@ + "/tracker_"@ + date@ + ".log"@,
    {
        let mut r = self.log_dir.clone();
        r.append("/tracker_");
        r.append(date);
        r.append(".log");
        proof {
            assert(r@ =~= self.log_dir@ + "/tracker_"@ + date@ + ".log"@);
        }
        r
    }

    /// One full line of the audit trail.
    pub fn format_log_line(timestamp: &str, level: &str, message: &str) -> (r: String)
        ensures
            r@ == log_line_chars(timestamp@, level@, message@),
    {
        let mut r = timestamp.to_owned();
        r.append(" - SystemTracker - ");
        r.append(level);
        r.append(" - ");
        r.append(message);
        r.append("\n");
        proof {
            assert(r@ =~= log_line_chars(timestamp@, level@, message@));
        }
        r
    }

    /// The INFO line recording one metric category's reading.
    pub fn log_stats(&self, timestamp: &str, stats_type: &str, stats_data: &str) -> (r: String)
        ensures
            r@ == log_line_chars(
                timestamp@,
                "INFO"@,
                stats_message_chars(stats_type@, stats_data@),
            ),
    {
        let mut message = stats_type.to_owned();
        message.append(": ");
        message.append(stats_data);
        proof {
            assert(message@ =~= stats_message_chars(stats_type@, stats_data@));
        }
        TrackerLogger::format_log_line(timestamp, "INFO", message.as_str())
    }

    /// The WARNING line recording one fired alert.
    pub fn log_alert(&self, timestamp: &str, message: &str) -> (r: String)
        ensures
            r@ == log_line_chars(timestamp@, "WARNING"@, "ALERT: "@ + message@),
    {
        let mut alert_message = "ALERT: ".to_owned();
        alert_message.append(message);
        TrackerLogger::format_log_line(timestamp, "WARNING", alert_message.as_str())
    }

    /// The ERROR line recording one reporting failure.
    pub fn log_error(&self, timestamp: &str, error_message: &str) -> (r: String)
        ensures
            r@ == log_line_chars(timestamp@, "ERROR"@, "ERROR: "@ + error_message@),
    {
        let mut error_msg = "ERROR: ".to_owned();
        error_msg.append(error_message);
        TrackerLogger::format_log_line(timestamp, "ERROR", error_msg.as_str())
    }
}

impl Default for TrackerLogger {
    /// A logger over the default `logs` directory.
    fn default() -> (r: TrackerLogger)
        ensures
            r.log_dir@ == "logs"@,
    {
        TrackerLogger::new("logs")
    }
}

} // verus!
