//! The policy on the encoder's log lines: which of them end a job, which
//! are shown, and which are dropped.

use crate::stream::LogLevel;
use crate::text::{after_last, chars_of, cut, find_last, join};
use vstd::prelude::*;
use vstd::string::*;

verus! {

/// The tag that the encoder writes before the text of a fatal message.
pub open spec fn fatal_tag() -> Seq<char> {
    "[fatal] "@
}

/// The complaint of an encoder that was given an input and no output file:
/// what it says whenever it is run only to describe its input.
pub open spec fn missing_output_notice() -> Seq<char> {
    "At least one output file must be specified"@
}

/// The heading under which a warning of the encoder is shown.
pub open spec fn warning_heading() -> Seq<char> {
    "警告: "@
}

/// The text of a log message without what leads up to its last fatal tag.
pub open spec fn log_body(message: Seq<char>) -> Seq<char> {
    after_last(message, fatal_tag())
}

/// Whether a line of this severity can end a job.
pub open spec fn is_failure_level(level: LogLevel) -> bool {
    level is Fatal || level is Error
}

/// What a log line means for the job that it belongs to: `Err` with the
/// message's body where it ends the job, `Ok` where the job goes on.
pub open spec fn log_verdict(level: LogLevel, message: Seq<char>, ignore_no_input: bool) -> Result<
    (),
    Seq<char>,
> {
    if is_failure_level(level) && !(ignore_no_input && log_body(message)
        == missing_output_notice()) {
        Err(log_body(message))
    } else {
        Ok(())
    }
}

/// Judges one log line of the encoder. A line of severity fatal or error
/// ends the job with the body of its message, unless `ignore_no_input` is set
/// and the body is the encoder's complaint that no output file was named.
/// Every other line lets the job go on.
pub fn handle_ffmpeg_event_log(level: LogLevel, err: String, ignore_no_input: bool) -> (r: Result<
    (),
    String,
>)
    ensures
        match r {
            Ok(()) => log_verdict(level, err@, ignore_no_input) is Ok,
            Err(body) => log_verdict(level, err@, ignore_no_input) == Err::<(), Seq<char>>(body@),
        },
{
    match level {
        LogLevel::Fatal | LogLevel::Error => {
            let text = chars_of(err.as_str());
            let tag = chars_of("[fatal] ");
            let end = text.len();
            let body = match find_last(&text, &tag) {
                Some(i) => cut(err.as_str(), i + tag.len(), end),
                None => err,
            };
            let expected = body == String::from_str("At least one output file must be specified");
            if expected && ignore_no_input {
                return Ok(());
            }
            Err(body)
        },
        _ => Ok(()),
    }
}

/// The line to show for a log line of the encoder: a warning is shown under
/// its heading, nothing else is shown.
pub fn warning_line(level: LogLevel, message: &str) -> (r: Option<String>)
    ensures
        match r {
            Some(line) => level is Warning && line@ == warning_heading() + message@,
            None => !(level is Warning),
        },
{
    match level {
        LogLevel::Warning => Some(join("警告: ", message)),
        _ => None,
    }
}

} // verus!
