//! Logging surface.
//!
//! The native logging call is variadic and takes a format string.  The
//! binding never hands caller text to it as a format: every message is
//! carried behind the constant two-character format `"%s"`, so text
//! containing format directives cannot be interpreted as one.  Logging
//! must never fail the caller's operation, so text that cannot cross
//! the native boundary degrades to an empty string instead of being
//! rejected.  These functions build the exact call the native side is
//! to receive.

use vstd::prelude::*;
use vstd::string::StringExecFns;

use crate::LUMI_LOG_ERROR;
use crate::LUMI_LOG_INFO;
use crate::text::contains_nul;
use crate::text::has_interior_nul;

verus! {

/// The one format string ever handed to the native logging call.
pub open spec fn log_format() -> Seq<char> {
    "%s"@
}

/// What becomes of outbound log text: kept as it is, unless it cannot
/// cross the native boundary, in which case it degrades to empty.
pub open spec fn degraded(s: Seq<char>) -> Seq<char> {
    if has_interior_nul(s) {
        Seq::empty()
    } else {
        s
    }
}

/// One fully-prepared native logging call: severity, tag, the constant
/// format, and the message that substitutes for it.
pub struct LogRequest {
    pub level: i32,
    pub tag: String,
    pub fmt: String,
    pub message: String,
}

impl LogRequest {
    /// The request is exactly what the logging rules allow out: the
    /// constant format, and tag and message free of interior nulls.
    pub open spec fn wf(self) -> bool {
        &&& self.fmt@ == log_format()
        &&& !has_interior_nul(self.tag@)
        &&& !has_interior_nul(self.message@)
    }
}

/// Builds the logging call at severity `level`; `info` and `error`
/// fix the severity.  Never fails, whatever the text holds.
fn prepare(level: i32, tag: &str, msg: &str) -> (r: LogRequest)
    ensures
        r.level == level,
        r.fmt@ == log_format(),
        r.tag@ == degraded(tag@),
        r.message@ == degraded(msg@),
        r.wf(),
{
    let t = if contains_nul(tag) {
        String::new()
    } else {
        String::from_str(tag)
    };
    let m = if contains_nul(msg) {
        String::new()
    } else {
        String::from_str(msg)
    };
    LogRequest { level, tag: t, fmt: String::from_str("%s"), message: m }
}

/// Prepares an informational log call.
pub fn info(tag: &str, msg: &str) -> (r: LogRequest)
    ensures
        r.level == LUMI_LOG_INFO,
        r.fmt@ == log_format(),
        r.tag@ == degraded(tag@),
        r.message@ == degraded(msg@),
        r.wf(),
{
    prepare(LUMI_LOG_INFO, tag, msg)
}

/// Prepares an error log call.
pub fn error(tag: &str, msg: &str) -> (r: LogRequest)
    ensures
        r.level == LUMI_LOG_ERROR,
        r.fmt@ == log_format(),
        r.tag@ == degraded(tag@),
        r.message@ == degraded(msg@),
        r.wf(),
{
    prepare(LUMI_LOG_ERROR, tag, msg)
}

} // verus!
