//! lumiapp: a safe binding layer for the LumiOS application SDK.
//!
//! The native SDK reports every operation's outcome as a signed integer
//! result code and exchanges text as C strings.  This crate holds the
//! checked side of the binding: the translation of result codes into a
//! typed error, the validation of outbound text (no interior null byte),
//! the key-value storage surface, and the construction of logging and
//! notification requests.  The raw C calls themselves live outside the
//! library, behind these checked entry points.

use vstd::prelude::*;
use vstd::string::StringExecFns;

pub mod log;
pub mod storage;
pub mod text;

use crate::text::contains_nul;
use crate::text::has_interior_nul;

verus! {

/// Opaque marker for a native application handle.  The native SDK owns
/// the resource; this side only ever sees a pointer to the pointee this
/// type stands for, and never builds a value of it.
#[allow(non_camel_case_types)]
pub enum lumi_app_t {
    Opaque,
}

/// Opaque marker for a native view handle, owned by the native SDK; as
/// with [`lumi_app_t`], no value of it is ever built on this side.
#[allow(non_camel_case_types)]
pub enum lumi_view_t {
    Opaque,
}

/// The result code the native SDK returns for a successful operation.
pub const LUMI_OK: i32 = 0;

/// Result code for an allocation failure inside the native SDK.
pub const LUMI_ERR_NOMEM: i32 = -1;

/// Result code for an argument the native SDK rejected.
pub const LUMI_ERR_INVALID: i32 = -2;

/// Result code for a missing entry or resource.
pub const LUMI_ERR_NOT_FOUND: i32 = -3;

/// Result code for an I/O failure inside the native SDK.
pub const LUMI_ERR_IO: i32 = -4;

/// Native log severity: verbose.
pub const LUMI_LOG_VERBOSE: i32 = 0;

/// Native log severity: debug.
pub const LUMI_LOG_DEBUG: i32 = 1;

/// Native log severity: informational.
pub const LUMI_LOG_INFO: i32 = 2;

/// Native log severity: warning.
pub const LUMI_LOG_WARN: i32 = 3;

/// Native log severity: error.
pub const LUMI_LOG_ERROR: i32 = 4;

/// Typed form of a native result code other than success.
///
/// `Unknown` keeps the raw code of any value outside the documented
/// enumeration, for diagnostics.
#[derive(Debug, PartialEq, Eq, Structural)]
pub enum LumiError {
    OutOfMemory,
    InvalidArgument,
    NotFound,
    IoError,
    Unknown(i32),
}

/// What a native result code means: the single, total mapping from the
/// code enumeration to a typed outcome.
pub open spec fn mapped_result(code: i32) -> Result<(), LumiError> {
    if code == LUMI_OK {
        Ok(())
    } else if code == LUMI_ERR_NOMEM {
        Err(LumiError::OutOfMemory)
    } else if code == LUMI_ERR_INVALID {
        Err(LumiError::InvalidArgument)
    } else if code == LUMI_ERR_NOT_FOUND {
        Err(LumiError::NotFound)
    } else if code == LUMI_ERR_IO {
        Err(LumiError::IoError)
    } else {
        Err(LumiError::Unknown(code))
    }
}

/// Translates a native result code into a typed outcome.
///
/// This is the one point of translation; every wrapper that receives a
/// result code goes through it.
pub fn check(code: i32) -> (r: Result<(), LumiError>)
    ensures
        r == mapped_result(code),
{
    match code {
        0 => Ok(()),
        -1 => Err(LumiError::OutOfMemory),
        -2 => Err(LumiError::InvalidArgument),
        -3 => Err(LumiError::NotFound),
        -4 => Err(LumiError::IoError),
        c => Err(LumiError::Unknown(c)),
    }
}

/// One fully-prepared simple-notification call: its title and body,
/// both fit to cross the native boundary.
pub struct NotifyRequest {
    pub title: String,
    pub body: String,
}

/// Validates a simple notification.  Text holding an interior null is
/// rejected locally with `InvalidArgument` before any native call
/// could be made; otherwise the call to issue carries the title and
/// body unchanged, and its result code is for [`check`] to translate.
pub fn notify(title: &str, body: &str) -> (r: Result<NotifyRequest, LumiError>)
    ensures
        has_interior_nul(title@) || has_interior_nul(body@) ==> (r matches Err(e) && e
            == LumiError::InvalidArgument),
        !(has_interior_nul(title@) || has_interior_nul(body@)) ==> (r matches Ok(q) && q.title@
            == title@ && q.body@ == body@),
{
    if contains_nul(title) || contains_nul(body) {
        return Err(LumiError::InvalidArgument);
    }
    Ok(NotifyRequest { title: String::from_str(title), body: String::from_str(body) })
}

} // verus!
