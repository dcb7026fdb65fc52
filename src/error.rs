//! The camera error taxonomy and the translation of raw error text into
//! messages for users.

use vstd::prelude::*;
use crate::text::{contains_seq, contains_str, push_str};

verus! {

/// Camera subsystem errors.
#[derive(Debug, Clone)]
pub enum CameraError {
    DeviceNotFound(String),
    ComInit(String),
    Enumeration(String),
    ControlQuery(String),
    ControlWrite(String),
    FormatQuery(String),
    Hotplug(String),
    CanonSdkError(String),
    CanonSessionNotOpen(String),
    CanonDeviceBusy(String),
}

/// The prefix of each error's message.
pub open spec fn error_prefix(e: &CameraError) -> Seq<char> {
    match e {
        CameraError::DeviceNotFound(_) => "device not found: "@,
        CameraError::ComInit(_) => "COM initialisation failed: "@,
        CameraError::Enumeration(_) => "device enumeration failed: "@,
        CameraError::ControlQuery(_) => "control query failed: "@,
        CameraError::ControlWrite(_) => "control write failed: "@,
        CameraError::FormatQuery(_) => "format query failed: "@,
        CameraError::Hotplug(_) => "hotplug registration failed: "@,
        CameraError::CanonSdkError(_) => "Canon SDK error: "@,
        CameraError::CanonSessionNotOpen(_) => "Canon session not open: "@,
        CameraError::CanonDeviceBusy(_) => "Canon device busy: "@,
    }
}

/// The detail text that an error carries.
pub open spec fn error_detail(e: &CameraError) -> Seq<char> {
    match e {
        CameraError::DeviceNotFound(s) => s@,
        CameraError::ComInit(s) => s@,
        CameraError::Enumeration(s) => s@,
        CameraError::ControlQuery(s) => s@,
        CameraError::ControlWrite(s) => s@,
        CameraError::FormatQuery(s) => s@,
        CameraError::Hotplug(s) => s@,
        CameraError::CanonSdkError(s) => s@,
        CameraError::CanonSessionNotOpen(s) => s@,
        CameraError::CanonDeviceBusy(s) => s@,
    }
}

impl CameraError {
    /// Whether this is the routing sentinel `DeviceNotFound`.
    pub fn is_device_not_found(&self) -> (r: bool)
        ensures
            r == (self is DeviceNotFound),
    {
        match self {
            CameraError::DeviceNotFound(_) => true,
            _ => false,
        }
    }

    /// The human-readable message: a fixed prefix naming the kind of
    /// failure, then the detail.
    pub fn to_string(&self) -> (r: String)
        ensures
            r@ == error_prefix(self) + error_detail(self),
    {
        let mut out = String::new();
        let detail = match self {
            CameraError::DeviceNotFound(s) => {
                push_str(&mut out, "device not found: ");
                s
            },
            CameraError::ComInit(s) => {
                push_str(&mut out, "COM initialisation failed: ");
                s
            },
            CameraError::Enumeration(s) => {
                push_str(&mut out, "device enumeration failed: ");
                s
            },
            CameraError::ControlQuery(s) => {
                push_str(&mut out, "control query failed: ");
                s
            },
            CameraError::ControlWrite(s) => {
                push_str(&mut out, "control write failed: ");
                s
            },
            CameraError::FormatQuery(s) => {
                push_str(&mut out, "format query failed: ");
                s
            },
            CameraError::Hotplug(s) => {
                push_str(&mut out, "hotplug registration failed: ");
                s
            },
            CameraError::CanonSdkError(s) => {
                push_str(&mut out, "Canon SDK error: ");
                s
            },
            CameraError::CanonSessionNotOpen(s) => {
                push_str(&mut out, "Canon session not open: ");
                s
            },
            CameraError::CanonDeviceBusy(s) => {
                push_str(&mut out, "Canon device busy: ");
                s
            },
        };
        push_str(&mut out, detail.as_str());
        assert(out@ =~= error_prefix(self) + error_detail(self));
        out
    }
}

/// The user-facing text for a raw error message: known OS error codes and
/// vendor-SDK phrases are replaced, anything else passes through.
pub open spec fn humanised(msg: Seq<char>) -> Seq<char> {
    if contains_seq(msg, "0x800705AA"@) {
        "Camera is in use by another application"@
    } else if contains_seq(msg, "0x80070005"@) {
        "Access denied — close other camera apps and retry"@
    } else if contains_seq(msg, "0x80004005"@) {
        "Camera returned an unspecified error"@
    } else if contains_seq(msg, "0x80070020"@) {
        "Camera is locked by another process"@
    } else if contains_seq(msg, "0x8007001F"@) {
        "A device attached to the system is not functioning"@
    } else if contains_seq(msg, "camera is busy"@) {
        "Canon camera is busy — wait a moment and try again"@
    } else if contains_seq(msg, "session not open"@) || contains_seq(msg, "SESSION_NOT_OPEN"@) {
        "Canon camera session is not open — reconnect the camera"@
    } else if contains_seq(msg, "camera disconnected"@) || contains_seq(msg, "COMM_DISCONNECTED"@) {
        "Canon camera was disconnected"@
    } else {
        msg
    }
}

/// Replaces known OS error codes and vendor-SDK messages with text for users.
pub fn humanise_error(msg: &str) -> (r: String)
    ensures
        r@ == humanised(msg@),
{
    if contains_str(msg, "0x800705AA") {
        return "Camera is in use by another application".to_string();
    }
    if contains_str(msg, "0x80070005") {
        return "Access denied — close other camera apps and retry".to_string();
    }
    if contains_str(msg, "0x80004005") {
        return "Camera returned an unspecified error".to_string();
    }
    if contains_str(msg, "0x80070020") {
        return "Camera is locked by another process".to_string();
    }
    if contains_str(msg, "0x8007001F") {
        return "A device attached to the system is not functioning".to_string();
    }
    if contains_str(msg, "camera is busy") {
        return "Canon camera is busy — wait a moment and try again".to_string();
    }
    if contains_str(msg, "session not open") || contains_str(msg, "SESSION_NOT_OPEN") {
        return "Canon camera session is not open — reconnect the camera".to_string();
    }
    if contains_str(msg, "camera disconnected") || contains_str(msg, "COMM_DISCONNECTED") {
        return "Canon camera was disconnected".to_string();
    }
    msg.to_string()
}

} // verus!
