//! Errors the library reports.

use vstd::prelude::*;
use crate::text::{decimal, push_decimal};

verus! {

/// Bridge errors that carry plain values.
#[derive(Debug, Clone, PartialEq, Eq)]
pub enum BridgeError {
    /// An invalid configuration value.
    ConfigValidation { field: &'static str, reason: String },
    /// No device matches the configuration.
    NoDeviceFound,
    /// Several devices match the configuration.
    MultipleDevicesFound { count: usize },
    /// The feature is not available on this platform.
    PlatformNotSupported { feature: &'static str },
    /// The control protocol was not followed.
    ControlProtocol { message: String },
}

impl BridgeError {
    /// The error as it is shown to the user.
    pub open spec fn spec_message(&self) -> Seq<char> {
        match self {
            BridgeError::ConfigValidation { field, reason } => "Invalid "@ + field@ + ": "@
                + reason@,
            BridgeError::NoDeviceFound => "No device found"@,
            BridgeError::MultipleDevicesFound { count } => "Multiple devices found ("@ + decimal(
                *count as nat,
            ) + ")"@,
            BridgeError::PlatformNotSupported { feature } => feature@
                + " not supported on this platform"@,
            BridgeError::ControlProtocol { message } => "Control protocol error: "@ + message@,
        }
    }

    /// Renders the error for the user.
    pub fn message(&self) -> (s: String)
        ensures
            s@ == self.spec_message(),
    {
        proof {
            reveal_strlit("Invalid ");
            reveal_strlit(": ");
            reveal_strlit("No device found");
            reveal_strlit("Multiple devices found (");
            reveal_strlit(")");
            reveal_strlit(" not supported on this platform");
            reveal_strlit("Control protocol error: ");
        }
        match self {
            BridgeError::ConfigValidation { field, reason } => {
                let mut s = String::from_str("Invalid ");
                s.append(field);
                s.append(": ");
                s.append(reason.as_str());
                assert(s@ =~= self.spec_message());
                s
            },
            BridgeError::NoDeviceFound => String::from_str("No device found"),
            BridgeError::MultipleDevicesFound { count } => {
                let mut s = String::from_str("Multiple devices found (");
                push_decimal(&mut s, *count as u64);
                s.append(")");
                assert(s@ =~= self.spec_message());
                s
            },
            BridgeError::PlatformNotSupported { feature } => {
                let mut s = String::from_str(*feature);
                s.append(" not supported on this platform");
                assert(s@ =~= self.spec_message());
                s
            },
            BridgeError::ControlProtocol { message } => {
                let mut s = String::from_str("Control protocol error: ");
                s.append(message.as_str());
                assert(s@ =~= self.spec_message());
                s
            },
        }
    }
}

} // verus!
