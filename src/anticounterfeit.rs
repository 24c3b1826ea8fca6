//! Errors of the anti-counterfeiting reader collaborator.
use vstd::prelude::*;

verus! {

/// Why an anti-counterfeiting check could not use a reader device.
#[derive(Clone, Copy, Debug, PartialEq, Eq, Structural)]
pub enum AntiCounterfeitError {
    NoNfcDevice,
    NfcDeviceNotSupported,
}

/// The message shown for an error.
pub open spec fn error_message(e: AntiCounterfeitError) -> Seq<char> {
    match e {
        AntiCounterfeitError::NoNfcDevice => "No NFC device found"@,
        AntiCounterfeitError::NfcDeviceNotSupported => "NFC device not supported"@,
    }
}

impl AntiCounterfeitError {
    /// The message shown for this error.
    pub fn message(&self) -> (r: String)
        ensures
            r@ == error_message(*self),
    {
        match self {
            AntiCounterfeitError::NoNfcDevice => "No NFC device found".to_owned(),
            AntiCounterfeitError::NfcDeviceNotSupported => "NFC device not supported".to_owned(),
        }
    }
}

} // verus!
