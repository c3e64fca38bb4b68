//! Authorization states exchanged with the filesystem firewall service.

use vstd::prelude::*;

verus! {

/// Authorization states for files and USB devices.
#[derive(Debug, Clone, Copy, PartialEq, Eq, Structural)]
pub enum KeysasAuthorization {
    /// Default value
    AuthUnknown,
    /// Authorization request pending
    AuthPending,
    /// Access is blocked
    AuthBlock,
    /// Access is allowed in read mode only
    AuthAllowRead,
    /// Access is allowed with a warning to the user
    AuthAllowWarning,
    /// Access is allowed for all operations
    AuthAllowAll,
}

/// Wire code of an authorization, as sent to the user interface.
pub open spec fn spec_file_code(a: KeysasAuthorization) -> u8 {
    match a {
        KeysasAuthorization::AuthAllowRead => 1u8,
        KeysasAuthorization::AuthAllowAll => 2u8,
        _ => 0u8,
    }
}

/// Authorization denoted by a wire code; unknown codes mean blocked access.
pub open spec fn spec_file_auth(code: u8) -> KeysasAuthorization {
    if code == 1u8 {
        KeysasAuthorization::AuthAllowRead
    } else if code == 2u8 {
        KeysasAuthorization::AuthAllowAll
    } else {
        KeysasAuthorization::AuthBlock
    }
}

impl KeysasAuthorization {
    /// Convert the authorization to an unsigned char for the user interface.
    pub fn to_u8_file(&self) -> (r: u8)
        ensures
            r == spec_file_code(*self),
    {
        match self {
            KeysasAuthorization::AuthAllowRead => 1,
            KeysasAuthorization::AuthAllowAll => 2,
            _ => 0,
        }
    }

    /// Convert an unsigned char to the authorization for a file.
    pub fn from_u8_file(auth: u8) -> (r: KeysasAuthorization)
        ensures
            r == spec_file_auth(auth),
    {
        match auth {
            1 => KeysasAuthorization::AuthAllowRead,
            2 => KeysasAuthorization::AuthAllowAll,
            _ => KeysasAuthorization::AuthBlock,
        }
    }
}

/// Message for a file status notification.
#[derive(Debug, Clone)]
pub struct FileUpdateMessage {
    pub device: String,
    pub id: [u16; 16],
    pub path: String,
    pub authorization: KeysasAuthorization,
}

} // verus!
