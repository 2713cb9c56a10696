//! Notifications of the auto configuration module.

use vstd::prelude::*;
use crate::error::Error;
use crate::win::guid::Guid;
use crate::win::wlan::notification::Source;

verus! {

/// What a notification of the auto configuration module announces.
#[derive(Debug, Clone, Copy, PartialEq, Eq, Structural)]
pub enum Code {
    Start,
    AutoconfEnabled,
    AutoconfDisabled,
    BackgroundScanEnabled,
    BackgroundScanDisabled,
    BssTypeChange,
    PowerSettingChange,
    ScanComplete,
    ScanFail,
    ConnectionStart,
    ConnectionComplete,
    ConnectionAttemptFail,
    FilterListChange,
    InterfaceArrival,
    InterfaceRemoval,
    ProfileChange,
    ProfileNameChange,
    ProfilesExhausted,
    NetworkNotAvailable,
    NetworkAvailable,
    Disconnecting,
    Disconnected,
    AdhocNetworkStateChange,
    ProfileUnblocked,
    ScreenPowerChange,
    ProfileBlocked,
    ScanListRefresh,
    OperationalStateChange,
    End,
}

impl Code {
    /// The value that the wireless service numbers `n`, if there is one.
    pub open spec fn numbered(n: u32) -> Option<Code> {
        if n == 0 {
            Some(Code::Start)
        } else if n == 1 {
            Some(Code::AutoconfEnabled)
        } else if n == 2 {
            Some(Code::AutoconfDisabled)
        } else if n == 3 {
            Some(Code::BackgroundScanEnabled)
        } else if n == 4 {
            Some(Code::BackgroundScanDisabled)
        } else if n == 5 {
            Some(Code::BssTypeChange)
        } else if n == 6 {
            Some(Code::PowerSettingChange)
        } else if n == 7 {
            Some(Code::ScanComplete)
        } else if n == 8 {
            Some(Code::ScanFail)
        } else if n == 9 {
            Some(Code::ConnectionStart)
        } else if n == 10 {
            Some(Code::ConnectionComplete)
        } else if n == 11 {
            Some(Code::ConnectionAttemptFail)
        } else if n == 12 {
            Some(Code::FilterListChange)
        } else if n == 13 {
            Some(Code::InterfaceArrival)
        } else if n == 14 {
            Some(Code::InterfaceRemoval)
        } else if n == 15 {
            Some(Code::ProfileChange)
        } else if n == 16 {
            Some(Code::ProfileNameChange)
        } else if n == 17 {
            Some(Code::ProfilesExhausted)
        } else if n == 18 {
            Some(Code::NetworkNotAvailable)
        } else if n == 19 {
            Some(Code::NetworkAvailable)
        } else if n == 20 {
            Some(Code::Disconnecting)
        } else if n == 21 {
            Some(Code::Disconnected)
        } else if n == 22 {
            Some(Code::AdhocNetworkStateChange)
        } else if n == 23 {
            Some(Code::ProfileUnblocked)
        } else if n == 24 {
            Some(Code::ScreenPowerChange)
        } else if n == 25 {
            Some(Code::ProfileBlocked)
        } else if n == 26 {
            Some(Code::ScanListRefresh)
        } else if n == 27 {
            Some(Code::OperationalStateChange)
        } else if n == 28 {
            Some(Code::End)
        } else {
            None
        }
    }

    /// The number that the wireless service gives this value.
    pub open spec fn number(self) -> int {
        match self {
            Code::Start => 0,
            Code::AutoconfEnabled => 1,
            Code::AutoconfDisabled => 2,
            Code::BackgroundScanEnabled => 3,
            Code::BackgroundScanDisabled => 4,
            Code::BssTypeChange => 5,
            Code::PowerSettingChange => 6,
            Code::ScanComplete => 7,
            Code::ScanFail => 8,
            Code::ConnectionStart => 9,
            Code::ConnectionComplete => 10,
            Code::ConnectionAttemptFail => 11,
            Code::FilterListChange => 12,
            Code::InterfaceArrival => 13,
            Code::InterfaceRemoval => 14,
            Code::ProfileChange => 15,
            Code::ProfileNameChange => 16,
            Code::ProfilesExhausted => 17,
            Code::NetworkNotAvailable => 18,
            Code::NetworkAvailable => 19,
            Code::Disconnecting => 20,
            Code::Disconnected => 21,
            Code::AdhocNetworkStateChange => 22,
            Code::ProfileUnblocked => 23,
            Code::ScreenPowerChange => 24,
            Code::ProfileBlocked => 25,
            Code::ScanListRefresh => 26,
            Code::OperationalStateChange => 27,
            Code::End => 28,
        }
    }

    /// Reads a number of the wireless service; `None` for a number it does not define.
    pub fn from_u32(n: u32) -> (value: Option<Code>)
        ensures
            value == Code::numbered(n),
    {
        if n == 0 {
            Some(Code::Start)
        } else if n == 1 {
            Some(Code::AutoconfEnabled)
        } else if n == 2 {
            Some(Code::AutoconfDisabled)
        } else if n == 3 {
            Some(Code::BackgroundScanEnabled)
        } else if n == 4 {
            Some(Code::BackgroundScanDisabled)
        } else if n == 5 {
            Some(Code::BssTypeChange)
        } else if n == 6 {
            Some(Code::PowerSettingChange)
        } else if n == 7 {
            Some(Code::ScanComplete)
        } else if n == 8 {
            Some(Code::ScanFail)
        } else if n == 9 {
            Some(Code::ConnectionStart)
        } else if n == 10 {
            Some(Code::ConnectionComplete)
        } else if n == 11 {
            Some(Code::ConnectionAttemptFail)
        } else if n == 12 {
            Some(Code::FilterListChange)
        } else if n == 13 {
            Some(Code::InterfaceArrival)
        } else if n == 14 {
            Some(Code::InterfaceRemoval)
        } else if n == 15 {
            Some(Code::ProfileChange)
        } else if n == 16 {
            Some(Code::ProfileNameChange)
        } else if n == 17 {
            Some(Code::ProfilesExhausted)
        } else if n == 18 {
            Some(Code::NetworkNotAvailable)
        } else if n == 19 {
            Some(Code::NetworkAvailable)
        } else if n == 20 {
            Some(Code::Disconnecting)
        } else if n == 21 {
            Some(Code::Disconnected)
        } else if n == 22 {
            Some(Code::AdhocNetworkStateChange)
        } else if n == 23 {
            Some(Code::ProfileUnblocked)
        } else if n == 24 {
            Some(Code::ScreenPowerChange)
        } else if n == 25 {
            Some(Code::ProfileBlocked)
        } else if n == 26 {
            Some(Code::ScanListRefresh)
        } else if n == 27 {
            Some(Code::OperationalStateChange)
        } else if n == 28 {
            Some(Code::End)
        } else {
            None
        }
    }

    /// The number that the wireless service gives this value.
    pub fn to_u32(&self) -> (n: u32)
        ensures
            n == self.number(),
            Code::numbered(n) == Some(*self),
    {
        match self {
            Code::Start => 0,
            Code::AutoconfEnabled => 1,
            Code::AutoconfDisabled => 2,
            Code::BackgroundScanEnabled => 3,
            Code::BackgroundScanDisabled => 4,
            Code::BssTypeChange => 5,
            Code::PowerSettingChange => 6,
            Code::ScanComplete => 7,
            Code::ScanFail => 8,
            Code::ConnectionStart => 9,
            Code::ConnectionComplete => 10,
            Code::ConnectionAttemptFail => 11,
            Code::FilterListChange => 12,
            Code::InterfaceArrival => 13,
            Code::InterfaceRemoval => 14,
            Code::ProfileChange => 15,
            Code::ProfileNameChange => 16,
            Code::ProfilesExhausted => 17,
            Code::NetworkNotAvailable => 18,
            Code::NetworkAvailable => 19,
            Code::Disconnecting => 20,
            Code::Disconnected => 21,
            Code::AdhocNetworkStateChange => 22,
            Code::ProfileUnblocked => 23,
            Code::ScreenPowerChange => 24,
            Code::ProfileBlocked => 25,
            Code::ScanListRefresh => 26,
            Code::OperationalStateChange => 27,
            Code::End => 28,
        }
    }
}

impl Code {
    /// The code announces that an adapter arrived or left.
    pub open spec fn interface_scope(self) -> bool {
        self == Code::InterfaceArrival || self == Code::InterfaceRemoval
    }

    /// The code announces a phase of a scan or of a connection.
    pub open spec fn network_scope(self) -> bool {
        ||| self == Code::ScanComplete
        ||| self == Code::ScanFail
        ||| self == Code::ScanListRefresh
        ||| self == Code::ConnectionStart
        ||| self == Code::ConnectionComplete
        ||| self == Code::ConnectionAttemptFail
        ||| self == Code::Disconnecting
        ||| self == Code::Disconnected
    }

    /// Tells whether the code announces that an adapter arrived or left.
    pub fn is_interface_scope(&self) -> (yes: bool)
        ensures
            yes == self.interface_scope(),
    {
        match self {
            Code::InterfaceArrival | Code::InterfaceRemoval => true,
            _ => false,
        }
    }

    /// Tells whether the code announces a phase of a scan or of a connection.
    pub fn is_network_scope(&self) -> (yes: bool)
        ensures
            yes == self.network_scope(),
    {
        match self {
            Code::ScanComplete
            | Code::ScanFail
            | Code::ScanListRefresh
            | Code::ConnectionStart
            | Code::ConnectionComplete
            | Code::ConnectionAttemptFail
            | Code::Disconnecting
            | Code::Disconnected => true,
            _ => false,
        }
    }
}

/// A notification of the auto configuration module as the service delivers it:
/// what happened, and on which adapter.
#[derive(Debug, Clone, Copy, PartialEq, Eq, Structural)]
pub struct Notification {
    pub code: Code,
    pub guid: Guid,
}

impl Notification {
    /// Reads the three fields of a raw notification record.
    ///
    /// A record from another source than the auto configuration module is
    /// refused. A record of that module carries one of its codes.
    pub fn from_l2_notification_data(source: u32, code: u32, guid: Guid) -> (read: Result<
        Notification,
        Error,
    >)
        requires
            Source::numbered(source) == Some(Source::Acm) ==> Code::numbered(code)
                is Some,
        ensures
            Source::numbered(source) != Some(Source::Acm) ==> read == Err::<
                Notification,
                Error,
            >(Error::NotAnAcmNotification),
            Source::numbered(source) == Some(Source::Acm) ==> read == Ok::<
                Notification,
                Error,
            >(Notification { code: Code::numbered(code).unwrap(), guid }),
    {
        if source != Source::Acm.to_u32() {
            return Err(Error::NotAnAcmNotification);
        }
        match Code::from_u32(code) {
            Some(code) => Ok(Notification { code, guid }),
            None => Err(Error::NotAnAcmNotification),
        }
    }
}

} // verus!
