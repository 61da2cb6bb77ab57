use vstd::prelude::*;

verus! {

/// The code of the key that asks for the battery gauge: the seventh of the
/// user keys in the device's key tables.
pub const BATTERY_CHECK_KEY: u16 = 0x0847;

/// How the device reaches its host.
#[derive(Clone, Copy, Debug, PartialEq, Eq, Structural)]
pub enum ConnectionType {
    /// Over the cable.
    Wired,
    /// Over the radio.
    Wireless,
}

impl ConnectionType {
    /// The connection that a status code stands for: one is the radio, and
    /// every other code is the cable.
    pub open spec fn spec_from_code(code: u8) -> ConnectionType {
        if code == 1 {
            ConnectionType::Wireless
        } else {
            ConnectionType::Wired
        }
    }

    /// Reads a connection out of its status code.
    #[verifier::when_used_as_spec(spec_from_code)]
    pub fn from_code(code: u8) -> (connection: ConnectionType)
        ensures
            connection == ConnectionType::spec_from_code(code),
    {
        if code == 1 {
            ConnectionType::Wireless
        } else {
            ConnectionType::Wired
        }
    }
}

/// What the radio is doing, and on which pairing profile.
#[derive(Clone, Copy, Debug, PartialEq, Eq, Structural)]
pub enum PairingState {
    /// Broadcasting for a new connection on the given profile.
    Advertising(u8),
    /// Connected on the given profile.
    Connected(u8),
    /// The radio is not in use: the device is on the cable, or asleep.
    Idle,
}

/// A basic action of a key, as far as the status display tells actions apart.
#[derive(Clone, Copy, Debug, PartialEq, Eq, Structural)]
pub enum Action {
    /// A plain key stroke with the given key code.
    Key(u16),
    /// Any other action.
    Other,
}

/// The decoded action at a key position, as far as the status display tells
/// actions apart.
#[derive(Clone, Copy, Debug, PartialEq, Eq, Structural)]
pub enum KeyAction {
    /// A single action, triggered on press and cancelled on release.
    Single(Action),
    /// Any other kind of action.
    Other,
}

impl KeyAction {
    /// Whether this is the action that asks for the battery gauge.
    pub open spec fn spec_is_battery_check(self) -> bool {
        self == KeyAction::Single(Action::Key(BATTERY_CHECK_KEY))
    }

    /// Tells whether this is the action that asks for the battery gauge.
    #[verifier::when_used_as_spec(spec_is_battery_check)]
    pub fn is_battery_check(self) -> (yes: bool)
        ensures
            yes == self.spec_is_battery_check(),
    {
        match self {
            KeyAction::Single(Action::Key(code)) => code == BATTERY_CHECK_KEY,
            _ => false,
        }
    }
}

/// One notification from the device's status stream.
#[derive(Clone, Copy, Debug, PartialEq, Eq, Structural)]
pub enum Event {
    /// The device switched between cable and radio.
    ConnectionType(ConnectionType),
    /// The radio changed what it is doing.
    PairingState(PairingState),
    /// The battery reports a charge, in percent.
    Battery(u8),
    /// Another pairing profile became the active one.
    PairingProfileChanged(u8),
    /// A key changed, and this is the action decoded for it.
    Key(KeyAction),
    /// Anything else on the stream.
    Other,
}

} // verus!
