//! The three one-byte status fields of an identify reply.
//!
//! Each maps its documented byte values to a variant of its own and every
//! other byte to the last variant listed.

use vstd::prelude::*;
use vstd::std_specs::convert::FromSpecImpl;

verus! {

/// Which firmware the controller is running.
#[derive(Debug, Clone, Copy, PartialEq, Eq)]
pub enum ControllerMode {
    BootLoader,
    Application,
}

/// The controller's alert level.
#[derive(Debug, Clone, Copy, PartialEq, Eq)]
pub enum ControllerAlert {
    Okay,
    Warning,
    Error,
}

/// How the controller got its IP address.
#[derive(Debug, Clone, Copy, PartialEq, Eq)]
pub enum ControllerIpType {
    Dynamic,
    Static,
}

impl From<u8> for ControllerMode {
    fn from(value: u8) -> (mode: Self) {
        if value == 0 {
            ControllerMode::BootLoader
        } else {
            ControllerMode::Application
        }
    }
}

impl FromSpecImpl<u8> for ControllerMode {
    open spec fn obeys_from_spec() -> bool {
        true
    }

    open spec fn from_spec(value: u8) -> Self {
        ControllerMode::of_byte(value)
    }
}

impl From<u8> for ControllerAlert {
    fn from(value: u8) -> (alert: Self) {
        if value == 0 {
            ControllerAlert::Okay
        } else if value == 1 {
            ControllerAlert::Warning
        } else {
            ControllerAlert::Error
        }
    }
}

impl FromSpecImpl<u8> for ControllerAlert {
    open spec fn obeys_from_spec() -> bool {
        true
    }

    open spec fn from_spec(value: u8) -> Self {
        ControllerAlert::of_byte(value)
    }
}

impl From<u8> for ControllerIpType {
    fn from(value: u8) -> (ip_type: Self) {
        if value == 0 {
            ControllerIpType::Dynamic
        } else {
            ControllerIpType::Static
        }
    }
}

impl FromSpecImpl<u8> for ControllerIpType {
    open spec fn obeys_from_spec() -> bool {
        true
    }

    open spec fn from_spec(value: u8) -> Self {
        ControllerIpType::of_byte(value)
    }
}

impl ControllerMode {
    /// The mode that a status byte stands for: 0 is the bootloader, every
    /// other byte the application.
    pub open spec fn of_byte(value: u8) -> ControllerMode {
        if value == 0 {
            ControllerMode::BootLoader
        } else {
            ControllerMode::Application
        }
    }

    /// The word shown for each mode.
    pub open spec fn name(self) -> Seq<char> {
        match self {
            ControllerMode::BootLoader => "BootLoader"@,
            ControllerMode::Application => "Application"@,
        }
    }

    pub fn to_string(&self) -> (s: String)
        ensures
            s@ == self.name(),
    {
        match self {
            ControllerMode::BootLoader => "BootLoader".to_owned(),
            ControllerMode::Application => "Application".to_owned(),
        }
    }
}

impl ControllerAlert {
    /// The level that a status byte stands for: 0 is ok, 1 a warning, every
    /// other byte an error.
    pub open spec fn of_byte(value: u8) -> ControllerAlert {
        if value == 0 {
            ControllerAlert::Okay
        } else if value == 1 {
            ControllerAlert::Warning
        } else {
            ControllerAlert::Error
        }
    }

    /// The word shown for each level.
    pub open spec fn name(self) -> Seq<char> {
        match self {
            ControllerAlert::Okay => "Ok"@,
            ControllerAlert::Warning => "Warning"@,
            ControllerAlert::Error => "Error"@,
        }
    }

    pub fn to_string(&self) -> (s: String)
        ensures
            s@ == self.name(),
    {
        match self {
            ControllerAlert::Okay => "Ok".to_owned(),
            ControllerAlert::Warning => "Warning".to_owned(),
            ControllerAlert::Error => "Error".to_owned(),
        }
    }
}

impl ControllerIpType {
    /// The kind that a status byte stands for: 0 is a dynamic address, every
    /// other byte a static one.
    pub open spec fn of_byte(value: u8) -> ControllerIpType {
        if value == 0 {
            ControllerIpType::Dynamic
        } else {
            ControllerIpType::Static
        }
    }

    /// The word shown for each kind.
    pub open spec fn name(self) -> Seq<char> {
        match self {
            ControllerIpType::Dynamic => "Dynamic"@,
            ControllerIpType::Static => "Static"@,
        }
    }

    pub fn to_string(&self) -> (s: String)
        ensures
            s@ == self.name(),
    {
        match self {
            ControllerIpType::Dynamic => "Dynamic".to_owned(),
            ControllerIpType::Static => "Static".to_owned(),
        }
    }
}

} // verus!
