use vstd::prelude::*;

use crate::identity::DeviceIdentity;
use crate::protocol::Operation;

verus! {

/// Where the light is: its identity and, when already known, its address.
/// A present address is used as it is and no enumeration takes place.
#[derive(Clone, Debug, Default, PartialEq, Eq)]
pub struct LitraConfig {
    pub vendor_id: u16,
    pub product_id: u16,
    pub path: Option<String>,
}

impl LitraConfig {
    /// The identity set that this configuration selects: its one pair.
    pub fn identities(&self) -> (r: Vec<DeviceIdentity>)
        ensures
            r@ == seq![DeviceIdentity { vendor_id: self.vendor_id, product_id: self.product_id }],
    {
        let r = vec![DeviceIdentity { vendor_id: self.vendor_id, product_id: self.product_id }];
        assert(r@ =~= seq![DeviceIdentity { vendor_id: self.vendor_id, product_id: self.product_id }]);
        r
    }
}

/// The command-line arguments: an optional device address and a subcommand.
#[derive(Clone, Debug, PartialEq, Eq)]
pub struct Cli {
    pub path: Option<String>,
    pub command: Option<Commands>,
}

/// The subcommands.
#[derive(Clone, Copy, Debug, PartialEq, Eq, Structural)]
pub enum Commands {
    /// List the addresses of the attached lights.
    Init,
    On,
    Off,
    Brightness { percent: u16 },
    Temperature { temperature: u16 },
    Status,
}

impl Commands {
    /// The operation a subcommand sends to the light, if it sends one.
    pub fn operation(self) -> (r: Option<Operation>)
        ensures
            r == match self {
                Commands::On => Some(Operation::PowerOn),
                Commands::Off => Some(Operation::PowerOff),
                Commands::Brightness { percent } => Some(Operation::SetBrightness(percent)),
                Commands::Temperature { temperature } => Some(Operation::SetTemperature(temperature)),
                Commands::Init | Commands::Status => None::<Operation>,
            },
    {
        match self {
            Commands::On => Some(Operation::PowerOn),
            Commands::Off => Some(Operation::PowerOff),
            Commands::Brightness { percent } => Some(Operation::SetBrightness(percent)),
            Commands::Temperature { temperature } => Some(Operation::SetTemperature(temperature)),
            Commands::Init | Commands::Status => None,
        }
    }
}

} // verus!
