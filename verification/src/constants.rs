//! Register map and bus addresses of the ENS160.

use vstd::prelude::*;
use vstd::std_specs::convert::FromSpecImpl;

verus! {

/// Part identification, two bytes, little-endian.
pub const ENS160_PART_ID: u8 = 0x00;

/// Operating mode: written to change the mode, read back to confirm it.
pub const ENS160_OPMODE: u8 = 0x10;

/// Interrupt pin configuration.
pub const ENS160_CONFIG: u8 = 0x11;

/// Command register: a command code, optionally followed by data bytes.
pub const ENS160_COMMAND: u8 = 0x12;

/// Ambient temperature used for compensation, in kelvin times 64, little-endian.
pub const ENS160_TEMP_IN: u8 = 0x13;

/// Relative humidity used for compensation, little-endian.
pub const ENS160_RH_IN: u8 = 0x15;

/// Device status flags.
pub const ENS160_DEVICE_STATUS: u8 = 0x20;

/// Air quality index.
pub const ENS160_DATA_AQI: u8 = 0x21;

/// Total volatile organic compounds in ppb, little-endian.
pub const ENS160_DATA_TVOC: u8 = 0x22;

/// Equivalent carbon dioxide in ppm, little-endian.
pub const ENS160_DATA_ECO2: u8 = 0x24;

/// Ethanol concentration in ppb, little-endian. The register map gives it the
/// same address as the TVOC register.
pub const ENS160_DATA_ETOH: u8 = 0x22;

/// Temperature that the device uses for compensation, read back.
pub const ENS160_DATA_T: u8 = 0x30;

/// Relative humidity that the device uses for compensation, read back.
pub const ENS160_DATA_RH: u8 = 0x32;

/// Checksum over the data registers read so far.
pub const ENS160_DATA_MISR: u8 = 0x38;

/// General purpose write registers, eight bytes.
pub const ENS160_GPR_WRITE: u8 = 0x40;

/// General purpose read registers, eight bytes.
pub const ENS160_GPR_READ: u8 = 0x48;

/// Seventh and eighth general purpose read register: the raw sensor resistance.
pub const ENS160_GRP_READ6: u8 = 0x4e;

/// Seven-bit bus address of the device, selected by its ADDR pin. The pin must
/// not float.
#[derive(Debug, Clone, Copy, PartialEq, Eq, Structural)]
pub enum DeviceAddress {
    /// ADDR pin low.
    Primary,
    /// ADDR pin high.
    Secondary,
}

impl DeviceAddress {
    /// The address on the bus.
    pub open spec fn bus_address(self) -> u8 {
        match self {
            DeviceAddress::Primary => 0x52,
            DeviceAddress::Secondary => 0x53,
        }
    }
}

impl From<DeviceAddress> for u8 {
    fn from(value: DeviceAddress) -> (address: u8)
    {
        match value {
            DeviceAddress::Primary => 0x52,
            DeviceAddress::Secondary => 0x53,
        }
    }
}

impl FromSpecImpl<DeviceAddress> for u8 {
    open spec fn obeys_from_spec() -> bool {
        true
    }

    open spec fn from_spec(value: DeviceAddress) -> u8 {
        value.bus_address()
    }
}

impl Default for DeviceAddress {
    fn default() -> (address: DeviceAddress)
        ensures
            address == DeviceAddress::Primary,
    {
        DeviceAddress::Primary
    }
}

} // verus!
