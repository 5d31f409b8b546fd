//! Driver core for the ENS160 digital multi-gas sensor.
//!
//! The crate holds everything about the sensor that is independent of the
//! bus it hangs on: the register map, the encoding of the values it reports,
//! the requests that each driver operation puts on the bus, and the
//! initialization sequence as a state machine. It performs no input or
//! output itself. Whoever owns the bus carries out the requests one by one
//! and hands the replies back.

use vstd::prelude::*;

pub mod constants;
pub mod data;
pub mod error;
pub mod init;
pub mod protocol;

use crate::constants::DeviceAddress;

verus! {

/// The ENS160 device: the bus it is reached through, its address on that bus
/// and a timer for the pauses that the device needs.
pub struct Ens160<I2C, D> {
    /// Bus interface.
    i2c: I2C,
    /// Bus address of the device.
    address: u8,
    /// Timer.
    delayer: D,
}

impl<I2C, D> Ens160<I2C, D> {
    /// The bus interface that the driver holds.
    pub closed spec fn spec_bus(&self) -> I2C {
        self.i2c
    }

    /// The timer that the driver holds.
    pub closed spec fn spec_delayer(&self) -> D {
        self.delayer
    }

    /// The bus address that the driver talks to.
    pub closed spec fn spec_address(&self) -> u8 {
        self.address
    }

    /// Creates a driver for a device at the primary address (ADDR pin low).
    pub fn new(i2c: I2C, delayer: D) -> (device: Self)
        ensures
            device.spec_bus() == i2c,
            device.spec_delayer() == delayer,
            device.spec_address() == DeviceAddress::Primary.bus_address(),
    {
        Self { i2c, address: u8::from(DeviceAddress::Primary), delayer }
    }

    /// Creates a driver for a device at the secondary address (ADDR pin high).
    pub fn new_secondary_address(i2c: I2C, delayer: D) -> (device: Self)
        ensures
            device.spec_bus() == i2c,
            device.spec_delayer() == delayer,
            device.spec_address() == DeviceAddress::Secondary.bus_address(),
    {
        Self { i2c, address: u8::from(DeviceAddress::Secondary), delayer }
    }

    /// Gives the bus interface back and ends the driver.
    pub fn release(self) -> (i2c: I2C)
        ensures
            i2c == self.spec_bus(),
    {
        self.i2c
    }

    /// The bus address that the driver talks to. It is fixed when the driver
    /// is created.
    #[verifier::when_used_as_spec(spec_address)]
    pub fn address(&self) -> (address: u8)
        ensures
            address == self.spec_address(),
    {
        self.address
    }

    /// The bus interface, to carry out a request on.
    pub fn bus(&mut self) -> (i2c: &mut I2C)
        ensures
            *i2c == old(self).spec_bus(),
            final(self).spec_bus() == *final(i2c),
            final(self).spec_delayer() == old(self).spec_delayer(),
            final(self).spec_address() == old(self).spec_address(),
    {
        &mut self.i2c
    }

    /// The timer, to carry out a pause on.
    pub fn delayer(&mut self) -> (delayer: &mut D)
        ensures
            *delayer == old(self).spec_delayer(),
            final(self).spec_delayer() == *final(delayer),
            final(self).spec_bus() == old(self).spec_bus(),
            final(self).spec_address() == old(self).spec_address(),
    {
        &mut self.delayer
    }
}

} // verus!
