//! The sensor driver: a bus handle bound to a device address.

use embedded_hal::i2c::SevenBitAddress;
use vstd::prelude::*;

use crate::register::{
    product_number_read, product_number_transfer, WriteRead, PRODUCT_NUMBER_REG,
};

verus! {

/// The address that IQS231A/B parts answer to as shipped.
pub const DEFAULT_ADDR: SevenBitAddress = 0x44;

/// What a driver amounts to: the device address that its operations target,
/// and the bus handle that it owns. Contracts speak of a driver through this
/// value.
pub struct Binding<I2C> {
    /// The address that the next operation is sent to.
    pub address: SevenBitAddress,
    /// The bus handle in the driver's keeping.
    pub bus: I2C,
}

impl<I2C> Binding<I2C> {
    /// The binding of `bus` to `address`.
    pub open spec fn at(bus: I2C, address: SevenBitAddress) -> Self {
        Binding { address, bus }
    }

    /// This binding, with `address` in place of the address it had.
    pub open spec fn rebound(self, address: SevenBitAddress) -> Self {
        Binding { address, bus: self.bus }
    }

    /// This binding, with `bus` in place of the handle it had.
    pub open spec fn carrying(self, bus: I2C) -> Self {
        Binding { address: self.address, bus }
    }
}

/// Driver for one IQS231A/B sensor. It owns the bus handle for as long as it
/// lives and gives it back through [`Iqs231xDriver::release_inner`].
#[derive(Debug)]
pub struct Iqs231xDriver<I2C> {
    address: SevenBitAddress,
    i2c: I2C,
}

impl<I2C> View for Iqs231xDriver<I2C> {
    type V = Binding<I2C>;

    closed spec fn view(&self) -> Binding<I2C> {
        Binding { address: self.address, bus: self.i2c }
    }
}

impl<I2C> Iqs231xDriver<I2C> {
    /// Creates a driver for the sensor at the default address,
    /// [`DEFAULT_ADDR`]. Nothing is sent on the bus.
    pub fn new(i2c: I2C) -> (driver: Self)
        ensures
            driver@ == Binding::at(i2c, DEFAULT_ADDR),
    {
        Self { address: DEFAULT_ADDR, i2c }
    }

    /// Creates a driver for the sensor at `addr`. Nothing is sent on the bus,
    /// and `addr` is taken as given.
    pub fn with_address(i2c: I2C, addr: SevenBitAddress) -> (driver: Self)
        ensures
            driver@ == Binding::at(i2c, addr),
    {
        Self { address: addr, i2c }
    }

    /// Points the driver at the sensor at `addr`, from the next operation on.
    /// Nothing is sent on the bus.
    pub fn set_address(&mut self, addr: SevenBitAddress)
        ensures
            final(self)@ == old(self)@.rebound(addr),
    {
        self.address = addr;
    }

    /// The address that the next operation is sent to.
    pub fn address(&self) -> (addr: SevenBitAddress)
        ensures
            addr == self@.address,
    {
        self.address
    }

    /// Ends the driver and hands back the bus handle that it owned.
    pub fn release_inner(self) -> (i2c: I2C)
        ensures
            i2c == self@.bus,
    {
        self.i2c
    }

    /// Lends out the bus handle, so that a transaction the driver has asked for
    /// can be carried out on it. Whatever the borrower leaves in the handle is
    /// what the driver owns afterwards; the bound address stays.
    pub fn inner_mut(&mut self) -> (i2c: &mut I2C)
        ensures
            *i2c == old(self)@.bus,
            final(self)@ == old(self)@.carrying(*final(i2c)),
    {
        &mut self.i2c
    }

    /// The transaction that reads the product number of the sensor at the
    /// address bound right now.
    pub fn product_number_request(&self) -> (transfer: WriteRead)
        ensures
            transfer == product_number_transfer(self@.address),
    {
        WriteRead { address: self.address, write: [PRODUCT_NUMBER_REG], read: [0u8, 0u8] }
    }
}

/// A driver built for an address is bound to that address and holds the
/// handle that it was built with.
pub proof fn lemma_built_as_asked<I2C>(bus: I2C, address: SevenBitAddress)
    ensures
        Binding::at(bus, address).address == address,
        Binding::at(bus, address).bus == bus,
{
}

/// Of two address changes in a row only the second one shows: the driver is
/// as if the first had never been made.
pub proof fn lemma_last_address_wins<I2C>(
    binding: Binding<I2C>,
    first: SevenBitAddress,
    second: SevenBitAddress,
)
    ensures
        binding.rebound(first).rebound(second) == binding.rebound(second),
        binding.rebound(first).rebound(second).address == second,
{
}

/// Changing the address leaves the bus handle alone, so the handle that a
/// driver gives back at its end is the one that it was built with.
pub proof fn lemma_rebinding_keeps_the_bus<I2C>(
    bus: I2C,
    built_for: SevenBitAddress,
    moved_to: SevenBitAddress,
)
    ensures
        Binding::at(bus, built_for).rebound(moved_to).bus == bus,
{
}

/// What a product-number read reports is decided by the bound address and by
/// what the bus does with the transaction, not by the kind of bus: a driver on
/// a blocking bus and a driver on a suspending bus, bound to one address, ask
/// for the same transaction, and where the two buses treat it alike, the two
/// reads report alike.
pub proof fn lemma_reads_agree_across_buses<Blocking, Suspending, E>(
    blocking: Binding<Blocking>,
    suspending: Binding<Suspending>,
    bus: spec_fn(WriteRead) -> ([u8; 2], Result<(), E>),
)
    requires
        blocking.address == suspending.address,
    ensures
        product_number_transfer(blocking.address) == product_number_transfer(suspending.address),
        product_number_read(blocking.address, bus) == product_number_read(suspending.address, bus),
{
}

} // verus!
