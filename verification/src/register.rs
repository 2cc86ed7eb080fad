//! The register protocol: what a register read puts on the wire, and what the
//! device's answer means.

use embedded_hal::i2c::SevenBitAddress;
use vstd::prelude::*;

use crate::error::Iqs231xError;

verus! {

/// Offset of the product-number register in the device's register space.
pub const PRODUCT_NUMBER_REG: u8 = 0x00;

/// One combined bus transaction: `write` goes out to the device at `address`,
/// then, after a repeated start, the device's bytes fill `read` front to back.
#[derive(Debug, Clone, Copy, PartialEq, Eq)]
pub struct WriteRead {
    /// The device that the transaction is addressed to.
    pub address: SevenBitAddress,
    /// The bytes of the write phase.
    pub write: [u8; 1],
    /// The buffer of the read phase, zeroed until the bus fills it.
    pub read: [u8; 2],
}

/// The transaction that asks the device at `address` for its product number:
/// the register's offset goes out, two bytes come back.
pub open spec fn product_number_transfer(address: SevenBitAddress) -> WriteRead {
    WriteRead { address, write: [PRODUCT_NUMBER_REG], read: [0u8, 0u8] }
}

/// What a product-number read reports once the bus is done with the
/// transaction. Where the bus completed it, `read` holds the device's two
/// bytes and the second one is the product number. Where the bus failed, its
/// error is reported, wrapped, and `read` has no say.
pub open spec fn product_number_outcome<E>(read: [u8; 2], done: Result<(), E>) -> Result<
    u8,
    Iqs231xError<E>,
> {
    match done {
        Ok(_) => Ok(read[1]),
        Err(e) => Err(Iqs231xError::I2CError(e)),
    }
}

/// The whole read, as seen from the wire: the driver bound to `address` asks
/// for its transaction, `bus` says what the bus makes of a transaction (how
/// it leaves the read buffer, and what it returns), and the outcome is read
/// off that.
pub open spec fn product_number_read<E>(
    address: SevenBitAddress,
    bus: spec_fn(WriteRead) -> ([u8; 2], Result<(), E>),
) -> Result<u8, Iqs231xError<E>> {
    let (read, done) = bus(product_number_transfer(address));
    product_number_outcome(read, done)
}

/// Interprets the end of a product-number transaction: `read` is the
/// transaction's read buffer as the bus left it, `done` is what the bus
/// returned.
pub fn product_number_reply<E>(read: [u8; 2], done: Result<(), E>) -> (number: Result<
    u8,
    Iqs231xError<E>,
>)
    ensures
        number == product_number_outcome(read, done),
{
    match done {
        Ok(_) => Ok(read[1]),
        Err(e) => Err(Iqs231xError::from(e)),
    }
}

/// On the wire a product-number read is the same for every device but for
/// the address: one byte goes out, the register's offset, and two bytes are
/// read back.
pub proof fn lemma_transfer_on_the_wire(address: SevenBitAddress)
    ensures
        product_number_transfer(address).address == address,
        product_number_transfer(address).write@ == seq![0x00u8],
        product_number_transfer(address).read@.len() == 2,
{
}

/// The first byte that the device sends back has no say in the product
/// number: two completed transactions that agree in their second byte are
/// read alike, and each as that byte.
pub proof fn lemma_first_byte_is_ignored<E>(one: [u8; 2], other: [u8; 2])
    requires
        one[1] == other[1],
    ensures
        product_number_outcome::<E>(one, Ok(())) == product_number_outcome::<E>(other, Ok(())),
        product_number_outcome::<E>(one, Ok(())) == Ok::<u8, Iqs231xError<E>>(one[1]),
{
}

/// A read fails exactly when the bus does. The failure then carries the error
/// that the bus gave, unchanged, and nothing of what the read buffer holds.
pub proof fn lemma_failure_keeps_the_cause<E>(read: [u8; 2], done: Result<(), E>)
    ensures
        product_number_outcome(read, done) is Err <==> done is Err,
        done matches Err(e) ==> product_number_outcome(read, done) == Err::<u8, Iqs231xError<E>>(
            Iqs231xError::I2CError(e),
        ),
        done matches Err(e) ==> product_number_outcome(read, done)->Err_0.cause() == e,
{
}

} // verus!
