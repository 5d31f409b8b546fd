//! Errors that the driver reports.

use vstd::prelude::*;

verus! {

/// Everything that can go wrong while talking to the sensor.
///
/// `E` is the error type of the bus. The driver hands bus errors on as they
/// are and never retries.
#[derive(Copy, Debug)]
pub enum Error<E> {
    /// The bus reported an error during a write or a read.
    I2c(E),
    /// The part identification read during initialization was not that of an
    /// ENS160; the value read is enclosed.
    UnexpectedChipId(u16),
    /// The device did not take up the operating mode asked of it; the content
    /// of the operating mode register is enclosed.
    OpModeNotCorrect(u8),
}

impl<E: Clone> Clone for Error<E> {
    fn clone(&self) -> (copy: Self)
        ensures
            *self is I2c ==> copy is I2c,
            *self is UnexpectedChipId ==> copy == *self,
            *self is OpModeNotCorrect ==> copy == *self,
    {
        match self {
            Error::I2c(e) => Error::I2c(e.clone()),
            Error::UnexpectedChipId(id) => Error::UnexpectedChipId(*id),
            Error::OpModeNotCorrect(mode) => Error::OpModeNotCorrect(*mode),
        }
    }
}

} // verus!
