use vstd::prelude::*;

verus! {

/// Failure of the bring-up, over the native error types of the register bus
/// (I2C), the block bus (SPI) and the pins.
#[derive(Debug, Clone, PartialEq)]
pub enum Error<I2cError, SpiError, PinError> {
    /// The block-bus (SPI) write failed with this native error.
    Spi(SpiError),
    /// The register-bus (I2C) write failed with this native error.
    I2c(I2cError),
    /// A pin operation (chip select, busy or reset) failed with this native
    /// error.
    Pin(PinError),
    /// The busy line did not clear within the reset budget.
    ResetTimeout,
}

} // verus!
