use vstd::prelude::*;

use crate::config::Config;
use crate::error::Error;
use crate::protocol::{BringUp, Phase};

verus! {

/// A driver whose device has been reset, has left its busy state and has
/// accepted both probe writes. It owns the bus, pin and delay handles.
pub struct ExampleDriver<I2c, Spi, CsPin, BusyPin, ResetPin, Delay> {
    config: Config,
    i2c: I2c,
    spi: Spi,
    cs: CsPin,
    busy: BusyPin,
    reset: ResetPin,
    delay: Delay,
}

impl<I2c, Spi, CsPin, BusyPin, ResetPin, Delay> ExampleDriver<
    I2c,
    Spi,
    CsPin,
    BusyPin,
    ResetPin,
    Delay,
> {
    /// The configuration the driver was brought up with.
    pub closed spec fn config_spec(&self) -> Config {
        self.config
    }

    /// The configuration the driver was brought up with.
    pub fn config(&self) -> (r: &Config)
        ensures
            *r == self.config_spec(),
    {
        &self.config
    }
}

impl<I2cError, SpiError, PinError> BringUp<I2cError, SpiError, PinError> {
    /// Ends a finished bring-up: a driver owning the handles when the device
    /// came up, else the error that stopped it.
    pub fn finish<I2c, Spi, CsPin, BusyPin, ResetPin, Delay>(
        self,
        i2c: I2c,
        spi: Spi,
        cs: CsPin,
        busy: BusyPin,
        reset: ResetPin,
        delay: Delay,
    ) -> (r: Result<
        ExampleDriver<I2c, Spi, CsPin, BusyPin, ResetPin, Delay>,
        Error<I2cError, SpiError, PinError>,
    >)
        requires
            self.finished(),
        ensures
            r is Ok <==> self.phase is Ready,
            r matches Ok(d) ==> d.config_spec() == self.config,
            self.phase matches Phase::Failed(e) ==> r == Err::<
                ExampleDriver<I2c, Spi, CsPin, BusyPin, ResetPin, Delay>,
                Error<I2cError, SpiError, PinError>,
            >(e),
    {
        match self.phase {
            Phase::Failed(e) => Err(e),
            _ => Ok(ExampleDriver { config: self.config, i2c, spi, cs, busy, reset, delay }),
        }
    }
}

} // verus!
