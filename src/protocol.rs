use vstd::prelude::*;

use crate::config::{Config, RESET_PULSE_MS, RESET_TIMEOUT_MS};
use crate::error::Error;

verus! {

/// Address of the device on the register bus, used by the probe write.
pub const PROBE_ADDRESS: u8 = 0x01;

/// The hardware operation that the bring-up asks for next.
#[derive(Clone, Copy, Debug, PartialEq, Eq, Structural)]
pub enum Action {
    /// Drive the reset line low (device held in reset).
    DriveResetLow,
    /// Block for this many delay units.
    Pause(u32),
    /// Drive the reset line high (device released).
    DriveResetHigh,
    /// Read whether the busy line is low.
    ReadBusy,
    /// Write [`register_probe`] to [`PROBE_ADDRESS`] over the register bus.
    WriteRegisterProbe,
    /// Drive the chip-select line low.
    SelectChip,
    /// Write [`block_probe`] over the block bus.
    WriteBlockProbe,
    /// Drive the chip-select line high.
    DeselectChip,
    /// Nothing is left to do: the bring-up has succeeded or failed.
    Finished,
}

/// What the last requested operation reported.
#[derive(Debug, Clone, PartialEq)]
pub enum Outcome<I2cError, SpiError, PinError> {
    /// A drive, pause or bus write completed.
    Done,
    /// A read of the busy line completed; `true` when it read low.
    BusyLow(bool),
    /// A pin operation failed with this native error.
    PinFault(PinError),
    /// The register-bus write failed with this native error.
    I2cFault(I2cError),
    /// The block-bus write failed with this native error.
    SpiFault(SpiError),
}

/// Where the bring-up stands.
#[derive(Debug, Clone, PartialEq)]
pub enum Phase<I2cError, SpiError, PinError> {
    /// Nothing done yet.
    Unreset,
    /// The reset line is low; the pulse is being held.
    ResetPulse,
    /// The pulse has been held; the reset line is to be released.
    ResetRelease,
    /// The busy line is to be read; `elapsed` delay units were spent waiting.
    AwaitingReady { elapsed: u32 },
    /// The busy line read low; one polling interval is to be waited.
    PollPause { elapsed: u32 },
    /// The device is ready; the register-bus probe is to be written.
    ProbingRegisterBus,
    /// The register-bus probe was accepted; chip select is to be asserted.
    SelectingChip,
    /// Chip select is asserted; the block-bus probe is to be written.
    ProbingBlockBus,
    /// The block-bus write is over; chip select is to be released. Holds the
    /// block-bus error, if the write failed.
    DeselectingChip { block_fault: Option<SpiError> },
    /// The device is up.
    Ready,
    /// The bring-up stopped with this error.
    Failed(Error<I2cError, SpiError, PinError>),
}

/// The bring-up state machine of one driver instance.
///
/// It is meant to run once on freshly acquired hardware: running it again on
/// a device that is already up is not covered, and is the caller's concern.
pub struct BringUp<I2cError, SpiError, PinError> {
    /// The configuration that the driver will be built with.
    pub config: Config,
    /// Where the bring-up stands.
    pub phase: Phase<I2cError, SpiError, PinError>,
}

impl<I2cError, SpiError, PinError> BringUp<I2cError, SpiError, PinError> {
    /// The operation that this state asks for.
    pub open spec fn action_spec(&self) -> Action {
        match self.phase {
            Phase::Unreset => Action::DriveResetLow,
            Phase::ResetPulse => Action::Pause(RESET_PULSE_MS),
            Phase::ResetRelease => Action::DriveResetHigh,
            Phase::AwaitingReady { .. } => Action::ReadBusy,
            Phase::PollPause { .. } => Action::Pause(self.config.poll_ms),
            Phase::ProbingRegisterBus => Action::WriteRegisterProbe,
            Phase::SelectingChip => Action::SelectChip,
            Phase::ProbingBlockBus => Action::WriteBlockProbe,
            Phase::DeselectingChip { .. } => Action::DeselectChip,
            Phase::Ready => Action::Finished,
            Phase::Failed(_) => Action::Finished,
        }
    }

    /// Whether `o` is something that the operation of this state can report:
    /// a pause only completes, the busy read gives a level or a pin error, a
    /// drive completes or gives a pin error, a bus write completes or gives
    /// its own bus's error, and a finished machine takes nothing.
    pub open spec fn fits(&self, o: Outcome<I2cError, SpiError, PinError>) -> bool {
        match self.action_spec() {
            Action::Pause(_) => o is Done,
            Action::ReadBusy => o is BusyLow || o is PinFault,
            Action::DriveResetLow | Action::DriveResetHigh | Action::SelectChip
            | Action::DeselectChip => o is Done || o is PinFault,
            Action::WriteRegisterProbe => o is Done || o is I2cFault,
            Action::WriteBlockProbe => o is Done || o is SpiFault,
            Action::Finished => false,
        }
    }

    /// The phase reached from this one on an outcome that fits it.
    pub open spec fn next_phase(&self, o: Outcome<I2cError, SpiError, PinError>) -> Phase<
        I2cError,
        SpiError,
        PinError,
    > {
        match o {
            Outcome::PinFault(e) => match self.phase {
                Phase::DeselectingChip { block_fault: Some(s) } => Phase::Failed(Error::Spi(s)),
                _ => Phase::Failed(Error::Pin(e)),
            },
            Outcome::I2cFault(e) => Phase::Failed(Error::I2c(e)),
            Outcome::SpiFault(e) => Phase::DeselectingChip { block_fault: Some(e) },
            Outcome::BusyLow(low) => match self.phase {
                Phase::AwaitingReady { elapsed } => if low {
                    Phase::PollPause { elapsed }
                } else {
                    Phase::ProbingRegisterBus
                },
                _ => self.phase,
            },
            Outcome::Done => match self.phase {
                Phase::Unreset => Phase::ResetPulse,
                Phase::ResetPulse => Phase::ResetRelease,
                Phase::ResetRelease => Phase::AwaitingReady { elapsed: 0 },
                Phase::PollPause { elapsed } => if elapsed + self.config.poll_ms
                    > RESET_TIMEOUT_MS {
                    Phase::Failed(Error::ResetTimeout)
                } else {
                    Phase::AwaitingReady { elapsed: (elapsed + self.config.poll_ms) as u32 }
                },
                Phase::ProbingRegisterBus => Phase::SelectingChip,
                Phase::SelectingChip => Phase::ProbingBlockBus,
                Phase::ProbingBlockBus => Phase::DeselectingChip { block_fault: None },
                Phase::DeselectingChip { block_fault } => match block_fault {
                    Some(s) => Phase::Failed(Error::Spi(s)),
                    None => Phase::Ready,
                },
                _ => self.phase,
            },
        }
    }

    /// The state after outcome `o`: an outcome that does not fit the pending
    /// operation changes nothing, and the configuration never changes.
    pub open spec fn next(self, o: Outcome<I2cError, SpiError, PinError>) -> Self {
        if self.fits(o) {
            BringUp { config: self.config, phase: self.next_phase(o) }
        } else {
            self
        }
    }

    /// Whether the bring-up is over.
    pub open spec fn finished(&self) -> bool {
        self.phase is Ready || self.phase is Failed
    }
}

impl<I2cError, SpiError, PinError> BringUp<I2cError, SpiError, PinError> {
    /// A bring-up that has done nothing yet, for a driver with `config`.
    pub fn new(config: Config) -> (r: Self)
        ensures
            r.config == config,
            r.phase == Phase::<I2cError, SpiError, PinError>::Unreset,
            r == crate::laws::initial::<I2cError, SpiError, PinError>(config),
    {
        BringUp { config, phase: Phase::Unreset }
    }

    /// The operation to perform next.
    pub fn action(&self) -> (r: Action)
        ensures
            r == self.action_spec(),
    {
        match &self.phase {
            Phase::Unreset => Action::DriveResetLow,
            Phase::ResetPulse => Action::Pause(RESET_PULSE_MS),
            Phase::ResetRelease => Action::DriveResetHigh,
            Phase::AwaitingReady { .. } => Action::ReadBusy,
            Phase::PollPause { .. } => Action::Pause(self.config.poll_ms),
            Phase::ProbingRegisterBus => Action::WriteRegisterProbe,
            Phase::SelectingChip => Action::SelectChip,
            Phase::ProbingBlockBus => Action::WriteBlockProbe,
            Phase::DeselectingChip { .. } => Action::DeselectChip,
            Phase::Ready => Action::Finished,
            Phase::Failed(_) => Action::Finished,
        }
    }

    /// Whether the bring-up is over, so that [`BringUp::into_driver`] may be
    /// called.
    pub fn is_finished(&self) -> (r: bool)
        ensures
            r == self.finished(),
    {
        match &self.phase {
            Phase::Ready => true,
            Phase::Failed(_) => true,
            _ => false,
        }
    }

    /// Advances on what the operation asked for by [`BringUp::action`]
    /// reported. An outcome that this operation cannot report is ignored.
    pub fn step(self, o: Outcome<I2cError, SpiError, PinError>) -> (r: Self)
        ensures
            r == self.next(o),
    {
        let config = self.config;
        let phase = match (self.phase, o) {
            (Phase::Unreset, Outcome::Done) => Phase::ResetPulse,
            (Phase::Unreset, Outcome::PinFault(e)) => Phase::Failed(Error::Pin(e)),
            (Phase::ResetPulse, Outcome::Done) => Phase::ResetRelease,
            (Phase::ResetRelease, Outcome::Done) => Phase::AwaitingReady { elapsed: 0 },
            (Phase::ResetRelease, Outcome::PinFault(e)) => Phase::Failed(Error::Pin(e)),
            (Phase::AwaitingReady { elapsed }, Outcome::BusyLow(low)) => {
                if low {
                    Phase::PollPause { elapsed }
                } else {
                    Phase::ProbingRegisterBus
                }
            },
            (Phase::AwaitingReady { .. }, Outcome::PinFault(e)) => Phase::Failed(Error::Pin(e)),
            (Phase::PollPause { elapsed }, Outcome::Done) => {
                let poll = config.poll_ms;
                if poll > RESET_TIMEOUT_MS || elapsed > RESET_TIMEOUT_MS - poll {
                    Phase::Failed(Error::ResetTimeout)
                } else {
                    Phase::AwaitingReady { elapsed: elapsed + poll }
                }
            },
            (Phase::ProbingRegisterBus, Outcome::Done) => Phase::SelectingChip,
            (Phase::ProbingRegisterBus, Outcome::I2cFault(e)) => Phase::Failed(Error::I2c(e)),
            (Phase::SelectingChip, Outcome::Done) => Phase::ProbingBlockBus,
            (Phase::SelectingChip, Outcome::PinFault(e)) => Phase::Failed(Error::Pin(e)),
            (Phase::ProbingBlockBus, Outcome::Done) => Phase::DeselectingChip { block_fault: None },
            (Phase::ProbingBlockBus, Outcome::SpiFault(e)) => Phase::DeselectingChip {
                block_fault: Some(e),
            },
            (Phase::DeselectingChip { block_fault }, Outcome::Done) => match block_fault {
                Some(s) => Phase::Failed(Error::Spi(s)),
                None => Phase::Ready,
            },
            (Phase::DeselectingChip { block_fault }, Outcome::PinFault(e)) => match block_fault {
                Some(s) => Phase::Failed(Error::Spi(s)),
                None => Phase::Failed(Error::Pin(e)),
            },
            (phase, _) => phase,
        };
        BringUp { config, phase }
    }
}

} // verus!

verus! {

/// The bytes of the register-bus probe write.
pub fn register_probe() -> (r: [u8; 2])
    ensures
        r@ == seq![0x01u8, 0x02u8],
{
    [0x01u8, 0x02u8]
}

/// The bytes of the block-bus probe write.
pub fn block_probe() -> (r: [u8; 2])
    ensures
        r@ == seq![0x02u8, 0x03u8],
{
    [0x02u8, 0x03u8]
}

} // verus!
