//! Driver core for the ADE7912/ADE7913 3-channel, isolated, sigma-delta ADCs.
//!
//! The devices sit on a shared SPI bus, each behind its own chip-select line.
//! This crate holds everything the driver decides: the bit-exact register
//! codec, the SPI frames of every transaction, the decoding of burst reads,
//! and the order in which chip-select lines, transfers and delays follow one
//! another, for one device or for several in a polyphase metering system.
//!
//! The crate performs no I/O. An operation is started on a driver value and
//! answers with a [`bus::Step`]: either one [`bus::BusOp`] that the caller
//! carries out on its hardware, reporting the outcome through `resume`, or
//! the result of the operation.
//!
//! The crate holds no floating-point number either. It hands back raw
//! measurements and tells what the auxiliary channel of a device measures
//! and where its calibration comes from; the conversion to amperes, volts and
//! degrees Celsius is left to the caller.
//!
//! - [`register`]: the register map and the byte encoding of each register.
//! - [`bus`]: what passes between the driver and the hardware.
//! - [`ade791x`]: one device: its frames and the meaning of its answers.
//! - [`poly`]: the driver of several devices on one bus, with
//!   [`poly::state`], what it does as mathematics, and [`poly::laws`], what
//!   holds of every operation.
//! - [`Ade791x`]: the driver of a single device.

use vstd::prelude::*;

pub use crate::register::{AdcFreqVal, Config, EmiCtrl, Status0};

pub mod ade791x;
pub mod bus;
pub mod poly;
pub mod register;

verus! {

/// Contains the raw values coming from the ADC: three signed 24-bit samples,
/// each sign-extended into an `i32`.
#[derive(Debug, Copy, Clone, PartialEq, Eq, Structural)]
pub struct RawMeasurement {
    /// Raw current channel value.
    pub iwv: i32,
    /// Raw voltage 1 channel value.
    pub v1wv: i32,
    /// Raw voltage 2 channel value.
    pub v2wv: i32,
}

/// Represents the chips of the ADE791x family.
#[derive(Debug, Copy, Clone, PartialEq, Eq, Structural)]
pub enum Chip {
    /// Two ADCs: current and one voltage channel; the auxiliary channel
    /// always measures the die temperature.
    ADE7912,
    /// Three ADCs: current and two voltage channels; the auxiliary channel
    /// measures a second voltage or the die temperature.
    ADE7913,
}

/// Represents the possible errors. `S` is the error of the SPI peripheral and
/// `P` the error of a chip-select pin.
#[derive(Debug, PartialEq, Eq)]
pub enum Error<S, P> {
    /// The SPI transfer failed.
    SpiError(S),
    /// Driving a chip-select pin failed.
    PinError(P),
    /// The device still reported a reset in progress after the last poll.
    ResetTimeout,
    /// A write was attempted on a read-only register.
    ReadOnlyRegister,
    /// A read was attempted on a write-only register.
    WriteOnlyRegister,
    /// A burst read was attempted from a register that cannot start one.
    BurstReadNotPermitted,
    /// A checked write read back a different byte than it wrote.
    RegisterContentMismatch,
}

/// Where the calibration offset of the auxiliary channel comes from.
#[derive(Debug, Copy, Clone, PartialEq, Eq, Structural)]
pub enum AuxOffset {
    /// Not chosen yet: initialization picks one of the defaults below.
    Unset,
    /// The caller has a value of its own.
    Given,
    /// The temperature offset that the device holds in its Tempos register,
    /// a signed number.
    Tempos(i8),
    /// No offset: the channel measures a voltage.
    Zero,
}

/// Where the calibration gain of the auxiliary channel comes from.
#[derive(Debug, Copy, Clone, PartialEq, Eq, Structural)]
pub enum AuxGain {
    /// Not chosen yet: initialization picks one of the defaults below.
    Unset,
    /// The caller has a value of its own.
    Given,
    /// The temperature gain of the device with the 2 kHz filter.
    TemperatureNarrowBand,
    /// The temperature gain of the device with the 3.3 kHz filter.
    TemperatureWideBand,
    /// Gain one: the channel measures a voltage.
    Unity,
}

/// The calibration of the auxiliary channel, as far as the driver decides
/// it. The numbers themselves, and the calibration of the other two channels,
/// stay with the caller, who converts the raw measurements.
#[derive(Debug, Copy, Clone, PartialEq, Eq, Structural)]
pub struct AuxCalibration {
    pub offset: AuxOffset,
    pub gain: AuxGain,
}

impl AuxCalibration {
    /// Offset and gain both left to initialization.
    pub open spec fn spec_default() -> AuxCalibration {
        AuxCalibration { offset: AuxOffset::Unset, gain: AuxGain::Unset }
    }
}

impl Default for AuxCalibration {
    fn default() -> (c: Self)
        ensures
            c == AuxCalibration::spec_default(),
    {
        AuxCalibration { offset: AuxOffset::Unset, gain: AuxGain::Unset }
    }
}

/// Represents a single ADE7912/ADE7913 3-Channel, Isolated, Sigma-Delta ADC
/// with SPI: a [`poly::Ade791x`] with one device, behind chip-select line 0.
/// With one device nothing listens to a broadcast.
///
/// `S` is the error of the SPI peripheral and `P` the error of the
/// chip-select pin, as the replies to the driver report them.
pub struct Ade791x<S, P> {
    adc: poly::Ade791x<S, P>,
}

impl<S, P> View for Ade791x<S, P> {
    type V = poly::State;

    closed spec fn view(&self) -> poly::State {
        self.adc@
    }
}

impl<S, P> Ade791x<S, P> {
    /// The invariant of the driver: that of [`poly::Ade791x`], with one
    /// device.
    pub open spec fn wf(&self) -> bool {
        self@.wf() && self@.n() == 1
    }

    /// Creates a new [`Ade791x`] instance representing a ADE7912 chip. It
    /// must then be initialized using [`Self::init`].
    pub fn new_ade7912() -> (adc: Self)
        ensures
            adc.wf(),
            adc@ == poly::State::fresh(seq![Chip::ADE7912]),
    {
        let mut chips: Vec<Chip> = Vec::new();
        chips.push(Chip::ADE7912);
        assert(chips@ =~= seq![Chip::ADE7912]);
        Ade791x { adc: poly::Ade791x::new(chips) }
    }

    /// Creates a new [`Ade791x`] instance representing a ADE7913 chip. It
    /// must then be initialized using [`Self::init`].
    pub fn new_ade7913() -> (adc: Self)
        ensures
            adc.wf(),
            adc@ == poly::State::fresh(seq![Chip::ADE7913]),
    {
        let mut chips: Vec<Chip> = Vec::new();
        chips.push(Chip::ADE7913);
        assert(chips@ =~= seq![Chip::ADE7913]);
        Ade791x { adc: poly::Ade791x::new(chips) }
    }

    /// Returns the device, with the configuration and the calibration applied
    /// to it last.
    pub fn adc(&self) -> (adc: ade791x::Ade791x)
        requires
            self.wf(),
        ensures
            adc == self@.adcs[0],
    {
        self.adc.adc(0)
    }

    /// Initializes the ADC, applying the given configuration and calibration
    /// and enabling all EMI slots. After this operation, the ADC is ready to
    /// use.
    pub fn init(&mut self, config: Config, calibration: AuxCalibration) -> (step: bus::Step<
        S,
        P,
    >)
        requires
            old(self).wf(),
        ensures
            final(self).wf(),
            (final(self)@, step@) == old(self)@.init::<S, P>(
                seq![config],
                seq![calibration],
                seq![EmiCtrl::decode(0xFF)],
            ),
            old(self)@.started(poly::Operation::Init).names(final(self)@, step@),
    {
        let mut configs: Vec<Config> = Vec::new();
        configs.push(config);
        let mut calibrations: Vec<AuxCalibration> = Vec::new();
        calibrations.push(calibration);
        let mut emi_ctrls: Vec<EmiCtrl> = Vec::new();
        emi_ctrls.push(EmiCtrl::default());
        assert(configs@ =~= seq![config]);
        assert(calibrations@ =~= seq![calibration]);
        assert(emi_ctrls@ =~= seq![EmiCtrl::decode(0xFF)]);
        self.adc.init(configs, calibrations, emi_ctrls)
    }

    /// Performs a hardware reset of the ADC. All the registers return to
    /// their default values and the dc-to-dc converter is shut down. After a
    /// hardware reset, the ADC needs to be initialized again, using
    /// [`Self::init`].
    pub fn hard_reset(&mut self) -> (step: bus::Step<S, P>)
        requires
            old(self).wf(),
        ensures
            final(self).wf(),
            (final(self)@, step@) == old(self)@.hard_reset::<S, P>(),
            old(self)@.started(poly::Operation::HardReset).names(final(self)@, step@),
    {
        self.adc.hard_reset()
    }

    /// Performs a software reset of the ADC. All the internal registers
    /// return to their default values; the dc-to-dc converter continues to
    /// function. After a software reset, the ADC needs to be initialized
    /// again, using [`Self::init`].
    pub fn soft_reset(&mut self) -> (step: bus::Step<S, P>)
        requires
            old(self).wf(),
        ensures
            final(self).wf(),
            (final(self)@, step@) == old(self)@.unlock::<S, P>(poly::Operation::SoftReset),
            old(self)@.started(poly::Operation::SoftReset).names(final(self)@, step@),
    {
        self.adc.soft_reset()
    }

    /// Powers down the ADC by turning off the dc-to-dc converter and
    /// shutting down the modulators. The configuration registers keep their
    /// values, but the measurements are undefined until [`Self::wakeup`].
    pub fn powerdown(&mut self) -> (step: bus::Step<S, P>)
        requires
            old(self).wf(),
        ensures
            final(self).wf(),
            (final(self)@, step@) == old(self)@.unlock::<S, P>(poly::Operation::Powerdown),
            old(self)@.started(poly::Operation::Powerdown).names(final(self)@, step@),
    {
        self.adc.powerdown()
    }

    /// Wakes up the ADC by turning on the dc-to-dc converter and activating
    /// the modulators.
    pub fn wakeup(&mut self) -> (step: bus::Step<S, P>)
        requires
            old(self).wf(),
        ensures
            final(self).wf(),
            (final(self)@, step@) == old(self)@.unlock::<S, P>(poly::Operation::Wakeup),
            old(self)@.started(poly::Operation::Wakeup).names(final(self)@, step@),
    {
        self.adc.wakeup()
    }

    /// Reads the latest available measurement of the ADC, without converting
    /// it. Start this operation when the DREADY pin signals a new
    /// measurement. The operation hands back one raw measurement. The CRC of
    /// the samples is not checked.
    pub fn get_raw_measurement(&mut self) -> (step: bus::Step<S, P>)
        requires
            old(self).wf(),
        ensures
            final(self).wf(),
            (final(self)@, step@) == old(self)@.get_raw_measurement::<S, P>(),
            old(self)@.started(poly::Operation::GetRawMeasurement).names(final(self)@, step@),
            step@ is Perform,
    {
        self.adc.get_raw_measurement()
    }

    /// Returns `true` if no operation is going on, so that
    /// [`Self::resume`] has nothing to take a reply to.
    pub fn is_idle(&self) -> (idle: bool)
        ensures
            idle == (self@.operation is Idle),
            self.wf() ==> idle == (self@.pending() is None),
    {
        self.adc.is_idle()
    }

    /// Takes the reply to the bus operation that the driver named last and
    /// returns what the driver wants next, as [`poly::Ade791x::resume`]
    /// does. A measurement that ends with success hands back exactly one raw
    /// measurement.
    pub fn resume(&mut self, reply: bus::Reply<S, P>) -> (step: bus::Step<S, P>)
        requires
            old(self).wf(),
            old(self)@.pending() is Some,
            reply.answers(old(self)@.pending()->Some_0),
        ensures
            final(self).wf(),
            (final(self)@, step@) == old(self)@.next(reply),
            old(self)@.names(final(self)@, step@),
            step@ matches bus::StepView::Ready(Ok(bus::OutputView::Raw(raw))) ==> raw.len() == 1
                && raw[0] == ade791x::Ade791x::spec_get_raw_measurement(final(self)@.received),
    {
        proof {
            if old(self)@.operation is GetRawMeasurement && old(self)@.next(reply).1 matches bus::StepView::Ready(
                Ok(_),
            ) {
                poly::laws::lemma_measurement_of_each_device(old(self)@, reply);
            }
        }
        self.adc.resume(reply)
    }
}

} // verus!
