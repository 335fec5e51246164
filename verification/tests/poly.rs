use ade791x::bus::{BusOp, Output, Reply, Step};
use ade791x::poly::Ade791x;
use ade791x::{AuxCalibration, AuxGain, AuxOffset, Chip, Config, EmiCtrl, Error, RawMeasurement};
use embedded_hal::blocking::delay::DelayMs;
use embedded_hal::blocking::spi::Transfer;
use embedded_hal::digital::v2::OutputPin;
use embedded_hal_mock::delay::MockNoop;
use embedded_hal_mock::pin::{Mock as PinMock, State as PinState, Transaction as PinTransaction};
use embedded_hal_mock::spi::{Mock as SpiMock, Transaction as SpiTransaction};
use embedded_hal_mock::MockError;

/// The hardware of several devices: the bus, one chip-select pin for each
/// device and a delay.
struct Board {
    spi: SpiMock,
    cs: Vec<PinMock>,
    delay: MockNoop,
}

impl Board {
    fn new(spi: SpiMock, cs: Vec<PinMock>) -> Self {
        Board { spi, cs, delay: MockNoop::new() }
    }

    fn perform(&mut self, op: BusOp) -> Reply<MockError, MockError> {
        match op {
            BusOp::SelectLow(device) => match self.cs[device].set_low() {
                Ok(()) => Reply::PinSet,
                Err(e) => Reply::PinFailed(e),
            },
            BusOp::SelectHigh(device) => match self.cs[device].set_high() {
                Ok(()) => Reply::PinSet,
                Err(e) => Reply::PinFailed(e),
            },
            BusOp::Transfer(mut bytes) => match self.spi.transfer(&mut bytes) {
                Ok(_) => Reply::Received(bytes),
                Err(e) => Reply::SpiFailed(e),
            },
            BusOp::DelayMs(ms) => {
                self.delay.delay_ms(ms);
                Reply::Elapsed
            }
        }
    }

    /// Performs what the driver wants until its operation ends.
    fn run(
        &mut self,
        adc: &mut Ade791x<MockError, MockError>,
        first: Step<MockError, MockError>,
    ) -> Result<Output, Error<MockError, MockError>> {
        let mut step = first;
        loop {
            match step {
                Step::Perform(op) => {
                    let reply = self.perform(op);
                    step = adc.resume(reply);
                }
                Step::Ready(result) => return result,
            }
        }
    }

    /// Checks that everything expected of the hardware has happened.
    fn done(&mut self) {
        self.spi.done();
        for cs in self.cs.iter_mut() {
            cs.done();
        }
    }
}

fn raw_of(output: Output) -> Vec<RawMeasurement> {
    match output {
        Output::Raw(raw) => raw,
        other => panic!("not a measurement: {:?}", other),
    }
}

/// A measurement in amperes, volts and degrees Celsius.
#[derive(Debug, Copy, Clone, PartialEq)]
struct Measurement {
    current: f32,
    voltage: f32,
    aux: MeasurementAux,
}

#[derive(Debug, Copy, Clone, PartialEq)]
enum MeasurementAux {
    Voltage(f32),
    Temperature(f32),
}

fn map_adc(x: i32, out_min: f32, out_max: f32) -> f32 {
    (x + 8_388_608) as f32 * (out_max - out_min) / 16_777_215.0 + out_min
}

/// Converts the raw measurement of device `i` with current and voltage
/// calibration left at offset 0 and gain 1, and the auxiliary calibration
/// that the driver chose.
fn convert(adc: &Ade791x<MockError, MockError>, i: usize, raw: RawMeasurement) -> Measurement {
    let device = adc.adc(i);
    let aux_offset = match device.calibration.offset {
        AuxOffset::Tempos(t) => t as f32,
        _ => 0.0,
    };
    let aux_gain = match device.calibration.gain {
        AuxGain::TemperatureNarrowBand => 8.21015e-5,
        AuxGain::TemperatureWideBand => 8.72101e-5,
        _ => 1.0,
    };
    Measurement {
        current: (map_adc(raw.iwv, -49.27, 49.27) - 0.0) * 1.0,
        voltage: (map_adc(raw.v1wv, -788.0, 788.0) - 0.0) * 1.0,
        aux: if device.measures_temperature() {
            MeasurementAux::Temperature(
                aux_gain * raw.v2wv as f32 + 8.72101e-5 * aux_offset * 2048.0 - 306.47,
            )
        } else {
            MeasurementAux::Voltage((map_adc(raw.v2wv, -788.0, 788.0) - aux_offset) * aux_gain)
        },
    }
}

#[test]
fn init() {
    let spi_expectations = [
        // Read STATUS0 (wait reset)
        SpiTransaction::transfer(vec![0x4C, 0x00], vec![0x4C, 0x00]),
        // Write/Read CONFIG (checked write)
        SpiTransaction::transfer(vec![0x40, 0x01], vec![0x40, 0x01]),
        SpiTransaction::transfer(vec![0x44, 0x00], vec![0x44, 0x01]),
        // Write/Read EMI_CTRL (checked write)
        SpiTransaction::transfer(vec![0x70, 0x55], vec![0x70, 0x55]),
        SpiTransaction::transfer(vec![0x74, 0x00], vec![0x74, 0x55]),
        // Read TEMPOS (temperature offset)
        SpiTransaction::transfer(vec![0xC4, 0x00], vec![0xC4, 0x5E]),

        // Read STATUS0 (wait reset)
        SpiTransaction::transfer(vec![0x4C, 0x00], vec![0x4C, 0x00]),
        // Write/Read CONFIG (checked write)
        SpiTransaction::transfer(vec![0x40, 0x01], vec![0x40, 0x01]),
        SpiTransaction::transfer(vec![0x44, 0x00], vec![0x44, 0x01]),
        // Write/Read EMI_CTRL (checked write)
        SpiTransaction::transfer(vec![0x70, 0xAA], vec![0x70, 0xAA]),
        SpiTransaction::transfer(vec![0x74, 0x00], vec![0x74, 0xAA]),

        // Read STATUS0 (wait reset)
        SpiTransaction::transfer(vec![0x4C, 0x00], vec![0x4C, 0x00]),
        // Write/Read CONFIG (checked write)
        SpiTransaction::transfer(vec![0x40, 0x00], vec![0x40, 0x00]),
        SpiTransaction::transfer(vec![0x44, 0x00], vec![0x44, 0x00]),
        // Write/Read EMI_CTRL (checked write)
        SpiTransaction::transfer(vec![0x70, 0x55], vec![0x70, 0x55]),
        SpiTransaction::transfer(vec![0x74, 0x00], vec![0x74, 0x55]),
        // Read TEMPOS (temperature offset)
        SpiTransaction::transfer(vec![0xC4, 0x00], vec![0xC4, 0x6A]),

        // Write SYNC (sync trigger)
        SpiTransaction::transfer(vec![0x58, 0x01], vec![0x58, 0x01]),
        // Write LOCK (lock enable)
        SpiTransaction::transfer(vec![0x50, 0xCA], vec![0x50, 0xCA])
    ];
    let cs_expectations = [
        PinTransaction::set(PinState::Low), PinTransaction::set(PinState::High),
        PinTransaction::set(PinState::Low), PinTransaction::set(PinState::High),
        PinTransaction::set(PinState::Low), PinTransaction::set(PinState::High),
        PinTransaction::set(PinState::Low), PinTransaction::set(PinState::High),
        PinTransaction::set(PinState::Low), PinTransaction::set(PinState::High),
        PinTransaction::set(PinState::Low), PinTransaction::set(PinState::High),
        PinTransaction::set(PinState::Low), PinTransaction::set(PinState::High),
        PinTransaction::set(PinState::Low), PinTransaction::set(PinState::High)
    ];
    let spi = SpiMock::new(&spi_expectations);
    let cs0 = PinMock::new(&cs_expectations);
    let cs1 = PinMock::new(&cs_expectations[2..]);
    let cs2 = PinMock::new(&cs_expectations);
    let mut board = Board::new(spi, vec![cs0, cs1, cs2]);
    let config = vec![
        Config { clkout_en: true, ..Default::default() },
        Config { clkout_en: true, ..Default::default() },
        Config::default()
    ];
    let calibration = vec![AuxCalibration::default(); 3];
    let emi_ctrl = vec![
        EmiCtrl::from(0x55),
        EmiCtrl::from(0xAA),
        EmiCtrl::from(0x55)
    ];
    let mut adc = Ade791x::new(vec![Chip::ADE7912, Chip::ADE7913, Chip::ADE7912]);
    let first = adc.init(config, calibration, emi_ctrl);
    board.run(&mut adc, first).unwrap();
    board.done();
    assert_eq!(adc.adc(0).calibration.offset, AuxOffset::Tempos(0x5E));
    assert_eq!(adc.adc(1).calibration.offset, AuxOffset::Zero);
    assert_eq!(adc.adc(1).calibration.gain, AuxGain::Unity);
    assert_eq!(adc.adc(2).calibration.offset, AuxOffset::Tempos(0x6A));
}

#[test]
fn poly_init_timeout() {
    let spi_expectations = [
        // Read STATUS0 (wait reset)
        SpiTransaction::transfer(vec![0x4C, 0x00], vec![0x4C, 0x01]),
        SpiTransaction::transfer(vec![0x4C, 0x00], vec![0x4C, 0x01]),
        SpiTransaction::transfer(vec![0x4C, 0x00], vec![0x4C, 0x01]),
        SpiTransaction::transfer(vec![0x4C, 0x00], vec![0x4C, 0x01]),
        SpiTransaction::transfer(vec![0x4C, 0x00], vec![0x4C, 0x01])
    ];
    let cs_expectations = [
        PinTransaction::set(PinState::Low), PinTransaction::set(PinState::High),
        PinTransaction::set(PinState::Low), PinTransaction::set(PinState::High),
        PinTransaction::set(PinState::Low), PinTransaction::set(PinState::High),
        PinTransaction::set(PinState::Low), PinTransaction::set(PinState::High),
        PinTransaction::set(PinState::Low), PinTransaction::set(PinState::High)
    ];
    let spi = SpiMock::new(&spi_expectations);
    let cs0 = PinMock::new(&cs_expectations);
    let cs1 = PinMock::new(&[]);
    let cs2 = PinMock::new(&[]);
    let mut board = Board::new(spi, vec![cs0, cs1, cs2]);
    let config = vec![Config::default(); 3];
    let calibration = vec![AuxCalibration::default(); 3];
    let emi_ctrl = vec![EmiCtrl::default(); 3];
    let mut adc = Ade791x::new(vec![Chip::ADE7912, Chip::ADE7912, Chip::ADE7912]);
    let first = adc.init(config, calibration, emi_ctrl);
    assert_eq!(board.run(&mut adc, first), Err(Error::ResetTimeout));
    board.done();
}

#[test]
fn poly_hard_reset() {
    let spi_expectations = [
        // Write hard reset sequence
        SpiTransaction::transfer(vec![0x00; 8], vec![0x00; 8])
    ];
    let cs_expectations = [
        PinTransaction::set(PinState::Low), PinTransaction::set(PinState::High)
    ];
    let spi = SpiMock::new(&spi_expectations);
    let cs0 = PinMock::new(&cs_expectations);
    let cs1 = PinMock::new(&cs_expectations);
    let cs2 = PinMock::new(&cs_expectations);
    let mut board = Board::new(spi, vec![cs0, cs1, cs2]);
    let mut adc = Ade791x::new(vec![Chip::ADE7912, Chip::ADE7912, Chip::ADE7912]);
    let first = adc.hard_reset();
    board.run(&mut adc, first).unwrap();
    board.done();
}

#[test]
fn poly_soft_reset() {
    let spi_expectations = [
        // Write LOCK (lock disable)
        SpiTransaction::transfer(vec![0x50, 0x9C], vec![0x50, 0x9C]),
        // Write CONFIG (software reset)
        SpiTransaction::transfer(vec![0x40, 0x40], vec![0x40, 0x40]),
        SpiTransaction::transfer(vec![0x40, 0x40], vec![0x40, 0x40]),
        SpiTransaction::transfer(vec![0x40, 0x40], vec![0x40, 0x40])
    ];
    let cs_expectations = [
        PinTransaction::set(PinState::Low), PinTransaction::set(PinState::High),
        PinTransaction::set(PinState::Low), PinTransaction::set(PinState::High)
    ];
    let spi = SpiMock::new(&spi_expectations);
    let cs0 = PinMock::new(&cs_expectations);
    let cs1 = PinMock::new(&cs_expectations);
    let cs2 = PinMock::new(&cs_expectations);
    let mut board = Board::new(spi, vec![cs0, cs1, cs2]);
    let mut adc = Ade791x::new(vec![Chip::ADE7912, Chip::ADE7912, Chip::ADE7912]);
    let first = adc.soft_reset();
    board.run(&mut adc, first).unwrap();
    board.done();
}

#[test]
fn poly_powerdown() {
    let spi_expectations = [
        // Write LOCK (lock disable)
        SpiTransaction::transfer(vec![0x50, 0x9C], vec![0x50, 0x9C]),
        // Write CONFIG (powerdown enable)
        SpiTransaction::transfer(vec![0x40, 0x04], vec![0x40, 0x04]),
        SpiTransaction::transfer(vec![0x40, 0x04], vec![0x40, 0x04]),
        SpiTransaction::transfer(vec![0x40, 0x04], vec![0x40, 0x04]),
        // Write LOCK (lock enable)
        SpiTransaction::transfer(vec![0x50, 0xCA], vec![0x50, 0xCA]),
    ];
    let cs_expectations = [
        PinTransaction::set(PinState::Low), PinTransaction::set(PinState::High),
        PinTransaction::set(PinState::Low), PinTransaction::set(PinState::High),
        PinTransaction::set(PinState::Low), PinTransaction::set(PinState::High)
    ];
    let spi = SpiMock::new(&spi_expectations);
    let cs0 = PinMock::new(&cs_expectations);
    let cs1 = PinMock::new(&cs_expectations);
    let cs2 = PinMock::new(&cs_expectations);
    let mut board = Board::new(spi, vec![cs0, cs1, cs2]);
    let mut adc = Ade791x::new(vec![Chip::ADE7912, Chip::ADE7912, Chip::ADE7912]);
    let first = adc.powerdown();
    board.run(&mut adc, first).unwrap();
    board.done();
}

#[test]
fn poly_wakeup() {
    let spi_expectations = [
        // Write LOCK (lock enable)
        SpiTransaction::transfer(vec![0x50, 0x9C], vec![0x50, 0x9C]),
        // Write CONFIG (powerdown disable)
        SpiTransaction::transfer(vec![0x40, 0x00], vec![0x40, 0x00]),
        SpiTransaction::transfer(vec![0x40, 0x00], vec![0x40, 0x00]),
        SpiTransaction::transfer(vec![0x40, 0x00], vec![0x40, 0x00]),
        // Write LOCK (lock disable)
        SpiTransaction::transfer(vec![0x50, 0xCA], vec![0x50, 0xCA]),
    ];
    let cs_expectations = [
        PinTransaction::set(PinState::Low), PinTransaction::set(PinState::High),
        PinTransaction::set(PinState::Low), PinTransaction::set(PinState::High),
        PinTransaction::set(PinState::Low), PinTransaction::set(PinState::High)
    ];
    let spi = SpiMock::new(&spi_expectations);
    let cs0 = PinMock::new(&cs_expectations);
    let cs1 = PinMock::new(&cs_expectations);
    let cs2 = PinMock::new(&cs_expectations);
    let mut board = Board::new(spi, vec![cs0, cs1, cs2]);
    let mut adc = Ade791x::new(vec![Chip::ADE7912, Chip::ADE7912, Chip::ADE7912]);
    let first = adc.wakeup();
    board.run(&mut adc, first).unwrap();
    board.done();
}

#[test]
fn poly_get_raw_measurement() {
    let spi_expectations = [
        // Burst Read (from IWV to V2WV)
        SpiTransaction::transfer(
            vec![0x04, 0x00, 0x00, 0x00, 0x00, 0x00, 0x00, 0x00, 0x00, 0x00],
            vec![0x04, 0x05, 0xEC, 0xDF, 0x06, 0x17, 0x1C, 0x37, 0xBE, 0x97]),
        SpiTransaction::transfer(
            vec![0x04, 0x00, 0x00, 0x00, 0x00, 0x00, 0x00, 0x00, 0x00, 0x00],
            vec![0x04, 0x06, 0x13, 0x83, 0x05, 0xEC, 0x10, 0x37, 0x9B, 0x6E]),
        SpiTransaction::transfer(
            vec![0x04, 0x00, 0x00, 0x00, 0x00, 0x00, 0x00, 0x00, 0x00, 0x00],
            vec![0x04, 0x05, 0xE9, 0x51, 0x06, 0x1A, 0x97, 0x39, 0x6B, 0x84]),
    ];
    let cs_expectations = [
        PinTransaction::set(PinState::Low), PinTransaction::set(PinState::High)
    ];
    let spi = SpiMock::new(&spi_expectations);
    let cs0 = PinMock::new(&cs_expectations);
    let cs1 = PinMock::new(&cs_expectations);
    let cs2 = PinMock::new(&cs_expectations);
    let mut board = Board::new(spi, vec![cs0, cs1, cs2]);
    let mut adc = Ade791x::new(vec![Chip::ADE7912, Chip::ADE7912, Chip::ADE7912]);
    let first = adc.get_raw_measurement();
    assert_eq!(
        raw_of(board.run(&mut adc, first).unwrap()),
        [
            RawMeasurement { iwv: 388319, v1wv: 399132, v2wv: 3653271 },
            RawMeasurement { iwv: 398211, v1wv: 388112, v2wv: 3644270 },
            RawMeasurement { iwv: 387409, v1wv: 400023, v2wv: 3763076 }
        ]
    );
    board.done();
}

#[test]
fn get_measurement() {
    let spi_expectations = [
        // Burst Read (from IWV to V2WV)
        SpiTransaction::transfer(
            vec![0x04, 0x00, 0x00, 0x00, 0x00, 0x00, 0x00, 0x00, 0x00, 0x00],
            vec![0x04, 0x05, 0xEC, 0xDF, 0x06, 0x17, 0x1C, 0x37, 0xBE, 0x97]),
        SpiTransaction::transfer(
            vec![0x04, 0x00, 0x00, 0x00, 0x00, 0x00, 0x00, 0x00, 0x00, 0x00],
            vec![0x04, 0x06, 0x13, 0x83, 0x05, 0xEC, 0x10, 0x37, 0x9B, 0x6E]),
        SpiTransaction::transfer(
            vec![0x04, 0x00, 0x00, 0x00, 0x00, 0x00, 0x00, 0x00, 0x00, 0x00],
            vec![0x04, 0x05, 0xE9, 0x51, 0x06, 0x1A, 0x97, 0x39, 0x6B, 0x84]),
    ];
    let cs_expectations = [
        PinTransaction::set(PinState::Low), PinTransaction::set(PinState::High)
    ];
    let spi = SpiMock::new(&spi_expectations);
    let cs0 = PinMock::new(&cs_expectations);
    let cs1 = PinMock::new(&cs_expectations);
    let cs2 = PinMock::new(&cs_expectations);
    let mut board = Board::new(spi, vec![cs0, cs1, cs2]);
    let mut adc = Ade791x::new(vec![Chip::ADE7912, Chip::ADE7913, Chip::ADE7912]);
    let first = adc.get_raw_measurement();
    let raw = raw_of(board.run(&mut adc, first).unwrap());
    assert_eq!(
        [convert(&adc, 0, raw[0]), convert(&adc, 1, raw[1]), convert(&adc, 2, raw[2])],
        [
            Measurement {
                current: 2.2807732,
                voltage: 37.493286,
                aux: MeasurementAux::Temperature(3652964.53)
            },
            Measurement {
                current: 2.3388748,
                voltage: 36.45813,
                aux: MeasurementAux::Voltage(342.33167)
            },
            Measurement {
                current: 2.2754288,
                voltage: 37.576965,
                aux: MeasurementAux::Temperature(3762769.53)
            }
        ]
    );
    board.done();
}
