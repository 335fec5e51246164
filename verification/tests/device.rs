use ade791x::ade791x::{
    Ade791x, MEASUREMENT_BURST_LEN, RESET_POLLS, RESET_POLL_DELAY_MS, SNAPSHOT_BURST_LEN,
};
use ade791x::bus::BusOp;
use ade791x::register::Register;
use ade791x::{
    AdcFreqVal, AuxCalibration, AuxGain, AuxOffset, Chip, Config, Error, RawMeasurement,
};

type Failure = Error<(), ()>;

fn device(chip: Chip, config: Config, calibration: AuxCalibration) -> Ade791x {
    let mut adc = Ade791x::new(3, chip);
    adc.init(config, calibration);
    adc
}

#[test]
fn new_device_has_reset_configuration() {
    let adc = Ade791x::new(2, Chip::ADE7913);
    assert_eq!(adc.cs, 2);
    assert_eq!(adc.chip, Chip::ADE7913);
    assert_eq!(adc.config, Config::default());
    assert_eq!(adc.calibration, AuxCalibration::default());
    assert_eq!(adc.calibration.offset, AuxOffset::Unset);
    assert_eq!(adc.calibration.gain, AuxGain::Unset);
    assert!(adc.is_dr_source());
}

#[test]
fn constants() {
    assert_eq!(RESET_POLLS, 5);
    assert_eq!(RESET_POLL_DELAY_MS, 100);
    assert_eq!(MEASUREMENT_BURST_LEN, 9);
    assert_eq!(SNAPSHOT_BURST_LEN, 14);
}

#[test]
fn init_keeps_configuration_and_calibration() {
    let config = Config { clkout_en: true, bw: true, ..Config::default() };
    let calibration = AuxCalibration { offset: AuxOffset::Given, gain: AuxGain::Given };
    let adc = device(Chip::ADE7912, config, calibration);
    assert_eq!(adc.cs, 3);
    assert_eq!(adc.chip, Chip::ADE7912);
    assert_eq!(adc.config, config);
    assert_eq!(adc.calibration, calibration);
    assert!(!adc.is_dr_source());
}

#[test]
fn auxiliary_channel_kind() {
    let temp = Config { temp_en: true, ..Config::default() };
    assert!(device(Chip::ADE7912, Config::default(), AuxCalibration::default()).measures_temperature());
    assert!(device(Chip::ADE7912, temp, AuxCalibration::default()).measures_temperature());
    assert!(device(Chip::ADE7913, temp, AuxCalibration::default()).measures_temperature());
    assert!(!device(Chip::ADE7913, Config::default(), AuxCalibration::default()).measures_temperature());
}

#[test]
fn tempos_is_needed_for_an_open_temperature_offset() {
    let open = AuxCalibration::default();
    let given = AuxCalibration { offset: AuxOffset::Given, gain: AuxGain::Unset };
    let temp = Config { temp_en: true, ..Config::default() };
    assert!(device(Chip::ADE7912, Config::default(), open).needs_tempos());
    assert!(device(Chip::ADE7913, temp, open).needs_tempos());
    assert!(!device(Chip::ADE7913, Config::default(), open).needs_tempos());
    assert!(!device(Chip::ADE7912, Config::default(), given).needs_tempos());
}

#[test]
fn calibration_defaults() {
    let open = AuxCalibration::default();
    let narrow = Config { bw: true, ..Config::default() };

    let mut adc = device(Chip::ADE7912, Config::default(), open);
    adc.complete_calibration(0x5E);
    assert_eq!(adc.calibration.offset, AuxOffset::Tempos(94));
    assert_eq!(adc.calibration.gain, AuxGain::TemperatureWideBand);

    let mut adc = device(Chip::ADE7912, narrow, open);
    adc.complete_calibration(0x80);
    assert_eq!(adc.calibration.offset, AuxOffset::Tempos(-128));
    assert_eq!(adc.calibration.gain, AuxGain::TemperatureNarrowBand);

    let mut adc = device(Chip::ADE7913, narrow, open);
    adc.complete_calibration(0x5E);
    assert_eq!(adc.calibration.offset, AuxOffset::Zero);
    assert_eq!(adc.calibration.gain, AuxGain::Unity);

    let mut adc = device(Chip::ADE7913, Config { temp_en: true, ..narrow }, open);
    adc.complete_calibration(0xFF);
    assert_eq!(adc.calibration.offset, AuxOffset::Tempos(-1));
    assert_eq!(adc.calibration.gain, AuxGain::TemperatureNarrowBand);

    let given = AuxCalibration { offset: AuxOffset::Given, gain: AuxGain::Given };
    let mut adc = device(Chip::ADE7912, Config::default(), given);
    adc.complete_calibration(0x5E);
    assert_eq!(adc.calibration, given);
    assert_eq!(adc.config, Config::default());
}

#[test]
fn broadcast_drives_the_chip_select_line() {
    let adc = Ade791x::new(4, Chip::ADE7912);
    assert_eq!(adc.broadcast_listen(), BusOp::SelectLow(4));
    assert_eq!(adc.broadcast_end(), BusOp::SelectHigh(4));
}

#[test]
fn command_frames() {
    let config = Config::from(0x99);
    let adc = device(Chip::ADE7913, config, AuxCalibration::default());
    assert_eq!(adc.hard_reset(), vec![0x00, 0x00, 0x00, 0x00, 0x00, 0x00, 0x00, 0x00]);
    assert_eq!(adc.soft_reset(), vec![0x40, 0x40]);
    assert_eq!(adc.powerdown(), vec![0x40, 0x9C]);
    assert_eq!(adc.wakeup(), vec![0x40, 0x99]);
    assert_eq!(adc.sync(), vec![0x58, 0x01]);
    assert_eq!(adc.snap(), vec![0x58, 0x02]);
    assert_eq!(adc.lock(), vec![0x50, 0xCA]);
    assert_eq!(adc.unlock(), vec![0x50, 0x9C]);
}

#[test]
fn read_reg_frames() {
    let adc = Ade791x::new(0, Chip::ADE7912);
    assert_eq!(adc.read_reg::<(), ()>(Register::Status0), Ok(vec![0x4C, 0x00]));
    assert_eq!(adc.read_reg::<(), ()>(Register::Tempos), Ok(vec![0xC4, 0x00]));
    assert_eq!(adc.read_reg::<(), ()>(Register::Config), Ok(vec![0x44, 0x00]));
    assert_eq!(adc.read_reg::<(), ()>(Register::Lock), Err(Failure::WriteOnlyRegister));
    assert_eq!(adc.read_reg::<(), ()>(Register::SyncSnap), Err(Failure::WriteOnlyRegister));
}

#[test]
fn write_reg_frames() {
    let adc = Ade791x::new(0, Chip::ADE7912);
    assert_eq!(adc.write_reg::<(), ()>(Register::Config, 0x81), Ok(vec![0x40, 0x81]));
    assert_eq!(adc.write_reg::<(), ()>(Register::Lock, 0xCA), Ok(vec![0x50, 0xCA]));
    assert_eq!(adc.write_reg::<(), ()>(Register::Counter1, 0x0F), Ok(vec![0x68, 0x0F]));
    for reg in [
        Register::Iwv,
        Register::V1wv,
        Register::V2wv,
        Register::AdcCrc,
        Register::CtrlCrc,
        Register::CntSnapshot,
        Register::Status0,
        Register::Status1,
        Register::Tempos,
    ] {
        assert_eq!(adc.write_reg::<(), ()>(reg, 0x00), Err(Failure::ReadOnlyRegister));
    }
}

#[test]
fn write_reg_checked_compares_the_readback() {
    let adc = Ade791x::new(0, Chip::ADE7912);
    assert_eq!(adc.write_reg_checked::<(), ()>(0x55, &vec![0x00, 0x55]), Ok(()));
    assert_eq!(adc.write_reg_checked::<(), ()>(0x55, &vec![0x55, 0x55]), Ok(()));
    assert_eq!(
        adc.write_reg_checked::<(), ()>(0x55, &vec![0x55, 0x54]),
        Err(Failure::RegisterContentMismatch)
    );
}

#[test]
fn burst_read_frames() {
    let adc = Ade791x::new(0, Chip::ADE7912);
    assert_eq!(
        adc.burst_read::<(), ()>(Register::Iwv, 9),
        Ok(vec![0x04, 0, 0, 0, 0, 0, 0, 0, 0, 0])
    );
    assert_eq!(adc.burst_read::<(), ()>(Register::Iwv, 14).map(|f| f.len()), Ok(15));
    assert_eq!(adc.burst_read::<(), ()>(Register::V1wv, 3), Ok(vec![0x0C, 0, 0, 0]));
    assert_eq!(adc.burst_read::<(), ()>(Register::V2wv, 0), Ok(vec![0x14]));
    assert_eq!(adc.burst_read::<(), ()>(Register::AdcCrc, 2), Ok(vec![0x24, 0, 0]));
    assert_eq!(adc.burst_read::<(), ()>(Register::Status0, 1), Ok(vec![0x4C, 0]));
    assert_eq!(adc.burst_read::<(), ()>(Register::CntSnapshot, 2), Ok(vec![0x3C, 0, 0]));
    for reg in [
        Register::CtrlCrc,
        Register::Config,
        Register::Lock,
        Register::SyncSnap,
        Register::Counter0,
        Register::Counter1,
        Register::EmiCtrl,
        Register::Status1,
        Register::Tempos,
    ] {
        assert_eq!(adc.burst_read::<(), ()>(reg, 40), Err(Failure::BurstReadNotPermitted));
    }
}

#[test]
fn burst_frame_puts_the_data_in_place() {
    let adc = Ade791x::new(0, Chip::ADE7912);
    assert_eq!(
        adc.burst_frame(Register::Iwv, &vec![0xA0, 1, 2, 3, 4, 5, 6, 7, 8, 9]),
        [0xA0, 1, 2, 3, 4, 5, 6, 7, 8, 9, 0, 0, 0, 0, 0]
    );
    assert_eq!(
        adc.burst_frame(Register::V1wv, &vec![0xA1, 1, 2, 3, 4, 5]),
        [0xA1, 0, 0, 0, 1, 2, 3, 4, 5, 0, 0, 0, 0, 0, 0]
    );
    assert_eq!(
        adc.burst_frame(Register::V2wv, &vec![0xA2, 1, 2, 3]),
        [0xA2, 0, 0, 0, 0, 0, 0, 1, 2, 3, 0, 0, 0, 0, 0]
    );
    assert_eq!(
        adc.burst_frame(Register::AdcCrc, &vec![0xA3, 1, 2]),
        [0xA3, 0, 0, 0, 0, 0, 0, 0, 0, 0, 1, 2, 0, 0, 0]
    );
    assert_eq!(
        adc.burst_frame(Register::Status0, &vec![0xA4, 1, 2, 3]),
        [0xA4, 0, 0, 0, 0, 0, 0, 0, 0, 0, 0, 0, 1, 2, 3]
    );
    assert_eq!(
        adc.burst_frame(Register::CntSnapshot, &vec![0xA5, 1, 2]),
        [0xA5, 0, 0, 0, 0, 0, 0, 0, 0, 0, 0, 0, 0, 1, 2]
    );
    assert_eq!(
        adc.burst_frame(Register::CntSnapshot, &vec![0xA6]),
        [0xA6, 0, 0, 0, 0, 0, 0, 0, 0, 0, 0, 0, 0, 0, 0]
    );
    assert_eq!(
        adc.burst_frame(Register::Iwv, &vec![9, 1, 2, 3, 4, 5, 6, 7, 8, 9, 10, 11, 12, 13, 14]),
        [9, 1, 2, 3, 4, 5, 6, 7, 8, 9, 10, 11, 12, 13, 14]
    );
}

#[test]
fn raw_measurement_of_a_burst() {
    let adc = Ade791x::new(0, Chip::ADE7912);
    assert_eq!(
        adc.get_raw_measurement(&vec![0x04, 0x05, 0xEC, 0xDF, 0x06, 0x17, 0x1C, 0x37, 0xBE, 0x97]),
        RawMeasurement { iwv: 388319, v1wv: 399132, v2wv: 3653271 }
    );
    assert_eq!(
        adc.get_raw_measurement(&vec![0xFF, 0xFF, 0xFF, 0xFE, 0x80, 0x00, 0x01, 0x00, 0x00, 0x00]),
        RawMeasurement { iwv: -2, v1wv: -8_388_607, v2wv: 0 }
    );
}

#[test]
fn counter_snapshot_of_a_burst() {
    let adc = Ade791x::new(0, Chip::ADE7912);
    let mut received = vec![0u8; 15];
    received[13] = 0x01;
    received[14] = 0xFF;
    assert_eq!(adc.get_cnt_snapshot(&received), 511);
    received[13] = 0xFF;
    received[14] = 0xFE;
    assert_eq!(adc.get_cnt_snapshot(&received), 0xFFFE);
}

#[test]
fn adjust_sync_reports_the_drift() {
    let adc = Ade791x::new(0, Chip::ADE7912);
    assert_eq!(adc.adjust_sync(100, 100), (0, None));
    assert_eq!(adc.adjust_sync(101, 100), (1, None));
    assert_eq!(adc.adjust_sync(99, 100), (-1, None));
    assert_eq!(adc.adjust_sync(0, 0), (0, None));
    // Ahead of the reference: cref + c0 - c.
    assert_eq!(adc.adjust_sync(102, 100), (2, Some(509)));
    assert_eq!(adc.adjust_sync(511, 0), (511, Some(0)));
    // Behind the reference: cref - c.
    assert_eq!(adc.adjust_sync(98, 100), (-2, Some(2)));
    assert_eq!(adc.adjust_sync(0, 511), (-511, Some(511)));
}

#[test]
fn adjust_sync_uses_the_modulus_of_the_frequency() {
    let at = |adc_freq| {
        device(Chip::ADE7913, Config { adc_freq, ..Config::default() }, AuxCalibration::default())
    };
    assert_eq!(at(AdcFreqVal::KHz8).adjust_sync(300, 100), (200, Some(311)));
    assert_eq!(at(AdcFreqVal::KHz4).adjust_sync(300, 100), (200, Some(823)));
    assert_eq!(at(AdcFreqVal::KHz2).adjust_sync(300, 100), (200, Some(1847)));
    assert_eq!(at(AdcFreqVal::KHz1).adjust_sync(300, 100), (200, Some(3895)));
    assert_eq!(at(AdcFreqVal::KHz1).adjust_sync(100, 300), (-200, Some(200)));
}

#[test]
fn adjust_sync_counts_in_sixteen_bits() {
    let adc = Ade791x::new(0, Chip::ADE7912);
    // The drift is a signed 16-bit number.
    assert_eq!(adc.adjust_sync(0xFFFF, 0).0, -1);
    assert_eq!(adc.adjust_sync(0xFFFF, 0).1, None);
    assert_eq!(adc.adjust_sync(0, 0xFFFF), (1, None));
    assert_eq!(adc.adjust_sync(0x8000, 0).0, -32768);
    assert_eq!(adc.adjust_sync(0x7FFF, 0), (32767, Some(0x8200)));
    // 0 + 511 - 0x8000 wraps around.
    assert_eq!(adc.adjust_sync(0x8000, 0), (-32768, Some(0x81FF)));
    assert_eq!(adc.adjust_sync(0, 0x8000), (-32768, Some(0x8000)));
}
