use ade791x::register::{Access, BurstRead, LockOp, Register, SpiOp, SyncSnap};
use ade791x::{AdcFreqVal, Config, EmiCtrl, Status0};

const REGISTERS: [Register; 15] = [
    Register::Iwv,
    Register::V1wv,
    Register::V2wv,
    Register::AdcCrc,
    Register::CtrlCrc,
    Register::CntSnapshot,
    Register::Config,
    Register::Status0,
    Register::Lock,
    Register::SyncSnap,
    Register::Counter0,
    Register::Counter1,
    Register::EmiCtrl,
    Register::Status1,
    Register::Tempos,
];

#[test]
fn config_byte_round_trip() {
    for b in 0..=255u8 {
        let encoded = u8::from(Config::from(b));
        // Every defined bit comes back; bit 1, which is not defined, is clear.
        assert_eq!(encoded, b & 0xFD);
        assert_eq!(encoded & 0x02, 0);
    }
}

#[test]
fn config_round_trip() {
    let frequencies = [AdcFreqVal::KHz8, AdcFreqVal::KHz4, AdcFreqVal::KHz2, AdcFreqVal::KHz1];
    for bits in 0..32u8 {
        for adc_freq in frequencies {
            let config = Config {
                clkout_en: bits & 1 != 0,
                pwrdwn_en: bits & 2 != 0,
                temp_en: bits & 4 != 0,
                adc_freq,
                swrst: bits & 8 != 0,
                bw: bits & 16 != 0,
            };
            assert_eq!(Config::from(u8::from(config)), config);
        }
    }
}

#[test]
fn config_fields_sit_at_their_bits() {
    let none = Config::default();
    assert_eq!(u8::from(none), 0x00);
    assert_eq!(u8::from(Config { clkout_en: true, ..none }), 0x01);
    assert_eq!(u8::from(Config { pwrdwn_en: true, ..none }), 0x04);
    assert_eq!(u8::from(Config { temp_en: true, ..none }), 0x08);
    assert_eq!(u8::from(Config { adc_freq: AdcFreqVal::KHz4, ..none }), 0x10);
    assert_eq!(u8::from(Config { adc_freq: AdcFreqVal::KHz2, ..none }), 0x20);
    assert_eq!(u8::from(Config { adc_freq: AdcFreqVal::KHz1, ..none }), 0x30);
    assert_eq!(u8::from(Config { swrst: true, ..none }), 0x40);
    assert_eq!(u8::from(Config { bw: true, ..none }), 0x80);
    assert_eq!(
        Config::from(0xFF),
        Config {
            clkout_en: true,
            pwrdwn_en: true,
            temp_en: true,
            adc_freq: AdcFreqVal::KHz1,
            swrst: true,
            bw: true
        }
    );
    // Bit 1 is ignored.
    assert_eq!(Config::from(0x02), none);
}

#[test]
fn config_default_is_the_reset_value() {
    let config = Config::default();
    assert!(!config.clkout_en);
    assert!(!config.pwrdwn_en);
    assert!(!config.temp_en);
    assert_eq!(config.adc_freq, AdcFreqVal::KHz8);
    assert!(!config.swrst);
    assert!(!config.bw);
    assert_eq!(AdcFreqVal::default(), AdcFreqVal::KHz8);
}

#[test]
fn adc_freq_uses_two_bits() {
    assert_eq!(AdcFreqVal::from(0), AdcFreqVal::KHz8);
    assert_eq!(AdcFreqVal::from(1), AdcFreqVal::KHz4);
    assert_eq!(AdcFreqVal::from(2), AdcFreqVal::KHz2);
    assert_eq!(AdcFreqVal::from(3), AdcFreqVal::KHz1);
    // Higher bits are ignored, so no byte is invalid.
    assert_eq!(AdcFreqVal::from(0xFF), AdcFreqVal::KHz1);
    assert_eq!(AdcFreqVal::from(0xFC), AdcFreqVal::KHz8);
    for b in 0..=255u8 {
        assert_eq!(AdcFreqVal::from(b).bits(), b & 0x03);
    }
}

#[test]
fn adc_freq_counter_modulus() {
    assert_eq!(AdcFreqVal::KHz8.counter_modulus(), 511);
    assert_eq!(AdcFreqVal::KHz4.counter_modulus(), 1023);
    assert_eq!(AdcFreqVal::KHz2.counter_modulus(), 2047);
    assert_eq!(AdcFreqVal::KHz1.counter_modulus(), 4095);
}

#[test]
fn emi_ctrl_byte_round_trip() {
    for b in 0..=255u8 {
        assert_eq!(u8::from(EmiCtrl::from(b)), b);
    }
}

#[test]
fn emi_ctrl_slots_sit_at_their_bits() {
    let e = EmiCtrl::from(0x55);
    assert!(e.slot0 && e.slot2 && e.slot4 && e.slot6);
    assert!(!e.slot1 && !e.slot3 && !e.slot5 && !e.slot7);
    let e = EmiCtrl::from(0x80);
    assert!(e.slot7);
    assert!(!e.slot0 && !e.slot1 && !e.slot2 && !e.slot3 && !e.slot4 && !e.slot5 && !e.slot6);
    assert_eq!(EmiCtrl::from(u8::from(e)), e);
}

#[test]
fn emi_ctrl_default_enables_all_slots() {
    assert_eq!(u8::from(EmiCtrl::default()), 0xFF);
    assert_eq!(EmiCtrl::default(), EmiCtrl::from(0xFF));
}

#[test]
fn status0_bits() {
    assert_eq!(Status0::from(0x00), Status0 { reset_on: false, crc_stat: false, ic_prot: false });
    assert_eq!(Status0::from(0x01), Status0 { reset_on: true, crc_stat: false, ic_prot: false });
    assert_eq!(Status0::from(0x02), Status0 { reset_on: false, crc_stat: true, ic_prot: false });
    assert_eq!(Status0::from(0x04), Status0 { reset_on: false, crc_stat: false, ic_prot: true });
    assert_eq!(Status0::from(0xF8), Status0::default());
    assert_eq!(Status0::from(0xFF), Status0 { reset_on: true, crc_stat: true, ic_prot: true });
}

#[test]
fn sync_snap_bits() {
    assert_eq!(u8::from(SyncSnap { sync: false, snap: false }), 0x00);
    assert_eq!(u8::from(SyncSnap { sync: true, snap: false }), 0x01);
    assert_eq!(u8::from(SyncSnap { sync: false, snap: true }), 0x02);
    assert_eq!(u8::from(SyncSnap { sync: true, snap: true }), 0x03);
}

#[test]
fn register_addresses() {
    let addresses = [
        0x00, 0x01, 0x02, 0x04, 0x05, 0x07, 0x08, 0x09, 0x0A, 0x0B, 0x0C, 0x0D, 0x0E, 0x0F, 0x18,
    ];
    for (reg, addr) in REGISTERS.iter().zip(addresses) {
        assert_eq!(reg.addr(), addr);
    }
}

#[test]
fn register_access() {
    let writable = [
        Register::Config,
        Register::Lock,
        Register::SyncSnap,
        Register::Counter0,
        Register::Counter1,
        Register::EmiCtrl,
    ];
    for reg in REGISTERS {
        assert_eq!(reg.is_read_only(), !writable.contains(&reg));
        assert_eq!(reg.is_write_only(), reg == Register::Lock || reg == Register::SyncSnap);
        assert!(!(reg.is_read_only() && reg.is_write_only()));
    }
}

#[test]
fn register_commands() {
    assert_eq!(SpiOp::Read.code(), 0x04);
    assert_eq!(SpiOp::Write.code(), 0x00);
    assert_eq!(Register::Status0.command(SpiOp::Read), 0x4C);
    assert_eq!(Register::Config.command(SpiOp::Write), 0x40);
    assert_eq!(Register::Config.command(SpiOp::Read), 0x44);
    assert_eq!(Register::EmiCtrl.command(SpiOp::Write), 0x70);
    assert_eq!(Register::EmiCtrl.command(SpiOp::Read), 0x74);
    assert_eq!(Register::Tempos.command(SpiOp::Read), 0xC4);
    assert_eq!(Register::Lock.command(SpiOp::Write), 0x50);
    assert_eq!(Register::SyncSnap.command(SpiOp::Write), 0x58);
    assert_eq!(Register::Counter0.command(SpiOp::Write), 0x60);
    assert_eq!(Register::Counter1.command(SpiOp::Write), 0x68);
    assert_eq!(Register::Iwv.command(SpiOp::Read), 0x04);
    for reg in REGISTERS {
        assert_eq!(reg.command(SpiOp::Read), (reg.addr() << 3) | 0x04);
        assert_eq!(reg.command(SpiOp::Write), reg.addr() << 3);
    }
}

#[test]
fn lock_codes() {
    assert_eq!(LockOp::Enable.code(), 0xCA);
    assert_eq!(LockOp::Disable.code(), 0x9C);
}

#[test]
fn access_tells_the_three_kinds_apart() {
    assert_ne!(Access::ReadOnly, Access::WriteOnly);
    assert_ne!(Access::ReadOnly, Access::ReadWrite);
    assert_ne!(Access::WriteOnly, Access::ReadWrite);
}

#[test]
fn burst_read_decodes_the_frame() {
    let frame = [
        0x04, 0x05, 0xEC, 0xDF, 0x06, 0x17, 0x1C, 0x37, 0xBE, 0x97, 0x12, 0x34, 0x05, 0xAB, 0xCD,
    ];
    assert_eq!(
        BurstRead::from(frame),
        BurstRead {
            iwv: 388319,
            v1wv: 399132,
            v2wv: 3653271,
            adc_crc: 0x1234,
            status0: Status0 { reset_on: true, crc_stat: false, ic_prot: true },
            cnt_snapshot: 0xABCD,
        }
    );
}

#[test]
fn burst_read_sign_extends_the_samples() {
    let mut frame = [0u8; 15];
    frame[0] = 0x7F;
    frame[1..4].copy_from_slice(&[0x80, 0x00, 0x00]);
    frame[4..7].copy_from_slice(&[0xFF, 0xFF, 0xFF]);
    frame[7..10].copy_from_slice(&[0x7F, 0xFF, 0xFF]);
    let burst = BurstRead::from(frame);
    assert_eq!(burst.iwv, -8_388_608);
    assert_eq!(burst.v1wv, -1);
    assert_eq!(burst.v2wv, 8_388_607);
    // The same as reading four bytes, shifting the first one out and the sign in.
    for window in [[0x12u8, 0x80, 0x00, 0x01], [0xFF, 0x00, 0x00, 0x00], [0x00, 0xC3, 0x50, 0x00]] {
        let mut frame = [0u8; 15];
        frame[0..4].copy_from_slice(&window);
        assert_eq!(BurstRead::from(frame).iwv, (i32::from_be_bytes(window) << 8) >> 8);
    }
}
