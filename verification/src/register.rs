//! Register map of the ADE791x and the byte encoding of each register.

use vstd::prelude::*;

verus! {

/// Represents the possible ADC output frequencies.
#[derive(Debug, Copy, Clone, PartialEq, Eq, Structural)]
pub enum AdcFreqVal {
    KHz8,
    KHz4,
    KHz2,
    KHz1,
}

impl AdcFreqVal {
    /// The two-bit code of the frequency, as it appears in bits 5:4 of the
    /// Config register.
    pub open spec fn spec_bits(self) -> u8 {
        match self {
            AdcFreqVal::KHz8 => 0,
            AdcFreqVal::KHz4 => 1,
            AdcFreqVal::KHz2 => 2,
            AdcFreqVal::KHz1 => 3,
        }
    }

    /// The frequency that the two low bits of `x` select; the higher bits
    /// are ignored, so every byte selects one.
    pub open spec fn decode(x: u8) -> AdcFreqVal {
        if x & 0x03 == 0 {
            AdcFreqVal::KHz8
        } else if x & 0x03 == 1 {
            AdcFreqVal::KHz4
        } else if x & 0x03 == 2 {
            AdcFreqVal::KHz2
        } else {
            AdcFreqVal::KHz1
        }
    }

    /// Returns the two-bit code of the frequency.
    #[verifier::when_used_as_spec(spec_bits)]
    pub fn bits(self) -> (b: u8)
        ensures
            b == self.spec_bits(),
            b < 4,
    {
        match self {
            AdcFreqVal::KHz8 => 0,
            AdcFreqVal::KHz4 => 1,
            AdcFreqVal::KHz2 => 2,
            AdcFreqVal::KHz1 => 3,
        }
    }

    /// The largest value of the synchronization counter at this frequency.
    pub open spec fn spec_counter_modulus(self) -> u16 {
        match self {
            AdcFreqVal::KHz8 => 511,
            AdcFreqVal::KHz4 => 1023,
            AdcFreqVal::KHz2 => 2047,
            AdcFreqVal::KHz1 => 4095,
        }
    }

    /// Returns the largest value of the synchronization counter at this
    /// frequency.
    #[verifier::when_used_as_spec(spec_counter_modulus)]
    pub fn counter_modulus(self) -> (c0: u16)
        ensures
            c0 == self.spec_counter_modulus(),
    {
        match self {
            AdcFreqVal::KHz8 => 511,
            AdcFreqVal::KHz4 => 1023,
            AdcFreqVal::KHz2 => 2047,
            AdcFreqVal::KHz1 => 4095,
        }
    }
}

impl Default for AdcFreqVal {
    fn default() -> (f: Self)
        ensures
            f == AdcFreqVal::KHz8,
    {
        AdcFreqVal::KHz8
    }
}

impl From<u8> for AdcFreqVal {
    /// Decodes the two low bits of `x`; the higher bits are ignored.
    fn from(x: u8) -> (f: Self) {
        let code: u8 = x & 0x03;
        if code == 0 {
            AdcFreqVal::KHz8
        } else if code == 1 {
            AdcFreqVal::KHz4
        } else if code == 2 {
            AdcFreqVal::KHz2
        } else {
            AdcFreqVal::KHz1
        }
    }
}

impl vstd::std_specs::convert::FromSpecImpl<u8> for AdcFreqVal {
    open spec fn obeys_from_spec() -> bool {
        true
    }

    open spec fn from_spec(x: u8) -> Self {
        AdcFreqVal::decode(x)
    }
}

/// Configuration struct: the contents of the Config register.
#[derive(Debug, Copy, Clone, PartialEq, Eq, Structural)]
pub struct Config {
    /// Enables CLKOUT functionality at the CLKOUT/DREADY pin. When
    /// `clkout_en = false`, the default value, DREADY functionality is
    /// enabled. When `clkout_en = true`, CLKOUT functionality is enabled.
    pub clkout_en: bool,
    /// Shuts down the dc-to-dc converter. When `pwrdwn_en = false`, the
    /// default value, the dc-to-dc converter is functional and the modulators
    /// are active. When `pwrdwn_en = true`, both are shut down.
    pub pwrdwn_en: bool,
    /// Selects the second voltage channel measurement. When `temp_en` is
    /// `false`, the default value, the voltage between the V2P and VM pins is
    /// measured. When it is `true`, the internal temperature sensor is
    /// measured. The ADE7912 always measures the temperature sensor.
    pub temp_en: bool,
    /// Selects the ADC output frequency.
    pub adc_freq: AdcFreqVal,
    /// When set to `true`, a software reset is initiated. The device clears
    /// the bit by itself after one CLKIN cycle.
    pub swrst: bool,
    /// Selects the bandwidth of the digital low-pass filter of the ADC: 3.3
    /// kHz when `false`, the default value, 2 kHz when `true`.
    pub bw: bool,
}

/// The weight of a bit in a register byte: `weight` if the bit is set, else 0.
pub open spec fn spec_flag(set: bool, weight: u8) -> u8 {
    if set {
        weight
    } else {
        0
    }
}

#[verifier::when_used_as_spec(spec_flag)]
fn flag(set: bool, weight: u8) -> (b: u8)
    ensures
        b == spec_flag(set, weight),
{
    if set {
        weight
    } else {
        0
    }
}

impl Config {
    /// The configuration that the Config register holds when it reads `x`:
    /// bit 0 is `clkout_en`, bit 2 `pwrdwn_en`, bit 3 `temp_en`, bits 5:4
    /// `adc_freq`, bit 6 `swrst` and bit 7 `bw`.
    pub open spec fn decode(x: u8) -> Config {
        Config {
            clkout_en: x & 0x01 != 0,
            pwrdwn_en: x & 0x04 != 0,
            temp_en: x & 0x08 != 0,
            adc_freq: AdcFreqVal::decode((x & 0x30) >> 4),
            swrst: x & 0x40 != 0,
            bw: x & 0x80 != 0,
        }
    }

    /// The byte that the Config register holds for this configuration: the
    /// sum of the weights of its fields. Bit 1 is never set.
    pub open spec fn encode(self) -> u8 {
        (spec_flag(self.bw, 0x80) + spec_flag(self.swrst, 0x40) + 16 * self.adc_freq.spec_bits()
            + spec_flag(self.temp_en, 0x08) + spec_flag(self.pwrdwn_en, 0x04) + spec_flag(
            self.clkout_en,
            0x01,
        )) as u8
    }

    /// The value of the register after reset: DREADY output, converter on,
    /// voltage on the auxiliary channel, 8 kHz, wide filter.
    pub open spec fn spec_default() -> Config {
        Config {
            clkout_en: false,
            pwrdwn_en: false,
            temp_en: false,
            adc_freq: AdcFreqVal::KHz8,
            swrst: false,
            bw: false,
        }
    }
}

impl Default for Config {
    fn default() -> (c: Self)
        ensures
            c == Config::spec_default(),
    {
        Config {
            clkout_en: false,
            pwrdwn_en: false,
            temp_en: false,
            adc_freq: AdcFreqVal::KHz8,
            swrst: false,
            bw: false,
        }
    }
}

impl From<u8> for Config {
    fn from(x: u8) -> (c: Self) {
        Config {
            clkout_en: (x & 0x01) != 0,
            pwrdwn_en: (x & 0x04) != 0,
            temp_en: (x & 0x08) != 0,
            adc_freq: AdcFreqVal::from((x & 0x30) >> 4),
            swrst: (x & 0x40) != 0,
            bw: (x & 0x80) != 0,
        }
    }
}

impl vstd::std_specs::convert::FromSpecImpl<u8> for Config {
    open spec fn obeys_from_spec() -> bool {
        true
    }

    open spec fn from_spec(x: u8) -> Self {
        Config::decode(x)
    }
}

impl From<Config> for u8 {
    fn from(x: Config) -> (b: Self) {
        flag(x.bw, 0x80) + flag(x.swrst, 0x40) + 16 * x.adc_freq.bits() + flag(x.temp_en, 0x08)
            + flag(x.pwrdwn_en, 0x04) + flag(x.clkout_en, 0x01)
    }
}

impl vstd::std_specs::convert::FromSpecImpl<Config> for u8 {
    open spec fn obeys_from_spec() -> bool {
        true
    }

    open spec fn from_spec(x: Config) -> Self {
        x.encode()
    }
}

/// The fields of the Config register by their place in the byte: bit 0 is
/// `clkout_en`, bit 2 `pwrdwn_en`, bit 3 `temp_en`, bits 5:4 are the code of
/// `adc_freq`, bit 6 is `swrst` and bit 7 `bw`.
pub proof fn lemma_config_decode_bits(b: u8)
    ensures
        Config::decode(b).clkout_en == (b % 2 == 1),
        Config::decode(b).pwrdwn_en == (b / 4 % 2 == 1),
        Config::decode(b).temp_en == (b / 8 % 2 == 1),
        Config::decode(b).adc_freq.spec_bits() == b / 16 % 4,
        Config::decode(b).swrst == (b / 64 % 2 == 1),
        Config::decode(b).bw == (b / 128 == 1),
{
    let code: u8 = (b & 0x30) >> 4;
    assert({
        &&& (b & 0x01 != 0) == (b % 2 == 1)
        &&& (b & 0x04 != 0) == (b / 4 % 2 == 1)
        &&& (b & 0x08 != 0) == (b / 8 % 2 == 1)
        &&& (b & 0x40 != 0) == (b / 64 % 2 == 1)
        &&& (b & 0x80 != 0) == (b / 128 == 1)
        &&& code == b / 16 % 4
        &&& code & 0x03 == code
    }) by (bit_vector)
        requires
            code == (b & 0x30) >> 4,
    ;
}

/// Every byte read from the Config register, decoded and encoded again, comes
/// back with all its defined bits; bit 1, which the register does not define,
/// comes back clear.
pub proof fn lemma_config_byte_round_trip(b: u8)
    ensures
        Config::decode(b).encode() == b & 0xFD,
        Config::decode(b).encode() & 0x02 == 0,
{
    let c = Config::decode(b);
    let code: u8 = (b & 0x30) >> 4;
    assert(code < 4 && code & 0x03 == code) by (bit_vector)
        requires
            code == (b & 0x30) >> 4,
    ;
    assert(c.adc_freq.spec_bits() == code);
    assert(spec_flag(b & 0x80 != 0, 0x80) + spec_flag(b & 0x40 != 0, 0x40) + 16 * code + spec_flag(
        b & 0x08 != 0,
        0x08,
    ) + spec_flag(b & 0x04 != 0, 0x04) + spec_flag(b & 0x01 != 0, 0x01) == b & 0xFD)
        by (bit_vector)
        requires
            code == (b & 0x30) >> 4,
    ;
    assert((b & 0xFD) & 0x02 == 0) by (bit_vector);
}

/// A byte read from the Config register in which bit 5 is clear, because the
/// output frequency is 8 kHz or 4 kHz, comes back from decoding and encoding
/// with all its defined bits, and with bits 1 and 5 clear.
pub proof fn lemma_config_byte_round_trip_low_frequency_bit(b: u8)
    requires
        b & 0x20 == 0,
    ensures
        Config::decode(b).encode() == b & 0xFD,
        Config::decode(b).encode() & 0x22 == 0,
{
    lemma_config_byte_round_trip(b);
    let e = Config::decode(b).encode();
    assert(e & 0x22 == 0) by (bit_vector)
        requires
            e == b & 0xFD,
            b & 0x20 == 0,
    ;
}

/// Every configuration, encoded and decoded again, comes back unchanged.
pub proof fn lemma_config_round_trip(c: Config)
    ensures
        Config::decode(c.encode()) == c,
        c.encode() & 0x02 == 0,
{
    let code = c.adc_freq.spec_bits();
    let b = c.encode();
    let (f7, f6, f3, f2, f0) = (c.bw, c.swrst, c.temp_en, c.pwrdwn_en, c.clkout_en);
    assert(code < 4);
    assert({
        &&& (b & 0x80 != 0) == f7
        &&& (b & 0x40 != 0) == f6
        &&& (b & 0x30) >> 4 == code
        &&& ((b & 0x30) >> 4) & 0x03 == code
        &&& (b & 0x08 != 0) == f3
        &&& (b & 0x04 != 0) == f2
        &&& (b & 0x01 != 0) == f0
        &&& b & 0x02 == 0
    }) by (bit_vector)
        requires
            code < 4,
            b == (spec_flag(f7, 0x80) + spec_flag(f6, 0x40) + 16 * code + spec_flag(f3, 0x08)
                + spec_flag(f2, 0x04) + spec_flag(f0, 0x01)) as u8,
    ;
}

/// Status struct: the contents of the Status0 register.
#[derive(Debug, Copy, Clone, PartialEq, Eq, Structural)]
pub struct Status0 {
    /// During reset, `reset_on` is `true`. When the reset ends and the device
    /// is ready to be configured, it is cleared to `false`.
    pub reset_on: bool,
    /// Set when the CRC of the configuration registers has changed value.
    pub crc_stat: bool,
    /// `true` while the configuration registers are protected.
    pub ic_prot: bool,
}

impl Status0 {
    /// The status that the Status0 register reports when it reads `x`: bit 0
    /// is `reset_on`, bit 1 `crc_stat` and bit 2 `ic_prot`.
    pub open spec fn decode(x: u8) -> Status0 {
        Status0 { reset_on: x & 0x01 != 0, crc_stat: x & 0x02 != 0, ic_prot: x & 0x04 != 0 }
    }
}

impl Default for Status0 {
    fn default() -> (s: Self)
        ensures
            s == Status0::decode(0),
    {
        assert(0u8 & 0x01 == 0 && 0u8 & 0x02 == 0 && 0u8 & 0x04 == 0) by (bit_vector);
        Status0 { reset_on: false, crc_stat: false, ic_prot: false }
    }
}

impl From<u8> for Status0 {
    fn from(x: u8) -> (s: Self) {
        Status0 { reset_on: (x & 0x01) != 0, crc_stat: (x & 0x02) != 0, ic_prot: (x & 0x04) != 0 }
    }
}

impl vstd::std_specs::convert::FromSpecImpl<u8> for Status0 {
    open spec fn obeys_from_spec() -> bool {
        true
    }

    open spec fn from_spec(x: u8) -> Self {
        Status0::decode(x)
    }
}

/// The fields of the Status0 register by their place in the byte: bit 0 is
/// `reset_on`, bit 1 `crc_stat` and bit 2 `ic_prot`.
pub proof fn lemma_status0_decode_bits(b: u8)
    ensures
        Status0::decode(b).reset_on == (b % 2 == 1),
        Status0::decode(b).crc_stat == (b / 2 % 2 == 1),
        Status0::decode(b).ic_prot == (b / 4 % 2 == 1),
{
    assert({
        &&& (b & 0x01 != 0) == (b % 2 == 1)
        &&& (b & 0x02 != 0) == (b / 2 % 2 == 1)
        &&& (b & 0x04 != 0) == (b / 4 % 2 == 1)
    }) by (bit_vector);
}

/// EMI control struct. Manages the PWM control block of the isolated dc-to-dc
/// converter to reduce EMI emissions: `slotN` enables the pulse during slot N
/// of the CLKIN/4 clock.
#[derive(Debug, Copy, Clone, PartialEq, Eq, Structural)]
pub struct EmiCtrl {
    pub slot0: bool,
    pub slot1: bool,
    pub slot2: bool,
    pub slot3: bool,
    pub slot4: bool,
    pub slot5: bool,
    pub slot6: bool,
    pub slot7: bool,
}

impl EmiCtrl {
    /// The slots that the EmiCtrl register enables when it reads `x`: slot N
    /// is bit N.
    pub open spec fn decode(x: u8) -> EmiCtrl {
        EmiCtrl {
            slot0: x & 0x01 != 0,
            slot1: x & 0x02 != 0,
            slot2: x & 0x04 != 0,
            slot3: x & 0x08 != 0,
            slot4: x & 0x10 != 0,
            slot5: x & 0x20 != 0,
            slot6: x & 0x40 != 0,
            slot7: x & 0x80 != 0,
        }
    }

    /// The byte that the EmiCtrl register holds for these slots: the sum of
    /// the weights of the enabled ones.
    pub open spec fn encode(self) -> u8 {
        (spec_flag(self.slot7, 0x80) + spec_flag(self.slot6, 0x40) + spec_flag(self.slot5, 0x20)
            + spec_flag(self.slot4, 0x10) + spec_flag(self.slot3, 0x08) + spec_flag(
            self.slot2,
            0x04,
        ) + spec_flag(self.slot1, 0x02) + spec_flag(self.slot0, 0x01)) as u8
    }
}

impl Default for EmiCtrl {
    /// All eight slots enabled: the register reads 0xFF.
    fn default() -> (e: Self)
        ensures
            e == EmiCtrl::decode(0xFF),
            e.encode() == 0xFF,
    {
        assert(0xFFu8 & 0x01 != 0 && 0xFFu8 & 0x02 != 0 && 0xFFu8 & 0x04 != 0 && 0xFFu8 & 0x08 != 0
            && 0xFFu8 & 0x10 != 0 && 0xFFu8 & 0x20 != 0 && 0xFFu8 & 0x40 != 0 && 0xFFu8 & 0x80
            != 0) by (bit_vector);
        EmiCtrl {
            slot0: true,
            slot1: true,
            slot2: true,
            slot3: true,
            slot4: true,
            slot5: true,
            slot6: true,
            slot7: true,
        }
    }
}

impl From<u8> for EmiCtrl {
    fn from(x: u8) -> (e: Self) {
        EmiCtrl {
            slot0: (x & 0x01) != 0,
            slot1: (x & 0x02) != 0,
            slot2: (x & 0x04) != 0,
            slot3: (x & 0x08) != 0,
            slot4: (x & 0x10) != 0,
            slot5: (x & 0x20) != 0,
            slot6: (x & 0x40) != 0,
            slot7: (x & 0x80) != 0,
        }
    }
}

impl vstd::std_specs::convert::FromSpecImpl<u8> for EmiCtrl {
    open spec fn obeys_from_spec() -> bool {
        true
    }

    open spec fn from_spec(x: u8) -> Self {
        EmiCtrl::decode(x)
    }
}

impl From<EmiCtrl> for u8 {
    fn from(x: EmiCtrl) -> (b: Self) {
        flag(x.slot7, 0x80) + flag(x.slot6, 0x40) + flag(x.slot5, 0x20) + flag(x.slot4, 0x10)
            + flag(x.slot3, 0x08) + flag(x.slot2, 0x04) + flag(x.slot1, 0x02) + flag(x.slot0, 0x01)
    }
}

impl vstd::std_specs::convert::FromSpecImpl<EmiCtrl> for u8 {
    open spec fn obeys_from_spec() -> bool {
        true
    }

    open spec fn from_spec(x: EmiCtrl) -> Self {
        x.encode()
    }
}

/// The slots of the EmiCtrl register by their place in the byte: slot N is
/// bit N.
pub proof fn lemma_emi_ctrl_decode_bits(b: u8)
    ensures
        EmiCtrl::decode(b).slot0 == (b % 2 == 1),
        EmiCtrl::decode(b).slot1 == (b / 2 % 2 == 1),
        EmiCtrl::decode(b).slot2 == (b / 4 % 2 == 1),
        EmiCtrl::decode(b).slot3 == (b / 8 % 2 == 1),
        EmiCtrl::decode(b).slot4 == (b / 16 % 2 == 1),
        EmiCtrl::decode(b).slot5 == (b / 32 % 2 == 1),
        EmiCtrl::decode(b).slot6 == (b / 64 % 2 == 1),
        EmiCtrl::decode(b).slot7 == (b / 128 == 1),
{
    assert({
        &&& (b & 0x01 != 0) == (b % 2 == 1)
        &&& (b & 0x02 != 0) == (b / 2 % 2 == 1)
        &&& (b & 0x04 != 0) == (b / 4 % 2 == 1)
        &&& (b & 0x08 != 0) == (b / 8 % 2 == 1)
        &&& (b & 0x10 != 0) == (b / 16 % 2 == 1)
        &&& (b & 0x20 != 0) == (b / 32 % 2 == 1)
        &&& (b & 0x40 != 0) == (b / 64 % 2 == 1)
        &&& (b & 0x80 != 0) == (b / 128 == 1)
    }) by (bit_vector);
}

/// Every byte read from the EmiCtrl register, decoded and encoded again,
/// comes back unchanged.
pub proof fn lemma_emi_ctrl_byte_round_trip(b: u8)
    ensures
        EmiCtrl::decode(b).encode() == b,
{
    assert(spec_flag(b & 0x80 != 0, 0x80) + spec_flag(b & 0x40 != 0, 0x40) + spec_flag(
        b & 0x20 != 0,
        0x20,
    ) + spec_flag(b & 0x10 != 0, 0x10) + spec_flag(b & 0x08 != 0, 0x08) + spec_flag(
        b & 0x04 != 0,
        0x04,
    ) + spec_flag(b & 0x02 != 0, 0x02) + spec_flag(b & 0x01 != 0, 0x01) == b) by (bit_vector);
}

/// Every choice of slots, encoded and decoded again, comes back unchanged.
pub proof fn lemma_emi_ctrl_round_trip(e: EmiCtrl)
    ensures
        EmiCtrl::decode(e.encode()) == e,
{
    let b = e.encode();
    let (f7, f6, f5, f4) = (e.slot7, e.slot6, e.slot5, e.slot4);
    let (f3, f2, f1, f0) = (e.slot3, e.slot2, e.slot1, e.slot0);
    assert({
        &&& (b & 0x80 != 0) == f7
        &&& (b & 0x40 != 0) == f6
        &&& (b & 0x20 != 0) == f5
        &&& (b & 0x10 != 0) == f4
        &&& (b & 0x08 != 0) == f3
        &&& (b & 0x04 != 0) == f2
        &&& (b & 0x02 != 0) == f1
        &&& (b & 0x01 != 0) == f0
    }) by (bit_vector)
        requires
            b == (spec_flag(f7, 0x80) + spec_flag(f6, 0x40) + spec_flag(f5, 0x20) + spec_flag(
                f4,
                0x10,
            ) + spec_flag(f3, 0x08) + spec_flag(f2, 0x04) + spec_flag(f1, 0x02) + spec_flag(
                f0,
                0x01,
            )) as u8,
    ;
}

/// Synchronization struct: the contents of the write-only SyncSnap register.
/// Both bits clear themselves one CLKIN cycle after the write.
#[derive(Debug, Copy, Clone, PartialEq, Eq, Structural)]
pub struct SyncSnap {
    /// Written by broadcast, makes the devices generate their ADC outputs at
    /// the same moment.
    pub sync: bool,
    /// Written by broadcast, latches the internal counters of the devices.
    pub snap: bool,
}

impl SyncSnap {
    /// The byte written to the SyncSnap register: bit 0 is `sync`, bit 1
    /// `snap`.
    pub open spec fn encode(self) -> u8 {
        (spec_flag(self.snap, 0x02) + spec_flag(self.sync, 0x01)) as u8
    }
}

impl From<SyncSnap> for u8 {
    fn from(x: SyncSnap) -> (b: Self) {
        flag(x.snap, 0x02) + flag(x.sync, 0x01)
    }
}

impl vstd::std_specs::convert::FromSpecImpl<SyncSnap> for u8 {
    open spec fn obeys_from_spec() -> bool {
        true
    }

    open spec fn from_spec(x: SyncSnap) -> Self {
        x.encode()
    }
}

/// The value of a signed 24-bit sample sent as three bytes, most significant
/// first, in two's complement.
pub open spec fn spec_sample(hi: u8, mid: u8, lo: u8) -> int {
    let unsigned = hi * 0x1_0000 + mid * 0x100 + lo;
    if unsigned >= 0x80_0000 {
        unsigned - 0x100_0000
    } else {
        unsigned
    }
}

/// The value of an unsigned 16-bit word sent as two bytes, most significant
/// first.
pub open spec fn spec_word(hi: u8, lo: u8) -> int {
    hi * 0x100 + lo
}

/// A sample is a signed 24-bit number: its sign is that of the first byte
/// sent, taken as a signed byte.
pub proof fn lemma_sample_range(hi: u8, mid: u8, lo: u8)
    ensures
        -0x80_0000 <= spec_sample(hi, mid, lo) < 0x80_0000,
        spec_sample(hi, mid, lo) < 0 <==> hi >= 0x80,
{
}

fn sample(hi: u8, mid: u8, lo: u8) -> (value: i32)
    ensures
        value == spec_sample(hi, mid, lo),
        -0x80_0000 <= value < 0x80_0000,
{
    let unsigned: i32 = (hi as i32) * 0x1_0000 + (mid as i32) * 0x100 + (lo as i32);
    if unsigned >= 0x80_0000 {
        unsigned - 0x100_0000
    } else {
        unsigned
    }
}

fn word(hi: u8, lo: u8) -> (value: u16)
    ensures
        value == spec_word(hi, lo),
{
    (hi as u16) * 0x100 + (lo as u16)
}

/// The length of the frame that holds a whole burst read.
pub const FRAME_LEN: usize = 15;

/// Represents the burst read response coming from the ADC.
#[derive(Debug, Copy, Clone, PartialEq, Eq, Structural)]
pub struct BurstRead {
    /// Instantaneous value of the current channel.
    pub iwv: i32,
    /// Instantaneous value of voltage channel 1.
    pub v1wv: i32,
    /// Instantaneous value of voltage channel 2.
    pub v2wv: i32,
    /// CRC value of `iwv`, `v1wv` and `v2wv`, as the device computed it.
    pub adc_crc: u16,
    /// Status struct.
    pub status0: Status0,
    /// Snapshot value of the counter used in the synchronization operation.
    pub cnt_snapshot: u16,
}

impl BurstRead {
    /// What a frame of 15 bytes holds. Byte 0 was received while the command
    /// was sent and means nothing. Bytes 1 to 3, 4 to 6 and 7 to 9 are the three
    /// samples, bytes 10 and 11 the CRC, byte 12 is Status0, and bytes 13 and
    /// 14 are the counter snapshot.
    pub open spec fn decode(frame: Seq<u8>) -> BurstRead
        recommends
            frame.len() == FRAME_LEN,
    {
        BurstRead {
            iwv: spec_sample(frame[1], frame[2], frame[3]) as i32,
            v1wv: spec_sample(frame[4], frame[5], frame[6]) as i32,
            v2wv: spec_sample(frame[7], frame[8], frame[9]) as i32,
            adc_crc: spec_word(frame[10], frame[11]) as u16,
            status0: Status0::decode(frame[12]),
            cnt_snapshot: spec_word(frame[13], frame[14]) as u16,
        }
    }
}

impl From<[u8; 15]> for BurstRead {
    fn from(x: [u8; 15]) -> (r: Self) {
        BurstRead {
            iwv: sample(x[1], x[2], x[3]),
            v1wv: sample(x[4], x[5], x[6]),
            v2wv: sample(x[7], x[8], x[9]),
            adc_crc: word(x[10], x[11]),
            status0: Status0::from(x[12]),
            cnt_snapshot: word(x[13], x[14]),
        }
    }
}

impl vstd::std_specs::convert::FromSpecImpl<[u8; 15]> for BurstRead {
    open spec fn obeys_from_spec() -> bool {
        true
    }

    open spec fn from_spec(x: [u8; 15]) -> Self {
        BurstRead::decode(x@)
    }
}

/// How a register can be accessed over SPI.
#[derive(Debug, Copy, Clone, PartialEq, Eq, Structural)]
pub enum Access {
    ReadOnly,
    WriteOnly,
    ReadWrite,
}

/// Represents the registers of the ADC.
#[derive(Debug, Copy, Clone, PartialEq, Eq, Structural)]
pub enum Register {
    Iwv,
    V1wv,
    V2wv,
    AdcCrc,
    CtrlCrc,
    CntSnapshot,
    Config,
    Status0,
    Lock,
    SyncSnap,
    Counter0,
    Counter1,
    EmiCtrl,
    Status1,
    Tempos,
}

impl Register {
    /// The address of the register in the register map.
    pub open spec fn spec_addr(&self) -> u8 {
        match self {
            Register::Iwv => 0x00,
            Register::V1wv => 0x01,
            Register::V2wv => 0x02,
            Register::AdcCrc => 0x04,
            Register::CtrlCrc => 0x05,
            Register::CntSnapshot => 0x07,
            Register::Config => 0x08,
            Register::Status0 => 0x09,
            Register::Lock => 0x0A,
            Register::SyncSnap => 0x0B,
            Register::Counter0 => 0x0C,
            Register::Counter1 => 0x0D,
            Register::EmiCtrl => 0x0E,
            Register::Status1 => 0x0F,
            Register::Tempos => 0x18,
        }
    }

    /// How the register map lets the register be accessed: the measurement,
    /// CRC and status registers and the temperature offset can only be read,
    /// Lock and SyncSnap can only be written, and the configuration registers
    /// can be both read and written.
    pub open spec fn access(self) -> Access {
        match self {
            Register::Lock | Register::SyncSnap => Access::WriteOnly,
            Register::Config | Register::Counter0 | Register::Counter1 | Register::EmiCtrl =>
                Access::ReadWrite,
            _ => Access::ReadOnly,
        }
    }

    /// Returns the address of the register.
    #[verifier::when_used_as_spec(spec_addr)]
    pub fn addr(&self) -> (a: u8)
        ensures
            a == self.spec_addr(),
            a < 32,
    {
        match self {
            Register::Iwv => 0x00,
            Register::V1wv => 0x01,
            Register::V2wv => 0x02,
            Register::AdcCrc => 0x04,
            Register::CtrlCrc => 0x05,
            Register::CntSnapshot => 0x07,
            Register::Config => 0x08,
            Register::Status0 => 0x09,
            Register::Lock => 0x0A,
            Register::SyncSnap => 0x0B,
            Register::Counter0 => 0x0C,
            Register::Counter1 => 0x0D,
            Register::EmiCtrl => 0x0E,
            Register::Status1 => 0x0F,
            Register::Tempos => 0x18,
        }
    }

    /// Returns `true` if the register is read-only, `false` otherwise.
    pub fn is_read_only(&self) -> (r: bool)
        ensures
            r == (self.access() == Access::ReadOnly),
    {
        *self != Register::Config && *self != Register::Lock && *self != Register::SyncSnap
            && *self != Register::Counter0 && *self != Register::Counter1 && *self
            != Register::EmiCtrl
    }

    /// Returns `true` if the register is write-only, `false` otherwise.
    pub fn is_write_only(&self) -> (r: bool)
        ensures
            r == (self.access() == Access::WriteOnly),
    {
        *self == Register::Lock || *self == Register::SyncSnap
    }

    /// The first SPI byte of an operation on the register: the address in
    /// the five high bits, the operation code in the three low bits.
    pub open spec fn spec_command(&self, op: SpiOp) -> u8 {
        (self.spec_addr() * 8 + op.spec_code()) as u8
    }

    /// Returns the first SPI byte of an operation on the register.
    #[verifier::when_used_as_spec(spec_command)]
    pub fn command(&self, op: SpiOp) -> (c: u8)
        ensures
            c == self.spec_command(op),
    {
        self.addr() * 8 + op.code()
    }
}

/// Two different registers have different addresses.
pub proof fn lemma_register_addr_injective(a: Register, b: Register)
    requires
        a.spec_addr() == b.spec_addr(),
    ensures
        a == b,
{
}

/// Represents the possible SPI operations.
#[derive(Debug, Copy, Clone, PartialEq, Eq, Structural)]
pub enum SpiOp {
    Read,
    Write,
}

impl SpiOp {
    /// The code of the operation in the command byte.
    pub open spec fn spec_code(self) -> u8 {
        match self {
            SpiOp::Read => 0x04,
            SpiOp::Write => 0x00,
        }
    }

    /// Returns the code of the operation in the command byte.
    #[verifier::when_used_as_spec(spec_code)]
    pub fn code(self) -> (c: u8)
        ensures
            c == self.spec_code(),
    {
        match self {
            SpiOp::Read => 0x04,
            SpiOp::Write => 0x00,
        }
    }
}

/// Represents the possible lock operations.
#[derive(Debug, Copy, Clone, PartialEq, Eq, Structural)]
pub enum LockOp {
    /// Protects the configuration registers against writes.
    Enable,
    /// Lets the configuration registers be written.
    Disable,
}

impl LockOp {
    /// The byte that, written to the Lock register, performs the operation.
    pub open spec fn spec_code(self) -> u8 {
        match self {
            LockOp::Enable => 0xCA,
            LockOp::Disable => 0x9C,
        }
    }

    /// Returns the byte that, written to the Lock register, performs the
    /// operation.
    #[verifier::when_used_as_spec(spec_code)]
    pub fn code(self) -> (c: u8)
        ensures
            c == self.spec_code(),
    {
        match self {
            LockOp::Enable => 0xCA,
            LockOp::Disable => 0x9C,
        }
    }
}

} // verus!
