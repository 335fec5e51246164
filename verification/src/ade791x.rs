//! One ADE7912/ADE7913 on the bus: what it is sent and what its answers mean.
//!
//! An [`Ade791x`] stands for a single device. It keeps the configuration and
//! calibration applied last, builds the SPI frame of every transaction with
//! the device, and interprets the bytes that come back. It does not own the
//! bus: [`crate::poly::Ade791x`] puts its frames on the bus in order.

use crate::bus::BusOp;
use crate::register::{Access, BurstRead, Config, LockOp, Register, SpiOp, SyncSnap, FRAME_LEN};
use crate::{AuxCalibration, AuxGain, AuxOffset, Chip, Error, RawMeasurement};
use vstd::prelude::*;

verus! {

/// How many times the Status0 register is polled for the end of a reset.
pub const RESET_POLLS: u8 = 5;

/// How long the driver waits after a poll that found the reset going on, in
/// milliseconds.
pub const RESET_POLL_DELAY_MS: u32 = 100;

/// How many bytes after the command a burst read takes to fetch the three
/// samples.
pub const MEASUREMENT_BURST_LEN: usize = 9;

/// How many bytes after the command a burst read takes to reach the counter
/// snapshot: the rest of the 15-byte frame.
pub const SNAPSHOT_BURST_LEN: usize = 14;

/// The frame that reads `reg`: the read command and one byte to clock the
/// answer out.
pub open spec fn spec_read_frame(reg: Register) -> Seq<u8> {
    seq![reg.spec_command(SpiOp::Read), 0u8]
}

/// The frame that writes `content` to `reg`: the write command and the byte.
pub open spec fn spec_write_frame(reg: Register, content: u8) -> Seq<u8> {
    seq![reg.spec_command(SpiOp::Write), content]
}

/// The frame that reads `len` bytes in a burst that starts at `reg`: the read
/// command and `len` bytes to clock the answer out.
pub open spec fn spec_burst_frame(reg: Register, len: nat) -> Seq<u8> {
    seq![reg.spec_command(SpiOp::Read)] + Seq::new(len, |i: int| 0u8)
}

/// The frame of the hardware reset: eight zero bytes.
pub open spec fn spec_hard_reset_frame() -> Seq<u8> {
    Seq::new(8, |i: int| 0u8)
}

/// Where in the 15-byte frame the bytes of a burst read that starts at `reg`
/// belong, or `None` if no burst read may start there.
pub open spec fn spec_burst_start(reg: Register) -> Option<usize> {
    match reg {
        Register::Iwv => Some(1usize),
        Register::V1wv => Some(4usize),
        Register::V2wv => Some(7usize),
        Register::AdcCrc => Some(10usize),
        Register::Status0 => Some(12usize),
        Register::CntSnapshot => Some(13usize),
        _ => None,
    }
}

/// The 15-byte frame that a burst read gives when `received` came back and
/// its data belongs at index `start`: byte 0 is the byte received during the
/// command, the data bytes follow from `start` on, and all other bytes are 0.
pub open spec fn spec_place_burst(start: int, received: Seq<u8>) -> Seq<u8> {
    Seq::new(
        FRAME_LEN as nat,
        |k: int|
            if k == 0 {
                received[0]
            } else if start <= k < start + received.len() - 1 {
                received[k - start + 1]
            } else {
                0u8
            },
    )
}

/// The number that a byte stands for in two's complement.
pub open spec fn spec_signed(x: u8) -> int {
    if x >= 128 {
        x - 256
    } else {
        x as int
    }
}

/// The difference `c - cref` as a signed 16-bit number, wrapping around.
pub open spec fn spec_drift(c: u16, cref: u16) -> int {
    let d = c - cref;
    if d > 0x7FFF {
        d - 0x1_0000
    } else if d < -0x8000 {
        d + 0x1_0000
    } else {
        d
    }
}

/// The value to load into the counter of a device that has drifted: counted
/// in 16 bits, `cref + c0 - c` if the device is ahead of the reference and
/// `cref - c` if it is not.
pub open spec fn spec_preload(c: u16, cref: u16, c0: u16) -> int {
    if c > cref {
        let v = cref + c0 - c;
        if v < 0 {
            v + 0x1_0000
        } else {
            v
        }
    } else {
        cref - c
    }
}

/// The drift is a signed 16-bit number. It is the difference of the two
/// snapshots where that difference is one; it is 0 only for equal snapshots.
pub proof fn lemma_drift_is_difference(c: u16, cref: u16)
    ensures
        -0x8000 <= spec_drift(c, cref) <= 0x7FFF,
        -0x8000 <= c - cref <= 0x7FFF ==> spec_drift(c, cref) == c - cref,
        spec_drift(c, cref) == 0 <==> c == cref,
{
}

/// The counter preload is a 16-bit number. For snapshots of counters that
/// count up to `c0`, it is a value of such a counter as well, and the device
/// that is ahead of the reference by `d` counts is given `c0 - d`, the
/// device that is behind by `d` counts is given `d`.
pub proof fn lemma_preload_in_modulus(c: u16, cref: u16, c0: u16)
    ensures
        0 <= spec_preload(c, cref, c0) <= 0xFFFF,
        c <= c0 && cref <= c0 ==> 0 <= spec_preload(c, cref, c0) <= c0,
        cref < c <= c0 ==> spec_preload(c, cref, c0) == c0 - (c - cref),
        c <= cref ==> spec_preload(c, cref, c0) == cref - c,
{
}

fn frame2(first: u8, second: u8) -> (frame: Vec<u8>)
    ensures
        frame@ == seq![first, second],
{
    let mut frame: Vec<u8> = Vec::new();
    frame.push(first);
    frame.push(second);
    assert(frame@ =~= seq![first, second]);
    frame
}

fn zeros(len: usize) -> (frame: Vec<u8>)
    ensures
        frame@ == Seq::new(len as nat, |i: int| 0u8),
{
    let mut frame: Vec<u8> = Vec::new();
    let mut i: usize = 0;
    while i < len
        invariant
            i <= len,
            frame@ == Seq::new(i as nat, |i: int| 0u8),
        decreases len - i,
    {
        frame.push(0);
        i += 1;
        assert(frame@ =~= Seq::new(i as nat, |i: int| 0u8));
    }
    frame
}

/// Represents a single ADE7912/ADE7913 on a bus that it does not own.
#[derive(Debug, Copy, Clone, PartialEq, Eq, Structural)]
pub struct Ade791x {
    /// The index of the chip-select line of the device.
    pub cs: usize,
    /// The chip version.
    pub chip: Chip,
    /// The configuration applied last.
    pub config: Config,
    /// The calibration of the auxiliary channel applied last.
    pub calibration: AuxCalibration,
}

impl Ade791x {
    /// Creates a new [`Ade791x`] instance for the device behind chip-select
    /// line `cs`, with the configuration of a device after reset and no
    /// choice made for the auxiliary calibration.
    pub fn new(cs: usize, chip: Chip) -> (adc: Self)
        ensures
            adc == (Ade791x {
                cs,
                chip,
                config: Config::spec_default(),
                calibration: AuxCalibration::spec_default(),
            }),
    {
        Ade791x { cs, chip, config: Config::default(), calibration: AuxCalibration::default() }
    }

    /// Whether the device generates the DREADY signal rather than CLKOUT.
    pub open spec fn spec_is_dr_source(&self) -> bool {
        !self.config.clkout_en
    }

    /// Returns `true` if the ADC is generating the DREADY signal, `false` if
    /// it is generating the CLKOUT signal instead.
    #[verifier::when_used_as_spec(spec_is_dr_source)]
    pub fn is_dr_source(&self) -> (r: bool)
        ensures
            r == self.spec_is_dr_source(),
    {
        !self.config.clkout_en
    }

    /// Whether the auxiliary channel measures the die temperature: always on
    /// the ADE7912, and on the ADE7913 when `temp_en` is set.
    pub open spec fn spec_measures_temperature(&self) -> bool {
        self.chip == Chip::ADE7912 || self.config.temp_en
    }

    /// Returns `true` if the auxiliary channel measures the die temperature,
    /// `false` if it measures a second voltage.
    #[verifier::when_used_as_spec(spec_measures_temperature)]
    pub fn measures_temperature(&self) -> (r: bool)
        ensures
            r == self.spec_measures_temperature(),
    {
        self.chip == Chip::ADE7912 || self.config.temp_en
    }

    /// Begins the initialization of the device: keeps the configuration and
    /// the calibration to apply. The transactions of the initialization
    /// follow: the wait for the end of the reset, the checked writes of
    /// Config and EmiCtrl and, where [`Self::needs_tempos`] says so, the read
    /// of Tempos; [`Self::complete_calibration`] ends it.
    pub fn init(&mut self, config: Config, calibration: AuxCalibration)
        ensures
            *final(self) == (Ade791x { config, calibration, ..*old(self) }),
    {
        self.config = config;
        self.calibration = calibration;
    }

    /// Whether initialization has to read the Tempos register: the offset of
    /// the auxiliary channel is not chosen and the channel measures the
    /// temperature.
    pub open spec fn spec_needs_tempos(&self) -> bool {
        self.calibration.offset == AuxOffset::Unset && self.spec_measures_temperature()
    }

    /// Returns `true` if initialization has to read the Tempos register.
    #[verifier::when_used_as_spec(spec_needs_tempos)]
    pub fn needs_tempos(&self) -> (r: bool)
        ensures
            r == self.spec_needs_tempos(),
    {
        self.calibration.offset == AuxOffset::Unset && self.measures_temperature()
    }

    /// The calibration of the auxiliary channel after initialization, when
    /// the Tempos register, if it was read, held `tempos`. An offset or gain
    /// chosen before stays. An offset not chosen becomes the signed value of
    /// Tempos if the channel measures the temperature, else zero. A gain not
    /// chosen becomes the temperature gain that goes with the filter
    /// bandwidth if the channel measures the temperature, else one.
    pub open spec fn spec_completed_calibration(&self, tempos: u8) -> AuxCalibration {
        AuxCalibration {
            offset: if self.calibration.offset != AuxOffset::Unset {
                self.calibration.offset
            } else if self.spec_measures_temperature() {
                AuxOffset::Tempos(spec_signed(tempos) as i8)
            } else {
                AuxOffset::Zero
            },
            gain: if self.calibration.gain != AuxGain::Unset {
                self.calibration.gain
            } else if self.spec_measures_temperature() {
                if self.config.bw {
                    AuxGain::TemperatureNarrowBand
                } else {
                    AuxGain::TemperatureWideBand
                }
            } else {
                AuxGain::Unity
            },
        }
    }

    /// Ends the initialization of the device: chooses the offset and the gain
    /// of the auxiliary channel that were left open. `tempos` is the byte
    /// read from the Tempos register; it is ignored unless
    /// [`Self::needs_tempos`] holds.
    pub fn complete_calibration(&mut self, tempos: u8)
        ensures
            *final(self) == (Ade791x {
                calibration: old(self).spec_completed_calibration(tempos),
                ..*old(self)
            }),
            final(self).calibration.offset != AuxOffset::Unset,
            final(self).calibration.gain != AuxGain::Unset,
    {
        let temperature = self.measures_temperature();
        if self.calibration.offset == AuxOffset::Unset {
            self.calibration.offset = if temperature {
                let signed: i8 = if tempos >= 128 {
                    (tempos as i16 - 256) as i8
                } else {
                    tempos as i8
                };
                AuxOffset::Tempos(signed)
            } else {
                AuxOffset::Zero
            };
        }
        if self.calibration.gain == AuxGain::Unset {
            self.calibration.gain = if temperature {
                if self.config.bw {
                    AuxGain::TemperatureNarrowBand
                } else {
                    AuxGain::TemperatureWideBand
                }
            } else {
                AuxGain::Unity
            };
        }
    }

    /// Returns the operation that makes the device listen to a broadcast on
    /// the bus: its chip-select line goes low.
    pub fn broadcast_listen(&self) -> (op: BusOp)
        ensures
            op == BusOp::SelectLow(self.cs),
    {
        BusOp::SelectLow(self.cs)
    }

    /// Returns the operation that makes the device stop listening to a
    /// broadcast on the bus: its chip-select line goes high.
    pub fn broadcast_end(&self) -> (op: BusOp)
        ensures
            op == BusOp::SelectHigh(self.cs),
    {
        BusOp::SelectHigh(self.cs)
    }

    /// Returns the frame of the hardware reset: eight zero bytes, sent while
    /// the chip-select line stays low.
    pub fn hard_reset(&self) -> (frame: Vec<u8>)
        ensures
            frame@ == spec_hard_reset_frame(),
            frame@.len() == 8,
    {
        zeros(8)
    }

    /// The frame of the software reset: a write to Config of the byte in
    /// which only `swrst` is set.
    pub open spec fn spec_soft_reset(&self) -> Seq<u8> {
        spec_write_frame(Register::Config, 0x40)
    }

    /// Returns the frame of the software reset. It writes Config with only
    /// `swrst` set, whatever the configuration applied last.
    pub fn soft_reset(&self) -> (frame: Vec<u8>)
        ensures
            frame@ == self.spec_soft_reset(),
            frame@ == seq![0x40u8, 0x40u8],
    {
        let config = Config { swrst: true, ..Config::default() };
        frame2(Register::Config.command(SpiOp::Write), u8::from(config))
    }

    /// The frame that powers the device down: a write to Config of the
    /// configuration applied last, with `pwrdwn_en` set and `clkout_en`
    /// cleared.
    pub open spec fn spec_powerdown(&self) -> Seq<u8> {
        spec_write_frame(
            Register::Config,
            (Config { pwrdwn_en: true, clkout_en: false, ..self.config }).encode(),
        )
    }

    /// Returns the frame that powers the device down, turning off the
    /// dc-to-dc converter and the modulators.
    pub fn powerdown(&self) -> (frame: Vec<u8>)
        ensures
            frame@ == self.spec_powerdown(),
            frame@.len() == 2,
            frame@[0] == 0x40,
    {
        let mut config = self.config;
        config.pwrdwn_en = true;
        config.clkout_en = false;
        frame2(Register::Config.command(SpiOp::Write), u8::from(config))
    }

    /// The frame that wakes the device up: a write to Config of the
    /// configuration applied last.
    pub open spec fn spec_wakeup(&self) -> Seq<u8> {
        spec_write_frame(Register::Config, self.config.encode())
    }

    /// Returns the frame that wakes the device up, turning on the dc-to-dc
    /// converter and the modulators as the configuration applied last has
    /// them.
    pub fn wakeup(&self) -> (frame: Vec<u8>)
        ensures
            frame@ == self.spec_wakeup(),
            frame@.len() == 2,
            frame@[0] == 0x40,
    {
        frame2(Register::Config.command(SpiOp::Write), u8::from(self.config))
    }

    /// The frame of the sync command: a write to SyncSnap with `sync` set.
    pub open spec fn spec_sync(&self) -> Seq<u8> {
        spec_write_frame(Register::SyncSnap, (SyncSnap { sync: true, snap: false }).encode())
    }

    /// Returns the frame of the sync command. Devices that listen to the
    /// broadcast receive it as well.
    pub fn sync(&self) -> (frame: Vec<u8>)
        ensures
            frame@ == self.spec_sync(),
            frame@ == seq![0x58u8, 0x01u8],
    {
        let sync = SyncSnap { sync: true, snap: false };
        frame2(Register::SyncSnap.command(SpiOp::Write), u8::from(sync))
    }

    /// The frame of the snap command: a write to SyncSnap with `snap` set.
    pub open spec fn spec_snap(&self) -> Seq<u8> {
        spec_write_frame(Register::SyncSnap, (SyncSnap { sync: false, snap: true }).encode())
    }

    /// Returns the frame of the snap command. Devices that listen to the
    /// broadcast receive it as well.
    pub fn snap(&self) -> (frame: Vec<u8>)
        ensures
            frame@ == self.spec_snap(),
            frame@ == seq![0x58u8, 0x02u8],
    {
        let snap = SyncSnap { sync: false, snap: true };
        frame2(Register::SyncSnap.command(SpiOp::Write), u8::from(snap))
    }

    /// The frame that locks the configuration registers.
    pub open spec fn spec_lock(&self) -> Seq<u8> {
        spec_write_frame(Register::Lock, LockOp::Enable.spec_code())
    }

    /// Returns the frame that locks the configuration registers of the
    /// device, so that they cannot be written.
    pub fn lock(&self) -> (frame: Vec<u8>)
        ensures
            frame@ == self.spec_lock(),
            frame@ == seq![0x50u8, 0xCAu8],
    {
        frame2(Register::Lock.command(SpiOp::Write), LockOp::Enable.code())
    }

    /// The frame that unlocks the configuration registers.
    pub open spec fn spec_unlock(&self) -> Seq<u8> {
        spec_write_frame(Register::Lock, LockOp::Disable.spec_code())
    }

    /// Returns the frame that unlocks the configuration registers of the
    /// device, so that they can be written.
    pub fn unlock(&self) -> (frame: Vec<u8>)
        ensures
            frame@ == self.spec_unlock(),
            frame@ == seq![0x50u8, 0x9Cu8],
    {
        frame2(Register::Lock.command(SpiOp::Write), LockOp::Disable.code())
    }

    /// Returns the frame that reads `reg`, or `WriteOnlyRegister` if the
    /// register cannot be read. The value read is the second byte received.
    pub fn read_reg<S, P>(&self, reg: Register) -> (r: Result<Vec<u8>, Error<S, P>>)
        ensures
            reg.access() == Access::WriteOnly ==> r == Err::<Vec<u8>, Error<S, P>>(
                Error::WriteOnlyRegister,
            ),
            reg.access() != Access::WriteOnly ==> r is Ok && r->Ok_0@ == spec_read_frame(reg),
    {
        if reg.is_write_only() {
            return Err(Error::WriteOnlyRegister);
        }
        Ok(frame2(reg.command(SpiOp::Read), 0))
    }

    /// Returns the frame that writes `content` to `reg`, or
    /// `ReadOnlyRegister` if the register cannot be written.
    pub fn write_reg<S, P>(&self, reg: Register, content: u8) -> (r: Result<Vec<u8>, Error<S, P>>)
        ensures
            reg.access() == Access::ReadOnly ==> r == Err::<Vec<u8>, Error<S, P>>(
                Error::ReadOnlyRegister,
            ),
            reg.access() != Access::ReadOnly ==> r is Ok && r->Ok_0@ == spec_write_frame(
                reg,
                content,
            ),
    {
        if reg.is_read_only() {
            return Err(Error::ReadOnlyRegister);
        }
        Ok(frame2(reg.command(SpiOp::Write), content))
    }

    /// Checks the second half of a checked write: `received` came back from
    /// the read of the register written before. Fails with
    /// `RegisterContentMismatch` if the register does not hold `content`.
    pub fn write_reg_checked<S, P>(&self, content: u8, received: &Vec<u8>) -> (r: Result<
        (),
        Error<S, P>,
    >)
        requires
            received@.len() == 2,
        ensures
            received@[1] == content ==> r == Ok::<(), Error<S, P>>(()),
            received@[1] != content ==> r == Err::<(), Error<S, P>>(
                Error::RegisterContentMismatch,
            ),
    {
        if received[1] != content {
            return Err(Error::RegisterContentMismatch);
        }
        Ok(())
    }

    /// Returns the frame of a burst read of `len` bytes that starts at
    /// `start_reg`, or `BurstReadNotPermitted` if no burst read may start
    /// there. One transaction then fetches several registers, as for the
    /// measurements. What comes back is put in place by
    /// [`Self::burst_frame`].
    pub fn burst_read<S, P>(&self, start_reg: Register, len: usize) -> (r: Result<
        Vec<u8>,
        Error<S, P>,
    >)
        requires
            spec_burst_start(start_reg) matches Some(start) ==> start + len <= FRAME_LEN,
        ensures
            spec_burst_start(start_reg) is None ==> r == Err::<Vec<u8>, Error<S, P>>(
                Error::BurstReadNotPermitted,
            ),
            spec_burst_start(start_reg) is Some ==> r is Ok && r->Ok_0@ == spec_burst_frame(
                start_reg,
                len as nat,
            ),
    {
        match start_reg {
            Register::Iwv
            | Register::V1wv
            | Register::V2wv
            | Register::AdcCrc
            | Register::Status0
            | Register::CntSnapshot => {},
            _ => {
                return Err(Error::BurstReadNotPermitted);
            },
        }
        let mut frame: Vec<u8> = Vec::new();
        frame.push(start_reg.command(SpiOp::Read));
        let mut rest = zeros(len);
        frame.append(&mut rest);
        assert(frame@ =~= spec_burst_frame(start_reg, len as nat));
        Ok(frame)
    }

    /// Puts the bytes that a burst read received in their place in the
    /// 15-byte frame, so that one decoder serves every burst read.
    /// `received` is what came back from the frame of
    /// [`Self::burst_read`] for the same `start_reg`: one byte received
    /// during the command, then the data.
    pub fn burst_frame(&self, start_reg: Register, received: &Vec<u8>) -> (frame: [u8; 15])
        requires
            spec_burst_start(start_reg) is Some,
            received@.len() >= 1,
            spec_burst_start(start_reg)->Some_0 + received@.len() - 1 <= FRAME_LEN,
        ensures
            frame@ == spec_place_burst(spec_burst_start(start_reg)->Some_0 as int, received@),
    {
        let start: usize = match start_reg {
            Register::Iwv => 1,
            Register::V1wv => 4,
            Register::V2wv => 7,
            Register::AdcCrc => 10,
            Register::Status0 => 12,
            _ => 13,
        };
        let mut frame: [u8; 15] = [0u8; 15];
        frame[0] = received[0];
        let mut i: usize = 1;
        while i < received.len()
            invariant
                1 <= i <= received@.len(),
                start + received@.len() - 1 <= 15,
                start >= 1,
                frame@.len() == 15,
                frame@[0] == received@[0],
                forall|k: int| 1 <= k < start + i - 1 ==> frame@[k] == spec_place_burst(
                    start as int,
                    received@,
                )[k],
                forall|k: int| start + i - 1 <= k < 15 ==> frame@[k] == 0,
            decreases received@.len() - i,
        {
            frame[start + i - 1] = received[i];
            i += 1;
        }
        assert(frame@ =~= spec_place_burst(start as int, received@));
        frame
    }

    /// The measurement in what a burst read of [`MEASUREMENT_BURST_LEN`]
    /// bytes from Iwv received.
    pub open spec fn spec_get_raw_measurement(received: Seq<u8>) -> RawMeasurement {
        let burst = BurstRead::decode(spec_place_burst(1, received));
        RawMeasurement { iwv: burst.iwv, v1wv: burst.v1wv, v2wv: burst.v2wv }
    }

    /// Returns the latest available measurement from the ADC, without
    /// applying any conversion. `received` is what came back from a burst
    /// read of [`MEASUREMENT_BURST_LEN`] bytes that starts at Iwv. The CRC of
    /// the samples is not checked.
    pub fn get_raw_measurement(&self, received: &Vec<u8>) -> (m: RawMeasurement)
        requires
            received@.len() == MEASUREMENT_BURST_LEN + 1,
        ensures
            m == Self::spec_get_raw_measurement(received@),
            m.iwv == crate::register::spec_sample(received@[1], received@[2], received@[3]),
            m.v1wv == crate::register::spec_sample(received@[4], received@[5], received@[6]),
            m.v2wv == crate::register::spec_sample(received@[7], received@[8], received@[9]),
    {
        let burst = BurstRead::from(self.burst_frame(Register::Iwv, received));
        RawMeasurement { iwv: burst.iwv, v1wv: burst.v1wv, v2wv: burst.v2wv }
    }

    /// The counter snapshot in what a burst read of [`SNAPSHOT_BURST_LEN`]
    /// bytes from Iwv received.
    pub open spec fn spec_get_cnt_snapshot(received: Seq<u8>) -> u16 {
        BurstRead::decode(spec_place_burst(1, received)).cnt_snapshot
    }

    /// Returns the value of the snapshot of the internal counter, latched by
    /// the snap command. `received` is what came back from a burst read of
    /// [`SNAPSHOT_BURST_LEN`] bytes that starts at Iwv and so reaches the
    /// snapshot at the end of the frame.
    pub fn get_cnt_snapshot(&self, received: &Vec<u8>) -> (c: u16)
        requires
            received@.len() == SNAPSHOT_BURST_LEN + 1,
        ensures
            c == Self::spec_get_cnt_snapshot(received@),
            c == crate::register::spec_word(received@[13], received@[14]),
    {
        BurstRead::from(self.burst_frame(Register::Iwv, received)).cnt_snapshot
    }

    /// The value to load into the counter of the device when its snapshot is
    /// `c` and that of the reference device `cref`, or `None` if the two are
    /// at most one count apart.
    pub open spec fn spec_counter_preload(&self, c: u16, cref: u16) -> Option<u16> {
        if -1 <= spec_drift(c, cref) <= 1 {
            None
        } else {
            Some(spec_preload(c, cref, self.config.adc_freq.spec_counter_modulus()) as u16)
        }
    }

    /// Compares the counter snapshot `c` of the device with `cref`, that of
    /// the reference device, both latched by one snap command. Returns the
    /// drift, `c - cref` as a signed 16-bit number, and, if the drift is more
    /// than one count either way, the value to write to the counter of the
    /// device to bring it back in step: its low byte goes to Counter0, its
    /// high byte to Counter1.
    pub fn adjust_sync(&self, c: u16, cref: u16) -> (r: (i16, Option<u16>))
        ensures
            r.0 == spec_drift(c, cref),
            r.1 == self.spec_counter_preload(c, cref),
            r.1 is None <==> -1 <= r.0 <= 1,
    {
        let c0: i32 = self.config.adc_freq.counter_modulus() as i32;
        let d: i32 = c as i32 - cref as i32;
        let drift: i16 = if d > 0x7FFF {
            (d - 0x1_0000) as i16
        } else if d < -0x8000 {
            (d + 0x1_0000) as i16
        } else {
            d as i16
        };
        if drift > 1 || drift < -1 {
            let adj: i32 = if c > cref {
                let v: i32 = cref as i32 + c0 - c as i32;
                if v < 0 {
                    v + 0x1_0000
                } else {
                    v
                }
            } else {
                cref as i32 - c as i32
            };
            (drift, Some(adj as u16))
        } else {
            (drift, None)
        }
    }
}

} // verus!
