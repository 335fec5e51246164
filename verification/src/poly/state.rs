//! What the driver of several devices does, as mathematics.
//!
//! A [`State`] is the value of a driver: its devices, the operation that is
//! going on and how far it has come. [`State::next`] tells what the driver does
//! with a reply: how the value changes and what the driver wants next. The
//! functions named `..._script` tell what a whole operation puts on the bus.

use crate::ade791x;
use crate::ade791x::{
    spec_burst_frame, spec_hard_reset_frame, spec_read_frame, spec_write_frame,
    MEASUREMENT_BURST_LEN, RESET_POLLS, RESET_POLL_DELAY_MS, SNAPSHOT_BURST_LEN,
};
use crate::bus::{
    line_low, listeners, transaction, transaction_op, BusOpView, OutputView, Reply, StepView,
};
use crate::register::{Config, EmiCtrl, Register, Status0};
use crate::{AuxCalibration, Chip, Error, RawMeasurement};
use vstd::prelude::*;

verus! {

/// The operations of the driver.
#[derive(Debug, Copy, Clone, PartialEq, Eq, Structural)]
pub enum Operation {
    /// No operation is going on.
    Idle,
    Init,
    HardReset,
    SoftReset,
    Powerdown,
    Wakeup,
    AdjustSync,
    GetRawMeasurement,
}

/// The transactions that operations are made of. All but the pause are SPI
/// transactions; each names what its frame does.
#[derive(Debug, Copy, Clone, PartialEq, Eq, Structural)]
pub enum Stage {
    /// No operation has been started yet.
    Idle,
    /// Read Status0 to see whether the reset of the device has ended.
    ResetPoll,
    /// Wait before Status0 is polled again.
    ResetPause,
    /// Write Config.
    ConfigWrite,
    /// Read Config back.
    ConfigRead,
    /// Write EmiCtrl.
    EmiWrite,
    /// Read EmiCtrl back.
    EmiRead,
    /// Read the temperature offset.
    Tempos,
    /// Broadcast the sync command.
    Sync,
    /// Broadcast the lock of the configuration registers.
    Lock,
    /// Broadcast the unlock of the configuration registers.
    Unlock,
    /// Broadcast the snap command.
    Snap,
    /// Broadcast the hardware reset sequence.
    HardReset,
    /// Write Config for a software reset, a powerdown or a wakeup.
    Configure,
    /// Read the counter snapshot of the reference device.
    Reference,
    /// Read the counter snapshot of another device.
    Compare,
    /// Write the low byte of the counter of a device that has drifted.
    Counter0,
    /// Write the high byte of the counter of a device that has drifted.
    Counter1,
    /// Read the samples of a device.
    Measure,
}

/// Where a transaction stands: the bus operation named last, which the
/// caller is performing.
#[derive(Debug, Copy, Clone, PartialEq, Eq, Structural)]
pub enum Phase {
    /// The chip-select line of the listening device with this index goes low.
    Listen(usize),
    /// The chip-select line of the device of the transaction goes low.
    Select,
    /// The frame is transferred.
    Transfer,
    /// The chip-select line of the device of the transaction goes high.
    Release,
    /// The chip-select line of the listening device with this index goes
    /// high.
    Unlisten(usize),
    /// The delay of a pause passes.
    Pause,
}

/// The mathematical value of a [`crate::poly::Ade791x`]: its devices, the
/// operation that is going on and how far it has come.
pub struct State {
    /// The devices; device `i` sits behind chip-select line `i`.
    pub adcs: Seq<ade791x::Ade791x>,
    /// The operation that is going on.
    pub operation: Operation,
    /// The transaction that is going on.
    pub stage: Stage,
    /// The bus operation that the caller is performing.
    pub phase: Phase,
    /// The device of the transaction that is going on.
    pub device: usize,
    /// How many polls of the device being initialized have found it in reset.
    pub polls: u8,
    /// How many polls have found each device in reset whose initialization is
    /// done.
    pub reset_polls: Seq<u8>,
    /// What the transfer of the transaction that is going on received.
    pub received: Seq<u8>,
    /// The configurations that initialization applies, one for each device.
    pub configs: Seq<Config>,
    /// The auxiliary calibrations that initialization applies.
    pub calibrations: Seq<AuxCalibration>,
    /// The EMI settings that initialization applies.
    pub emi_ctrls: Seq<EmiCtrl>,
    /// The device whose counter the others are compared with.
    pub reference: usize,
    /// The counter snapshot of the reference device.
    pub cref: u16,
    /// The value being written to the counter of a device that has drifted.
    pub preload: u16,
    /// The drift of each device found so far; 0 where none was found yet.
    pub drift: Seq<i16>,
    /// The value written to the counter of each device found to have drifted
    /// so far.
    pub preloads: Seq<Option<u16>>,
    /// The measurements read so far.
    pub raw: Seq<RawMeasurement>,
    /// The bus operations named since the operation started, in order.
    pub trace: Seq<BusOpView>,
}

/// The index of the first device from `from` on that generates the DREADY
/// signal, or the number of devices if there is none.
pub open spec fn spec_dr_source_from(adcs: Seq<ade791x::Ade791x>, from: int) -> int
    decreases adcs.len() - from,
{
    if from < 0 || from >= adcs.len() {
        adcs.len() as int
    } else if adcs[from].spec_is_dr_source() {
        from
    } else {
        spec_dr_source_from(adcs, from + 1)
    }
}

/// The index of the reference device for synchronization: the first device
/// that generates the DREADY signal, or device 0 if none does.
pub open spec fn spec_reference(adcs: Seq<ade791x::Ade791x>) -> int {
    let first = spec_dr_source_from(adcs, 0);
    if first < adcs.len() {
        first
    } else {
        0
    }
}

impl State {
    /// The number of devices.
    pub open spec fn n(self) -> nat {
        self.adcs.len()
    }

    /// The chips of the devices.
    pub open spec fn chips(self) -> Seq<Chip> {
        Seq::new(self.n(), |i: int| self.adcs[i].chip)
    }

    /// Whether the transaction that is going on is a broadcast.
    pub open spec fn broadcast(self) -> bool {
        self.stage is Sync || self.stage is Lock || self.stage is Unlock || self.stage is Snap
            || self.stage is HardReset
    }

    /// The frame of the transaction that is going on.
    pub open spec fn frame(self) -> Seq<u8> {
        let adc = self.adcs[self.device as int];
        match self.stage {
            Stage::Idle | Stage::ResetPause => Seq::empty(),
            Stage::ResetPoll => spec_read_frame(Register::Status0),
            Stage::ConfigWrite => spec_write_frame(Register::Config, adc.config.encode()),
            Stage::ConfigRead => spec_read_frame(Register::Config),
            Stage::EmiWrite => spec_write_frame(
                Register::EmiCtrl,
                self.emi_ctrls[self.device as int].encode(),
            ),
            Stage::EmiRead => spec_read_frame(Register::EmiCtrl),
            Stage::Tempos => spec_read_frame(Register::Tempos),
            Stage::Sync => adc.spec_sync(),
            Stage::Lock => adc.spec_lock(),
            Stage::Unlock => adc.spec_unlock(),
            Stage::Snap => adc.spec_snap(),
            Stage::HardReset => spec_hard_reset_frame(),
            Stage::Configure => match self.operation {
                Operation::SoftReset => adc.spec_soft_reset(),
                Operation::Powerdown => adc.spec_powerdown(),
                _ => adc.spec_wakeup(),
            },
            Stage::Reference | Stage::Compare => spec_burst_frame(
                Register::Iwv,
                SNAPSHOT_BURST_LEN as nat,
            ),
            Stage::Counter0 => spec_write_frame(Register::Counter0, (self.preload % 256) as u8),
            Stage::Counter1 => spec_write_frame(Register::Counter1, (self.preload / 256) as u8),
            Stage::Measure => spec_burst_frame(Register::Iwv, MEASUREMENT_BURST_LEN as nat),
        }
    }

    /// The number of bus operations of the transaction that is going on.
    pub open spec fn ops_len(self) -> nat {
        if self.stage is ResetPause {
            1
        } else {
            2 * listeners(self.n(), self.broadcast()) + 3
        }
    }

    /// The bus operation at index `k` of the transaction that is going on: a
    /// pause is one delay, and any other transaction is as
    /// [`transaction_op`] has it.
    pub open spec fn op_at(self, k: int) -> BusOpView {
        if self.stage is ResetPause {
            BusOpView::DelayMs(RESET_POLL_DELAY_MS)
        } else {
            transaction_op(self.n(), self.device, self.broadcast(), self.frame(), k)
        }
    }

    /// How many bus operations of the transaction that is going on have been
    /// named, the one that the caller is performing included.
    pub open spec fn position(self) -> int {
        let others = listeners(self.n(), self.broadcast()) as int;
        match self.phase {
            Phase::Listen(j) => j as int,
            Phase::Select => others + 1,
            Phase::Transfer => others + 2,
            Phase::Release => others + 3,
            Phase::Unlisten(j) => others + 3 + j,
            Phase::Pause => 1,
        }
    }

    /// The number of bus operations of the transaction that is going on that
    /// have not been named yet.
    pub open spec fn ops_left(self) -> nat {
        (self.ops_len() - self.position()) as nat
    }

    /// The bus operation that the caller is performing, if an operation of
    /// the driver is going on.
    pub open spec fn pending(self) -> Option<BusOpView> {
        if self.operation is Idle {
            None
        } else {
            Some(
                match self.phase {
                    Phase::Listen(j) => BusOpView::SelectLow(j),
                    Phase::Select => BusOpView::SelectLow(self.device),
                    Phase::Transfer => BusOpView::Transfer(self.frame()),
                    Phase::Release => BusOpView::SelectHigh(self.device),
                    Phase::Unlisten(j) => BusOpView::SelectHigh(j),
                    Phase::Pause => BusOpView::DelayMs(RESET_POLL_DELAY_MS),
                },
            )
        }
    }

    /// Whether the bus operation that the caller is performing is the last of
    /// its transaction.
    pub open spec fn complete(self) -> bool {
        match self.phase {
            Phase::Release => listeners(self.n(), self.broadcast()) == 0,
            Phase::Unlisten(j) => j + 1 >= self.n(),
            Phase::Pause => true,
            _ => false,
        }
    }

    /// The phase that follows the current one in a transaction that is not
    /// complete.
    pub open spec fn next_phase(self) -> Phase {
        match self.phase {
            Phase::Listen(j) => if j + 1 < self.n() {
                Phase::Listen((j + 1) as usize)
            } else {
                Phase::Select
            },
            Phase::Select => Phase::Transfer,
            Phase::Transfer => Phase::Release,
            Phase::Release => Phase::Unlisten(1),
            Phase::Unlisten(j) => Phase::Unlisten((j + 1) as usize),
            Phase::Pause => Phase::Pause,
        }
    }

    /// The phase in which the transaction that is going on starts.
    pub open spec fn first_phase(self) -> Phase {
        if self.stage is ResetPause {
            Phase::Pause
        } else if listeners(self.n(), self.broadcast()) > 0 {
            Phase::Listen(1)
        } else {
            Phase::Select
        }
    }

    /// The driver once `phase` has begun: its bus operation is named.
    pub open spec fn named<S, P>(self, phase: Phase) -> (State, StepView<S, P>) {
        let s = State { phase, ..self };
        let op = s.pending()->Some_0;
        (State { trace: s.trace.push(op), ..s }, StepView::Perform(op))
    }

    /// The driver once the operation has ended with `result`. The transaction
    /// and its device stay as they are: they tell where the operation ended.
    pub open spec fn ended<S, P>(self, result: Result<OutputView, Error<S, P>>) -> (
        State,
        StepView<S, P>,
    ) {
        (State { operation: Operation::Idle, ..self }, StepView::Ready(result))
    }

    /// The driver at the start of the transaction `stage` with `device`.
    pub open spec fn enter<S, P>(self, stage: Stage, device: int) -> (State, StepView<S, P>) {
        let s = State { stage, device: device as usize, ..self };
        s.named(s.first_phase())
    }

    /// Whether `step` is what the driver wanted when it went from `self` to
    /// `after` within one operation: a bus operation that is then the one the
    /// caller is performing and the last of the trace, or the end of the
    /// operation, with nothing left to perform and the trace as it was.
    pub open spec fn names<S, P>(self, after: State, step: StepView<S, P>) -> bool {
        match step {
            StepView::Perform(op) => {
                &&& after.pending() == Some(op)
                &&& after.trace == self.trace.push(op)
                &&& after.operation == self.operation
            },
            StepView::Ready(_) => {
                &&& after.pending() is None
                &&& after.trace == self.trace
            },
        }
    }

    /// The driver at the start of the initialization of `device`: the device
    /// keeps its configuration and calibration, and Status0 is polled.
    pub open spec fn init_device<S, P>(self, device: int) -> (State, StepView<S, P>) {
        let adc = ade791x::Ade791x {
            config: self.configs[device],
            calibration: self.calibrations[device],
            ..self.adcs[device]
        };
        (State { adcs: self.adcs.update(device, adc), polls: 0, ..self }).enter(
            Stage::ResetPoll,
            device,
        )
    }

    /// The driver at the end of the initialization of its current device,
    /// when the Tempos register, if it was read, held `tempos`: the
    /// calibration of the device is completed, and the next device is
    /// initialized. After the last device, the sync command is broadcast if
    /// there are several devices, and then the lock.
    pub open spec fn init_device_done<S, P>(self, tempos: u8) -> (State, StepView<S, P>) {
        let adc = self.adcs[self.device as int];
        let adc = ade791x::Ade791x {
            calibration: adc.spec_completed_calibration(tempos),
            ..adc
        };
        let s = State {
            adcs: self.adcs.update(self.device as int, adc),
            reset_polls: self.reset_polls.push(self.polls),
            ..self
        };
        if self.device + 1 < self.n() {
            s.init_device(self.device + 1)
        } else if self.n() > 1 {
            s.enter(Stage::Sync, 0)
        } else {
            s.enter(Stage::Lock, 0)
        }
    }

    /// The driver once a transaction of the wait for the end of a reset has
    /// been completed. A poll that finds the reset ended lets the device be
    /// configured; one that finds it going on is followed by a pause. After
    /// the pause, Status0 is polled again, unless it has been polled
    /// [`RESET_POLLS`] times: then initialization gives up.
    pub open spec fn wait_reset<S, P>(self) -> (State, StepView<S, P>) {
        if self.stage is ResetPoll {
            if Status0::decode(self.received[1]).reset_on {
                (State { polls: (self.polls + 1) as u8, ..self }).enter(
                    Stage::ResetPause,
                    self.device as int,
                )
            } else {
                self.enter(Stage::ConfigWrite, self.device as int)
            }
        } else if self.polls >= RESET_POLLS {
            self.ended(Err(Error::ResetTimeout))
        } else {
            self.enter(Stage::ResetPoll, self.device as int)
        }
    }

    /// The driver once a transaction that configures the device being
    /// initialized has been completed. Config and EmiCtrl are each written
    /// and read back; initialization gives up if one does not hold what was
    /// written. Then Tempos is read if the calibration of the device needs
    /// it, and the device is done.
    pub open spec fn configure<S, P>(self) -> (State, StepView<S, P>) {
        let adc = self.adcs[self.device as int];
        match self.stage {
            Stage::ConfigWrite => self.enter(Stage::ConfigRead, self.device as int),
            Stage::ConfigRead => if self.received[1] != adc.config.encode() {
                self.ended(Err(Error::RegisterContentMismatch))
            } else {
                self.enter(Stage::EmiWrite, self.device as int)
            },
            Stage::EmiWrite => self.enter(Stage::EmiRead, self.device as int),
            Stage::EmiRead => if self.received[1] != self.emi_ctrls[self.device as int].encode() {
                self.ended(Err(Error::RegisterContentMismatch))
            } else if adc.spec_needs_tempos() {
                self.enter(Stage::Tempos, self.device as int)
            } else {
                self.init_device_done(0)
            },
            _ => self.init_device_done(self.received[1]),
        }
    }

    /// The driver when the devices from `from` on remain to be compared with
    /// the reference device: the snapshot of the first of them that is not
    /// the reference is read. When none remains, the lock is broadcast.
    pub open spec fn compare_from<S, P>(self, from: int) -> (State, StepView<S, P>) {
        let device = if from == self.reference {
            from + 1
        } else {
            from
        };
        if device < self.n() {
            self.enter(Stage::Compare, device)
        } else {
            self.enter(Stage::Lock, 0)
        }
    }

    /// The driver once a transaction with a single device in the adjustment
    /// of the synchronization has been completed. The snapshot of the
    /// reference device is kept. The snapshot of another device gives its
    /// drift; if the device has drifted by more than one count, the counter
    /// preload is written to Counter0 and then to Counter1. Then the next
    /// device is compared.
    pub open spec fn adjust<S, P>(self) -> (State, StepView<S, P>) {
        let adc = self.adcs[self.device as int];
        match self.stage {
            Stage::Reference => (State {
                cref: ade791x::Ade791x::spec_get_cnt_snapshot(self.received),
                ..self
            }).compare_from(0),
            Stage::Compare => {
                let c = ade791x::Ade791x::spec_get_cnt_snapshot(self.received);
                let s = State {
                    drift: self.drift.update(
                        self.device as int,
                        ade791x::spec_drift(c, self.cref) as i16,
                    ),
                    preloads: self.preloads.update(
                        self.device as int,
                        adc.spec_counter_preload(c, self.cref),
                    ),
                    ..self
                };
                match adc.spec_counter_preload(c, self.cref) {
                    Some(preload) => (State { preload, ..s }).enter(
                        Stage::Counter0,
                        self.device as int,
                    ),
                    None => s.compare_from(self.device + 1),
                }
            },
            Stage::Counter0 => self.enter(Stage::Counter1, self.device as int),
            _ => self.compare_from(self.device + 1),
        }
    }

    /// The driver once a broadcast has been completed. The sync command is
    /// followed by the lock, and the lock ends its operation. The hardware
    /// reset is an operation by itself. The unlock is followed by the snap
    /// command in the adjustment of the synchronization, and by the write to
    /// the first device in any other operation. The snap command is followed
    /// by the read of the reference device.
    pub open spec fn broadcast_done<S, P>(self) -> (State, StepView<S, P>) {
        match self.stage {
            Stage::Sync => self.enter(Stage::Lock, 0),
            Stage::Lock => if self.operation is AdjustSync {
                self.ended(Ok(OutputView::Drift(self.drift)))
            } else {
                self.ended(Ok(OutputView::Done))
            },
            Stage::Unlock => if self.operation is AdjustSync {
                self.enter(Stage::Snap, 0)
            } else {
                self.enter(Stage::Configure, 0)
            },
            Stage::Snap => self.enter(Stage::Reference, self.reference as int),
            _ => self.ended(Ok(OutputView::Done)),
        }
    }

    /// The driver once a transaction that is the same for every device has
    /// been completed with one device: the write of Config in a software
    /// reset, a powerdown or a wakeup, and the read of the samples in a
    /// measurement. The next device follows. After the last device, a
    /// software reset ends, a powerdown or a wakeup is followed by the lock,
    /// and a measurement hands back what it has read.
    pub open spec fn next_device<S, P>(self) -> (State, StepView<S, P>) {
        if self.stage is Measure {
            let s = State {
                raw: self.raw.push(ade791x::Ade791x::spec_get_raw_measurement(self.received)),
                ..self
            };
            if self.device + 1 < self.n() {
                s.enter(Stage::Measure, self.device + 1)
            } else {
                s.ended(Ok(OutputView::Raw(s.raw)))
            }
        } else if self.device + 1 < self.n() {
            self.enter(Stage::Configure, self.device + 1)
        } else if self.operation is SoftReset {
            self.ended(Ok(OutputView::Done))
        } else {
            self.enter(Stage::Lock, 0)
        }
    }

    /// The driver once the transaction that is going on has been completed.
    pub open spec fn advance<S, P>(self) -> (State, StepView<S, P>) {
        match self.stage {
            Stage::Idle => self.ended(Ok(OutputView::Done)),
            Stage::ResetPoll | Stage::ResetPause => self.wait_reset(),
            Stage::ConfigWrite
            | Stage::ConfigRead
            | Stage::EmiWrite
            | Stage::EmiRead
            | Stage::Tempos => self.configure(),
            Stage::Sync | Stage::Lock | Stage::Unlock | Stage::Snap | Stage::HardReset =>
                self.broadcast_done(),
            Stage::Reference | Stage::Compare | Stage::Counter0 | Stage::Counter1 => self.adjust(),
            Stage::Configure | Stage::Measure => self.next_device(),
        }
    }

    /// The driver after `reply`, and what it wants next.
    ///
    /// A failure ends the operation with the error. Any other reply lets the
    /// transaction that is going on go ahead by one bus operation; when the
    /// transaction is complete, what it received decides what follows.
    pub open spec fn next<S, P>(self, reply: Reply<S, P>) -> (State, StepView<S, P>) {
        match reply {
            Reply::PinFailed(e) => self.ended(Err(Error::PinError(e))),
            Reply::SpiFailed(e) => self.ended(Err(Error::SpiError(e))),
            Reply::Received(bytes) => {
                let s = State { received: bytes@, ..self };
                if s.complete() {
                    s.advance()
                } else {
                    s.named(s.next_phase())
                }
            },
            _ => if self.complete() {
                self.advance()
            } else {
                self.named(self.next_phase())
            },
        }
    }

    /// The driver of the devices `chips` when nothing has been done yet.
    pub open spec fn fresh(chips: Seq<Chip>) -> State {
        State {
            adcs: Seq::new(
                chips.len(),
                |i: int|
                    ade791x::Ade791x {
                        cs: i as usize,
                        chip: chips[i],
                        config: Config::spec_default(),
                        calibration: AuxCalibration::spec_default(),
                    },
            ),
            operation: Operation::Idle,
            stage: Stage::Idle,
            phase: Phase::Select,
            device: 0,
            polls: 0,
            reset_polls: Seq::empty(),
            received: Seq::empty(),
            configs: Seq::empty(),
            calibrations: Seq::empty(),
            emi_ctrls: Seq::empty(),
            reference: 0,
            cref: 0,
            preload: 0,
            drift: Seq::empty(),
            preloads: Seq::empty(),
            raw: Seq::empty(),
            trace: Seq::empty(),
        }
    }

    /// The driver at the start of `operation`, before its first transaction.
    pub open spec fn started(self, operation: Operation) -> State {
        State { operation, trace: Seq::empty(), ..self }
    }

    /// The driver when initialization has been started: the first device is
    /// initialized.
    pub open spec fn init<S, P>(
        self,
        configs: Seq<Config>,
        calibrations: Seq<AuxCalibration>,
        emi_ctrls: Seq<EmiCtrl>,
    ) -> (State, StepView<S, P>) {
        (State {
            configs,
            calibrations,
            emi_ctrls,
            reset_polls: Seq::empty(),
            ..self.started(Operation::Init)
        }).init_device(0)
    }

    /// The driver when a hardware reset has been started: the reset sequence
    /// is broadcast.
    pub open spec fn hard_reset<S, P>(self) -> (State, StepView<S, P>) {
        self.started(Operation::HardReset).enter(Stage::HardReset, 0)
    }

    /// The driver when a software reset, a powerdown or a wakeup has been
    /// started: the unlock is broadcast.
    pub open spec fn unlock<S, P>(self, operation: Operation) -> (State, StepView<S, P>) {
        self.started(operation).enter(Stage::Unlock, 0)
    }

    /// The driver when the adjustment of the synchronization has been
    /// started: the reference device is chosen, no drift is known, and the
    /// unlock is broadcast.
    pub open spec fn adjust_sync<S, P>(self) -> (State, StepView<S, P>) {
        (State {
            reference: spec_reference(self.adcs) as usize,
            drift: Seq::new(self.n(), |i: int| 0i16),
            preloads: Seq::new(self.n(), |i: int| None),
            ..self.started(Operation::AdjustSync)
        }).enter(Stage::Unlock, 0)
    }

    /// The driver when a measurement has been started: the first device is
    /// read. Without devices, the measurement ends at once.
    pub open spec fn get_raw_measurement<S, P>(self) -> (State, StepView<S, P>) {
        let s = State { raw: Seq::empty(), ..self.started(Operation::GetRawMeasurement) };
        if self.n() == 0 {
            s.ended(Ok(OutputView::Raw(Seq::empty())))
        } else {
            s.enter(Stage::Measure, 0)
        }
    }

    /// Whether what the operation that is going on puts on the bus is the same
    /// whatever the devices answer, as long as nothing fails: all operations
    /// but the initialization and the adjustment of the synchronization.
    pub open spec fn scripted_operation(self) -> bool {
        self.operation is HardReset || self.operation is SoftReset || self.operation is Powerdown
            || self.operation is Wakeup || self.operation is GetRawMeasurement
    }

    /// The frame of the transaction that `operation` makes with the device
    /// with index `device` alone.
    pub open spec fn device_frame(
        operation: Operation,
        adcs: Seq<ade791x::Ade791x>,
        device: int,
    ) -> Seq<u8> {
        match operation {
            Operation::SoftReset => adcs[device].spec_soft_reset(),
            Operation::Powerdown => adcs[device].spec_powerdown(),
            Operation::Wakeup => adcs[device].spec_wakeup(),
            _ => spec_burst_frame(Register::Iwv, MEASUREMENT_BURST_LEN as nat),
        }
    }

    /// The number of bus operations of `operation` on `n` devices, if it is
    /// one of [`Self::scripted_operation`] and nothing fails.
    pub open spec fn script_len(operation: Operation, n: nat) -> nat {
        let broadcast = 2 * listeners(n, true) + 3;
        match operation {
            Operation::HardReset => broadcast,
            Operation::SoftReset => broadcast + 3 * n,
            Operation::Powerdown | Operation::Wakeup => 2 * broadcast + 3 * n,
            _ => 3 * n,
        }
    }

    /// The bus operation at index `k` of `operation` on the devices `adcs`,
    /// if it is one of [`Self::scripted_operation`].
    ///
    /// A hardware reset is the broadcast of its frame. A measurement is one
    /// transaction with each device in turn. A software reset, a powerdown
    /// and a wakeup are the broadcast of the unlock, then one transaction with
    /// each device in turn; a powerdown and a wakeup end with the broadcast
    /// of the lock.
    pub open spec fn script_op(
        operation: Operation,
        adcs: Seq<ade791x::Ade791x>,
        k: int,
    ) -> BusOpView {
        let n = adcs.len();
        let broadcast = 2 * listeners(n, true) + 3;
        match operation {
            Operation::HardReset => transaction_op(n, 0, true, spec_hard_reset_frame(), k),
            Operation::SoftReset | Operation::Powerdown | Operation::Wakeup => if k < broadcast {
                transaction_op(n, 0, true, adcs[0].spec_unlock(), k)
            } else if k < broadcast + 3 * n {
                let device = (k - broadcast) / 3;
                transaction_op(
                    n,
                    device as usize,
                    false,
                    Self::device_frame(operation, adcs, device),
                    (k - broadcast) % 3,
                )
            } else {
                transaction_op(n, 0, true, adcs[0].spec_lock(), k - broadcast - 3 * n)
            },
            _ => transaction_op(
                n,
                (k / 3) as usize,
                false,
                Self::device_frame(operation, adcs, k / 3),
                k % 3,
            ),
        }
    }

    /// The bus operations of the operation that is going on, in order, if it
    /// is one of [`Self::scripted_operation`] and nothing fails.
    pub open spec fn script(self) -> Seq<BusOpView> {
        Seq::new(
            Self::script_len(self.operation, self.n()),
            |k: int| Self::script_op(self.operation, self.adcs, k),
        )
    }

    /// Whether initialization reads the Tempos register of a device with
    /// this chip when it applies this configuration and calibration.
    pub open spec fn tempos_needed(
        chip: Chip,
        config: Config,
        calibration: AuxCalibration,
    ) -> bool {
        (ade791x::Ade791x { cs: 0, chip, config, calibration }).spec_needs_tempos()
    }

    /// The frame of the transaction at index `j` among those that configure a
    /// device: the read of Status0 that finds the reset ended, the write of
    /// Config and its read, the write of EmiCtrl and its read, and the read
    /// of Tempos.
    pub open spec fn init_frame(config: Config, emi_ctrl: EmiCtrl, j: int) -> Seq<u8> {
        if j == 0 {
            spec_read_frame(Register::Status0)
        } else if j == 1 {
            spec_write_frame(Register::Config, config.encode())
        } else if j == 2 {
            spec_read_frame(Register::Config)
        } else if j == 3 {
            spec_write_frame(Register::EmiCtrl, emi_ctrl.encode())
        } else if j == 4 {
            spec_read_frame(Register::EmiCtrl)
        } else {
            spec_read_frame(Register::Tempos)
        }
    }

    /// The bus operation at index `k` of the initialization of `device`, one
    /// of `n` devices, when `polls` polls find it in reset: each of these
    /// polls takes three operations and is followed by a pause, and then the
    /// transactions of [`Self::init_frame`] follow, of three operations
    /// each.
    pub open spec fn init_device_op(
        n: nat,
        device: usize,
        config: Config,
        emi_ctrl: EmiCtrl,
        polls: int,
        k: int,
    ) -> BusOpView {
        if k < 4 * polls {
            if k % 4 == 3 {
                BusOpView::DelayMs(RESET_POLL_DELAY_MS)
            } else {
                transaction_op(n, device, false, spec_read_frame(Register::Status0), k % 4)
            }
        } else {
            let j = k - 4 * polls;
            transaction_op(n, device, false, Self::init_frame(config, emi_ctrl, j / 3), j % 3)
        }
    }

    /// The first `len` bus operations of the initialization of `device`.
    pub open spec fn init_device_script(
        n: nat,
        device: usize,
        config: Config,
        emi_ctrl: EmiCtrl,
        polls: int,
        len: int,
    ) -> Seq<BusOpView> {
        Seq::new(
            len as nat,
            |k: int| Self::init_device_op(n, device, config, emi_ctrl, polls, k),
        )
    }

    /// The number of bus operations of the initialization of a device that
    /// `polls` polls find in reset, with or without the read of Tempos.
    pub open spec fn init_device_len(polls: int, tempos: bool) -> int {
        4 * polls + 15 + if tempos {
            3int
        } else {
            0int
        }
    }

    /// The bus operations of the initialization of the first `count` devices,
    /// one device after the other, when `polls[i]` polls find device `i` in
    /// reset.
    pub open spec fn init_devices_script(
        chips: Seq<Chip>,
        configs: Seq<Config>,
        calibrations: Seq<AuxCalibration>,
        emi_ctrls: Seq<EmiCtrl>,
        polls: Seq<u8>,
        count: int,
    ) -> Seq<BusOpView>
        decreases count,
    {
        if count <= 0 {
            Seq::empty()
        } else {
            let i = count - 1;
            Self::init_devices_script(chips, configs, calibrations, emi_ctrls, polls, i)
                + Self::init_device_script(
                chips.len(),
                i as usize,
                configs[i],
                emi_ctrls[i],
                polls[i] as int,
                Self::init_device_len(
                    polls[i] as int,
                    Self::tempos_needed(chips[i], configs[i], calibrations[i]),
                ),
            )
        }
    }

    /// The bus operations of an initialization of devices with these chips
    /// that ends with success, when `polls[i]` polls find device `i` in
    /// reset: the initialization of each device in turn, the broadcast of the
    /// sync command if there are several devices, and the broadcast of the
    /// lock.
    pub open spec fn init_script(
        chips: Seq<Chip>,
        configs: Seq<Config>,
        calibrations: Seq<AuxCalibration>,
        emi_ctrls: Seq<EmiCtrl>,
        polls: Seq<u8>,
    ) -> Seq<BusOpView> {
        let n = chips.len();
        Self::init_devices_script(chips, configs, calibrations, emi_ctrls, polls, n as int) + (if n
            > 1 {
            transaction(n, 0, true, seq![0x58u8, 0x01u8])
        } else {
            Seq::empty()
        }) + transaction(n, 0, true, seq![0x50u8, 0xCAu8])
    }

    /// The bus operation at index `k` of the comparison of `device`, one of
    /// `n` devices, with the reference device: the read of its counter
    /// snapshot and, if it has drifted, the writes of the low byte of
    /// `preload` to Counter0 and of the high byte to Counter1.
    pub open spec fn adjust_device_op(
        n: nat,
        device: usize,
        preload: Option<u16>,
        k: int,
    ) -> BusOpView {
        let value = preload->Some_0;
        let frame = if k < 3 {
            spec_burst_frame(Register::Iwv, SNAPSHOT_BURST_LEN as nat)
        } else if k < 6 {
            spec_write_frame(Register::Counter0, (value % 256) as u8)
        } else {
            spec_write_frame(Register::Counter1, (value / 256) as u8)
        };
        transaction_op(n, device, false, frame, k % 3)
    }

    /// The first `len` bus operations of the comparison of `device` with the
    /// reference device.
    pub open spec fn adjust_device_script(
        n: nat,
        device: usize,
        preload: Option<u16>,
        len: int,
    ) -> Seq<BusOpView> {
        Seq::new(len as nat, |k: int| Self::adjust_device_op(n, device, preload, k))
    }

    /// The bus operations of the comparison of the first `count` devices but
    /// the reference device with the reference device, one device after the
    /// other, when `preloads[i]` is written to the counter of device `i`.
    pub open spec fn adjust_devices_script(
        n: nat,
        reference: usize,
        preloads: Seq<Option<u16>>,
        count: int,
    ) -> Seq<BusOpView>
        decreases count,
    {
        if count <= 0 {
            Seq::empty()
        } else {
            let i = count - 1;
            Self::adjust_devices_script(n, reference, preloads, i) + (if i == reference {
                Seq::empty()
            } else {
                Self::adjust_device_script(
                    n,
                    i as usize,
                    preloads[i],
                    if preloads[i] is Some {
                        9
                    } else {
                        3
                    },
                )
            })
        }
    }

    /// The bus operations with which an adjustment of the synchronization of
    /// `n` devices begins: the broadcast of the unlock, the broadcast of the
    /// snap command and the read of the counter snapshot of the reference
    /// device.
    pub open spec fn adjust_head(n: nat, reference: usize) -> Seq<BusOpView> {
        transaction(n, 0, true, seq![0x50u8, 0x9Cu8]) + transaction(
            n,
            0,
            true,
            seq![0x58u8, 0x02u8],
        ) + transaction(
            n,
            reference,
            false,
            spec_burst_frame(Register::Iwv, SNAPSHOT_BURST_LEN as nat),
        )
    }

    /// The bus operations of an adjustment of the synchronization of `n`
    /// devices that ends with success, when `preloads[i]` is written to the
    /// counter of device `i`: what [`Self::adjust_head`] tells, the
    /// comparison of each device but the reference device in turn, and the
    /// broadcast of the lock.
    pub open spec fn adjust_script(
        n: nat,
        reference: usize,
        preloads: Seq<Option<u16>>,
    ) -> Seq<BusOpView> {
        Self::adjust_head(n, reference) + Self::adjust_devices_script(
            n,
            reference,
            preloads,
            n as int,
        ) + transaction(n, 0, true, seq![0x50u8, 0xCAu8])
    }

    /// A bound on the number of transactions that can still follow the one
    /// that is going on before the operation ends, whatever the devices
    /// answer.
    ///
    /// The initialization of a device takes at most 16 transactions: each of
    /// the [`RESET_POLLS`] polls with the pause after it, and five more for
    /// Config, EmiCtrl and Tempos. The comparison of a device with the
    /// reference takes at most three: the read of its snapshot and the two
    /// writes of its counter.
    pub open spec fn transactions_left(self) -> nat {
        let later = (self.n() - 1 - self.device) as nat;
        let polls_left = (RESET_POLLS - self.polls) as nat;
        match self.stage {
            Stage::Idle | Stage::Lock | Stage::HardReset => 0,
            Stage::ResetPoll => 5 + 2 * polls_left + 16 * later + 2,
            Stage::ResetPause => 6 + 2 * polls_left + 16 * later + 2,
            Stage::ConfigWrite => 4 + 16 * later + 2,
            Stage::ConfigRead => 3 + 16 * later + 2,
            Stage::EmiWrite => 2 + 16 * later + 2,
            Stage::EmiRead => 1 + 16 * later + 2,
            Stage::Tempos => 16 * later + 2,
            Stage::Sync => 1,
            Stage::Unlock => match self.operation {
                Operation::SoftReset => self.n(),
                Operation::AdjustSync => 3 * self.n() + 3,
                _ => self.n() + 1,
            },
            Stage::Configure => if self.operation is SoftReset {
                later
            } else {
                later + 1
            },
            Stage::Snap => 3 * self.n() + 2,
            Stage::Reference => 3 * self.n() + 1,
            Stage::Compare => 3 * later + 3,
            Stage::Counter0 => 3 * later + 2,
            Stage::Counter1 => 3 * later + 1,
            Stage::Measure => later,
        }
    }

    /// Whether `stage` is one of the transactions of `operation`.
    pub open spec fn stage_fits(operation: Operation, stage: Stage) -> bool {
        match operation {
            Operation::Idle => true,
            Operation::Init => stage is ResetPoll || stage is ResetPause || stage is ConfigWrite
                || stage is ConfigRead || stage is EmiWrite || stage is EmiRead || stage is Tempos
                || stage is Sync || stage is Lock,
            Operation::HardReset => stage is HardReset,
            Operation::SoftReset => stage is Unlock || stage is Configure,
            Operation::Powerdown | Operation::Wakeup => stage is Unlock || stage is Configure
                || stage is Lock,
            Operation::AdjustSync => stage is Unlock || stage is Snap || stage is Reference
                || stage is Compare || stage is Counter0 || stage is Counter1 || stage is Lock,
            Operation::GetRawMeasurement => stage is Measure,
        }
    }

    /// Whether the phase is one of the transaction that is going on.
    pub open spec fn phase_fits(self) -> bool {
        match self.phase {
            Phase::Listen(j) | Phase::Unlisten(j) => self.broadcast() && 1 <= j < self.n(),
            Phase::Pause => self.stage is ResetPause,
            _ => !(self.stage is ResetPause),
        }
    }

    /// Whether `adc` is a device that initialization has finished with when
    /// it was to apply `config` and `calibration`: it keeps the
    /// configuration, and its auxiliary calibration is complete, with what
    /// was chosen before kept and the rest as
    /// [`ade791x::Ade791x::spec_completed_calibration`] has it for the byte
    /// that the Tempos register held.
    pub open spec fn initialized(
        adc: ade791x::Ade791x,
        config: Config,
        calibration: AuxCalibration,
    ) -> bool {
        let begun = ade791x::Ade791x { config, calibration, ..adc };
        &&& adc.config == config
        &&& adc.calibration.gain == begun.spec_completed_calibration(0).gain
        &&& if begun.spec_needs_tempos() {
            adc.calibration.offset is Tempos
        } else {
            adc.calibration.offset == begun.spec_completed_calibration(0).offset
        }
    }

    /// Whether initialization has finished with the first `count` devices.
    pub open spec fn applied(self, count: int) -> bool {
        forall|i: int|
            0 <= i < count ==> Self::initialized(
                #[trigger] self.adcs[i],
                self.configs[i],
                self.calibrations[i],
            )
    }

    /// Whether the device being initialized has been given its configuration
    /// and calibration, and all devices before it are initialized. In the
    /// broadcasts that end initialization, all devices are.
    pub open spec fn applying(self) -> bool {
        if self.stage is Sync || self.stage is Lock {
            self.applied(self.n() as int)
        } else {
            &&& self.applied(self.device as int)
            &&& self.adcs[self.device as int].config == self.configs[self.device as int]
            &&& self.adcs[self.device as int].calibration == self.calibrations[self.device as int]
        }
    }

    /// Whether fewer than [`RESET_POLLS`] polls have found each device in
    /// reset whose initialization is done.
    pub open spec fn polls_bounded(self) -> bool {
        forall|i: int|
            0 <= i < self.reset_polls.len() ==> (#[trigger] self.reset_polls[i]) < RESET_POLLS
    }

    /// Whether what the operation that is going on has gathered fits the
    /// devices.
    pub open spec fn data_fits(self) -> bool {
        match self.operation {
            Operation::Init => {
                &&& self.configs.len() == self.n()
                &&& self.calibrations.len() == self.n()
                &&& self.emi_ctrls.len() == self.n()
                &&& self.polls <= RESET_POLLS
                &&& !(self.stage is ResetPause) ==> self.polls < RESET_POLLS
                &&& self.polls_bounded()
                &&& self.stage is ResetPause ==> self.polls >= 1
                &&& self.stage is Tempos ==> self.adcs[self.device as int].spec_needs_tempos()
                &&& self.stage is Sync ==> self.n() > 1
                &&& self.applying()
            },
            Operation::AdjustSync => {
                &&& self.drift.len() == self.n()
                &&& self.reference == spec_reference(self.adcs)
                &&& self.reference < self.n()
                &&& self.drift[self.reference as int] == 0
                &&& self.stage is Reference ==> self.device == self.reference
                &&& self.stage is Compare || self.stage is Counter0 || self.stage is Counter1
                    ==> self.device != self.reference
                &&& self.preloads.len() == self.n()
                &&& forall|i: int|
                    0 <= i < self.n() ==> ((#[trigger] self.preloads[i]) is None <==> -1
                        <= self.drift[i] <= 1)
                &&& self.stage is Counter0 || self.stage is Counter1 ==> self.preloads[self.device as int]
                    == Some(self.preload)
            },
            Operation::GetRawMeasurement => self.raw.len() == self.device,
            _ => true,
        }
    }

    /// Whether each device sits behind the chip-select line with its index.
    pub open spec fn lined_up(self) -> bool {
        &&& self.adcs.len() <= usize::MAX
        &&& forall|i: int| 0 <= i < self.adcs.len() ==> (#[trigger] self.adcs[i]).cs == i
    }

    /// The invariant of the driver, but for the trace.
    pub open spec fn shaped(self) -> bool {
        &&& self.lined_up()
        &&& Self::stage_fits(self.operation, self.stage)
        &&& !(self.operation is Idle) ==> {
            &&& self.device < self.n()
            &&& self.broadcast() ==> self.device == 0
            &&& self.phase_fits()
            &&& self.phase is Release || self.phase is Unlisten ==> self.received.len()
                == self.frame().len()
            &&& self.data_fits()
        }
    }

    /// The number of bus operations of the transactions that came before the
    /// one that is going on, in one of [`Self::scripted_operation`].
    pub open spec fn offset(self) -> int {
        let broadcast = 2 * listeners(self.n(), true) as int + 3;
        match self.stage {
            Stage::Configure => broadcast + 3 * self.device,
            Stage::Lock => broadcast + 3 * self.n(),
            Stage::Measure => 3 * self.device,
            _ => 0,
        }
    }

    /// Whether, in one of [`Self::scripted_operation`], the trace is the
    /// part of [`Self::script`] that has been named when `named` operations
    /// of the transaction that is going on have been.
    pub open spec fn scripted(self, named: int) -> bool {
        self.scripted_operation() ==> {
            &&& self.trace.len() == self.offset() + named
            &&& forall|k: int|
                0 <= k < self.trace.len() ==> self.trace[k] == #[trigger] Self::script_op(
                    self.operation,
                    self.adcs,
                    k,
                )
        }
    }

    /// The number of bus operations of the initialization of the current
    /// device that came before the transaction that is going on.
    pub open spec fn init_device_done_len(self) -> int {
        match self.stage {
            Stage::ResetPause => 4 * self.polls - 1,
            Stage::ConfigWrite => 4 * self.polls + 3,
            Stage::ConfigRead => 4 * self.polls + 6,
            Stage::EmiWrite => 4 * self.polls + 9,
            Stage::EmiRead => 4 * self.polls + 12,
            Stage::Tempos => 4 * self.polls + 15,
            _ => 4 * self.polls,
        }
    }

    /// What an initialization has put on the bus when `named` bus operations
    /// of the transaction that is going on have been named.
    pub open spec fn init_so_far(self, named: int) -> Seq<BusOpView> {
        let n = self.n();
        let done = Self::init_devices_script(
            self.chips(),
            self.configs,
            self.calibrations,
            self.emi_ctrls,
            self.reset_polls,
            self.reset_polls.len() as int,
        );
        match self.stage {
            Stage::Sync => done + Seq::new(
                named as nat,
                |k: int| transaction_op(n, 0, true, seq![0x58u8, 0x01u8], k),
            ),
            Stage::Lock => done + (if n > 1 {
                transaction(n, 0, true, seq![0x58u8, 0x01u8])
            } else {
                Seq::empty()
            }) + Seq::new(
                named as nat,
                |k: int| transaction_op(n, 0, true, seq![0x50u8, 0xCAu8], k),
            ),
            _ => done + Self::init_device_script(
                n,
                self.device,
                self.configs[self.device as int],
                self.emi_ctrls[self.device as int],
                self.polls as int,
                self.init_device_done_len() + named,
            ),
        }
    }

    /// Whether the trace is the initialization of the first `count` devices,
    /// and the polls are known of these devices.
    pub open spec fn init_devices_traced(self, count: int) -> bool {
        &&& self.reset_polls.len() == count
        &&& self.trace == Self::init_devices_script(
            self.chips(),
            self.configs,
            self.calibrations,
            self.emi_ctrls,
            self.reset_polls,
            count,
        )
    }

    /// Whether, in an initialization, the trace is what
    /// [`Self::init_so_far`] tells, and the polls are known of the devices
    /// whose initialization is done: those before the current one or, in the
    /// broadcasts that end initialization, all.
    pub open spec fn init_traced(self, named: int) -> bool {
        self.operation is Init ==> {
            &&& self.reset_polls.len() == if self.stage is Sync || self.stage is Lock {
                self.n()
            } else {
                self.device as nat
            }
            &&& self.trace == self.init_so_far(named)
        }
    }

    /// What an adjustment of the synchronization has put on the bus when
    /// `named` bus operations of the transaction that is going on have been
    /// named.
    pub open spec fn adjust_so_far(self, named: int) -> Seq<BusOpView> {
        let n = self.n();
        let head = Self::adjust_head(n, self.reference);
        match self.stage {
            Stage::Unlock => Seq::new(
                named as nat,
                |k: int| transaction_op(n, 0, true, seq![0x50u8, 0x9Cu8], k),
            ),
            Stage::Snap => transaction(n, 0, true, seq![0x50u8, 0x9Cu8]) + Seq::new(
                named as nat,
                |k: int| transaction_op(n, 0, true, seq![0x58u8, 0x02u8], k),
            ),
            Stage::Reference => transaction(n, 0, true, seq![0x50u8, 0x9Cu8]) + transaction(
                n,
                0,
                true,
                seq![0x58u8, 0x02u8],
            ) + Seq::new(
                named as nat,
                |k: int|
                    transaction_op(
                        n,
                        self.reference,
                        false,
                        spec_burst_frame(Register::Iwv, SNAPSHOT_BURST_LEN as nat),
                        k,
                    ),
            ),
            Stage::Lock => head + Self::adjust_devices_script(
                n,
                self.reference,
                self.preloads,
                n as int,
            ) + Seq::new(
                named as nat,
                |k: int| transaction_op(n, 0, true, seq![0x50u8, 0xCAu8], k),
            ),
            _ => head + Self::adjust_devices_script(
                n,
                self.reference,
                self.preloads,
                self.device as int,
            ) + Self::adjust_device_script(
                n,
                self.device,
                self.preloads[self.device as int],
                (match self.stage {
                    Stage::Counter0 => 3int,
                    Stage::Counter1 => 6int,
                    _ => 0int,
                }) + named,
            ),
        }
    }

    /// Whether the trace is what an adjustment of the synchronization has put
    /// on the bus when the devices before `from` have been compared with the
    /// reference device.
    pub open spec fn adjust_devices_traced(self, from: int) -> bool {
        self.trace == Self::adjust_head(self.n(), self.reference) + Self::adjust_devices_script(
            self.n(),
            self.reference,
            self.preloads,
            from,
        )
    }

    /// Whether, in an adjustment of the synchronization, the trace is what
    /// [`Self::adjust_so_far`] tells.
    pub open spec fn adjust_traced(self, named: int) -> bool {
        self.operation is AdjustSync ==> self.trace == self.adjust_so_far(named)
    }

    /// Whether the transaction that is going on holds the chip-select line
    /// `line` low when `named` of its bus operations have been performed: the
    /// line of a listening device from its turn before the transfer to its
    /// turn after it, and the line of the device of the transaction from just
    /// before the transfer to just after it.
    pub open spec fn holds_low(self, named: int, line: usize) -> bool {
        let others = listeners(self.n(), self.broadcast()) as int;
        if self.stage is ResetPause {
            false
        } else if 1 <= line <= others {
            line <= named < others + 3 + line
        } else {
            line == self.device && others + 1 <= named < others + 3
        }
    }

    /// Whether the chip-select lines that are low after the trace are those
    /// that the transaction that is going on holds low when `named` of its
    /// bus operations have been performed.
    pub open spec fn selected(self, named: int) -> bool {
        forall|line: usize| #[trigger] line_low(self.trace, line) == self.holds_low(named, line)
    }

    /// Whether every chip-select line is high after the trace.
    pub open spec fn released(self) -> bool {
        forall|line: usize| !#[trigger] line_low(self.trace, line)
    }

    /// The invariant of the driver: its parts fit together, the trace is what
    /// the operation that is going on puts on the bus up to the bus operation
    /// named last, and the chip-select lines that are low are those that the
    /// transaction that is going on holds low.
    pub open spec fn wf(self) -> bool {
        &&& self.shaped()
        &&& !(self.operation is Idle) ==> self.init_traced(self.position())
        &&& !(self.operation is Idle) ==> self.adjust_traced(self.position())
        &&& !(self.operation is Idle) ==> self.scripted(self.position())
        &&& !(self.operation is Idle) ==> self.selected(self.position())
    }
}

} // verus!
