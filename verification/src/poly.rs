//! Several ADE7912/ADE7913 on one SPI bus, as in a polyphase metering
//! system.
//!
//! An [`Ade791x`] sequences the transactions of its devices. Commands that
//! must reach every device at once (hard reset, sync, snap, lock, unlock) are
//! broadcast: the chip-select lines of devices 1 and up are held low while
//! device 0 is written, so that all of them receive the write.
//!
//! Each operation is started by a method of its own, which names the first
//! [`BusOp`]; [`Ade791x::resume`] takes the reply to the operation named last
//! and names the next one, or ends the operation with its result. What the
//! driver does is defined on [`State`], the mathematical value of the driver,
//! by [`State::next`]; [`laws`] holds what follows for whole operations.

use crate::ade791x;
use crate::ade791x::{MEASUREMENT_BURST_LEN, RESET_POLLS, RESET_POLL_DELAY_MS, SNAPSHOT_BURST_LEN};
use crate::bus::{line_low, BusOp, BusOpView, Output, Reply, Step};
use crate::register::{Config, EmiCtrl, Register, Status0};
use crate::{AuxCalibration, Chip, Error, RawMeasurement};
use vstd::prelude::*;

pub use crate::poly::state::{spec_dr_source_from, spec_reference, Operation, Phase, Stage, State};

pub mod laws;
pub mod state;

verus! {

/// Represents multiple ADE7912/ADE7913 3-Channel, Isolated, Sigma-Delta ADCs
/// with SPI configured in a polyphase metering system.
///
/// `S` is the error of the SPI peripheral and `P` the error of a chip-select
/// pin, as the replies to the driver report them.
///
/// The fields are those of [`State`]. The trace, the polls of the devices
/// initialized and the values written to the counters are kept for the
/// proofs only.
pub struct Ade791x<S, P> {
    errors: core::marker::PhantomData<(S, P)>,
    adcs: Vec<ade791x::Ade791x>,
    operation: Operation,
    stage: Stage,
    phase: Phase,
    device: usize,
    polls: u8,
    reset_polls: Ghost<Seq<u8>>,
    received: Vec<u8>,
    configs: Vec<Config>,
    calibrations: Vec<AuxCalibration>,
    emi_ctrls: Vec<EmiCtrl>,
    reference: usize,
    cref: u16,
    preload: u16,
    drift: Vec<i16>,
    preloads: Ghost<Seq<Option<u16>>>,
    raw: Vec<RawMeasurement>,
    trace: Ghost<Seq<BusOpView>>,
}

impl<S, P> View for Ade791x<S, P> {
    type V = State;

    closed spec fn view(&self) -> State {
        State {
            adcs: self.adcs@,
            operation: self.operation,
            stage: self.stage,
            phase: self.phase,
            device: self.device,
            polls: self.polls,
            reset_polls: self.reset_polls@,
            received: self.received@,
            configs: self.configs@,
            calibrations: self.calibrations@,
            emi_ctrls: self.emi_ctrls@,
            reference: self.reference,
            cref: self.cref,
            preload: self.preload,
            drift: self.drift@,
            preloads: self.preloads@,
            raw: self.raw@,
            trace: self.trace@,
        }
    }
}

impl<S, P> Ade791x<S, P> {
    /// Creates a new [`Ade791x`] instance for the devices `chips`; the device
    /// with index `i` is the one behind chip-select line `i`. The devices
    /// must then be initialized using [`Self::init`].
    pub fn new(chips: Vec<Chip>) -> (adc: Self)
        ensures
            adc@ == State::fresh(chips@),
            adc@.wf(),
    {
        let mut adcs: Vec<ade791x::Ade791x> = Vec::new();
        let mut i: usize = 0;
        while i < chips.len()
            invariant
                i <= chips@.len(),
                adcs@ == State::fresh(chips@).adcs.take(i as int),
            decreases chips@.len() - i,
        {
            adcs.push(ade791x::Ade791x::new(i, chips[i]));
            i += 1;
            assert(adcs@ =~= State::fresh(chips@).adcs.take(i as int));
        }
        assert(adcs@ =~= State::fresh(chips@).adcs);
        Ade791x {
            errors: core::marker::PhantomData,
            adcs,
            operation: Operation::Idle,
            stage: Stage::Idle,
            phase: Phase::Select,
            device: 0,
            polls: 0,
            reset_polls: Ghost(Seq::empty()),
            received: Vec::new(),
            configs: Vec::new(),
            calibrations: Vec::new(),
            emi_ctrls: Vec::new(),
            reference: 0,
            cref: 0,
            preload: 0,
            drift: Vec::new(),
            preloads: Ghost(Seq::empty()),
            raw: Vec::new(),
            trace: Ghost(Seq::empty()),
        }
    }

    /// Returns the number of devices.
    pub fn len(&self) -> (n: usize)
        ensures
            n == self@.n(),
    {
        self.adcs.len()
    }

    /// Returns the device with index `i`, with the configuration and the
    /// calibration applied to it last.
    pub fn adc(&self, i: usize) -> (adc: ade791x::Ade791x)
        requires
            i < self@.n(),
        ensures
            adc == self@.adcs[i as int],
    {
        self.adcs[i]
    }

    /// Returns the transaction that is going on or, when no operation is
    /// going on, the last transaction that was. After an operation that has
    /// failed, this is where it stopped.
    pub fn stage(&self) -> (stage: Stage)
        ensures
            stage == self@.stage,
    {
        self.stage
    }

    /// Returns the index of the device of the transaction that
    /// [`Self::stage`] tells of.
    pub fn device(&self) -> (device: usize)
        ensures
            device == self@.device,
    {
        self.device
    }

    /// Returns `true` if no operation is going on, so that
    /// [`Self::resume`] has nothing to take a reply to.
    pub fn is_idle(&self) -> (idle: bool)
        ensures
            idle == (self@.operation is Idle),
            self@.wf() ==> idle == (self@.pending() is None),
    {
        self.operation == Operation::Idle
    }

    /// Builds the frame of the transaction that is going on.
    fn frame(&self) -> (frame: Vec<u8>)
        requires
            self@.shaped(),
            !(self@.operation is Idle),
            !(self@.stage is ResetPause),
        ensures
            frame@ == self@.frame(),
    {
        let adc = self.adcs[self.device];
        match self.stage {
            Stage::Idle | Stage::ResetPause => Vec::new(),
            Stage::ResetPoll => adc.read_reg::<(), ()>(Register::Status0).unwrap(),
            Stage::ConfigWrite => adc.write_reg::<(), ()>(
                Register::Config,
                u8::from(adc.config),
            ).unwrap(),
            Stage::ConfigRead => adc.read_reg::<(), ()>(Register::Config).unwrap(),
            Stage::EmiWrite => adc.write_reg::<(), ()>(
                Register::EmiCtrl,
                u8::from(self.emi_ctrls[self.device]),
            ).unwrap(),
            Stage::EmiRead => adc.read_reg::<(), ()>(Register::EmiCtrl).unwrap(),
            Stage::Tempos => adc.read_reg::<(), ()>(Register::Tempos).unwrap(),
            Stage::Sync => adc.sync(),
            Stage::Lock => adc.lock(),
            Stage::Unlock => adc.unlock(),
            Stage::Snap => adc.snap(),
            Stage::HardReset => adc.hard_reset(),
            Stage::Configure => match self.operation {
                Operation::SoftReset => adc.soft_reset(),
                Operation::Powerdown => adc.powerdown(),
                _ => adc.wakeup(),
            },
            Stage::Reference | Stage::Compare => adc.burst_read::<(), ()>(
                Register::Iwv,
                SNAPSHOT_BURST_LEN,
            ).unwrap(),
            Stage::Counter0 => adc.write_reg::<(), ()>(
                Register::Counter0,
                (self.preload % 256) as u8,
            ).unwrap(),
            Stage::Counter1 => adc.write_reg::<(), ()>(
                Register::Counter1,
                (self.preload / 256) as u8,
            ).unwrap(),
            Stage::Measure => adc.burst_read::<(), ()>(
                Register::Iwv,
                MEASUREMENT_BURST_LEN,
            ).unwrap(),
        }
    }

    /// Begins `phase` of the transaction that is going on and names its bus
    /// operation.
    fn name(&mut self, phase: Phase) -> (step: Step<S, P>)
        requires
            !(old(self)@.operation is Idle),
            (State { phase, ..old(self)@ }).shaped(),
            (State { phase, ..old(self)@ }).init_traced(
                (State { phase, ..old(self)@ }).position() - 1,
            ),
            (State { phase, ..old(self)@ }).adjust_traced(
                (State { phase, ..old(self)@ }).position() - 1,
            ),
            (State { phase, ..old(self)@ }).scripted(
                (State { phase, ..old(self)@ }).position() - 1,
            ),
            (State { phase, ..old(self)@ }).selected(
                (State { phase, ..old(self)@ }).position() - 1,
            ),
        ensures
            (final(self)@, step@) == old(self)@.named::<S, P>(phase),
            final(self)@.wf(),
            old(self)@.names(final(self)@, step@),
    {
        self.phase = phase;
        let op = match phase {
            Phase::Listen(j) => self.adcs[j].broadcast_listen(),
            Phase::Select => BusOp::SelectLow(self.adcs[self.device].cs),
            Phase::Transfer => BusOp::Transfer(self.frame()),
            Phase::Release => BusOp::SelectHigh(self.adcs[self.device].cs),
            Phase::Unlisten(j) => self.adcs[j].broadcast_end(),
            Phase::Pause => BusOp::DelayMs(RESET_POLL_DELAY_MS),
        };
        let ghost s = self@;
        self.trace = Ghost(self.trace@.push(op@));
        proof {
            assert(op@ == s.pending()->Some_0);
            assert(op@ == s.op_at(s.position() - 1));
            lemma_scripted_push(s, self@, s.position() - 1);
            lemma_selected_push(s, self@, s.position() - 1);
            lemma_init_traced_push(s, self@, s.position() - 1);
            lemma_adjust_traced_push(s, self@, s.position() - 1);
        }
        Step::Perform(op)
    }

    /// Begins the transaction `stage` with `device`.
    fn enter(&mut self, stage: Stage, device: usize) -> (step: Step<S, P>)
        requires
            !(old(self)@.operation is Idle),
            ({
                let s = State { stage, device, ..old(self)@ };
                (State { phase: s.first_phase(), ..s }).shaped()
            }),
            (State { stage, device, ..old(self)@ }).init_traced(0),
            (State { stage, device, ..old(self)@ }).adjust_traced(0),
            (State { stage, device, ..old(self)@ }).scripted(0),
            (State { stage, device, ..old(self)@ }).selected(0),
        ensures
            (final(self)@, step@) == old(self)@.enter::<S, P>(stage, device as int),
            final(self)@.wf(),
            old(self)@.names(final(self)@, step@),
    {
        self.stage = stage;
        self.device = device;
        let phase = if stage == Stage::ResetPause {
            Phase::Pause
        } else if self.broadcasts() && self.adcs.len() > 1 {
            Phase::Listen(1)
        } else {
            Phase::Select
        };
        self.name(phase)
    }

    /// Returns `true` if the transaction that is going on is a broadcast.
    fn broadcasts(&self) -> (b: bool)
        ensures
            b == self@.broadcast(),
    {
        match self.stage {
            Stage::Sync | Stage::Lock | Stage::Unlock | Stage::Snap | Stage::HardReset => true,
            _ => false,
        }
    }

    /// Ends the operation that is going on with success.
    fn succeed(&mut self, output: Output) -> (step: Step<S, P>)
        requires
            old(self)@.lined_up(),
        ensures
            (final(self)@, step@) == old(self)@.ended::<S, P>(Ok(output@)),
            final(self)@.wf(),
            old(self)@.names(final(self)@, step@),
    {
        self.operation = Operation::Idle;
        Step::Ready(Ok(output))
    }

    /// Ends the operation that is going on with an error.
    fn fail(&mut self, error: Error<S, P>) -> (step: Step<S, P>)
        requires
            old(self)@.lined_up(),
        ensures
            (final(self)@, step@) == old(self)@.ended::<S, P>(Err(error)),
            final(self)@.wf(),
            old(self)@.names(final(self)@, step@),
    {
        self.operation = Operation::Idle;
        Step::Ready(Err(error))
    }

    /// Begins the initialization of `device`.
    fn init_device(&mut self, device: usize) -> (step: Step<S, P>)
        requires
            old(self)@.released(),
            old(self)@.operation is Init,
            old(self)@.lined_up(),
            device < old(self)@.n(),
            old(self)@.configs.len() == old(self)@.n(),
            old(self)@.calibrations.len() == old(self)@.n(),
            old(self)@.emi_ctrls.len() == old(self)@.n(),
            old(self)@.applied(device as int),
            old(self)@.init_devices_traced(device as int),
            old(self)@.polls_bounded(),
        ensures
            (final(self)@, step@) == old(self)@.init_device::<S, P>(device as int),
            final(self)@.wf(),
            old(self)@.names(final(self)@, step@),
    {
        let mut adc = self.adcs[device];
        adc.init(self.configs[device], self.calibrations[device]);
        self.adcs[device] = adc;
        self.polls = 0;
        proof {
            assert(self@.trace == old(self)@.trace);
            assert(self@.chips() =~= old(self)@.chips());
            let entered = State { stage: Stage::ResetPoll, device, ..self@ };
            assert(entered.init_so_far(0) =~= self@.trace);
        }
        self.enter(Stage::ResetPoll, device)
    }

    /// Ends the initialization of the current device and goes on to what
    /// follows it.
    fn init_device_done(&mut self, tempos: u8) -> (step: Step<S, P>)
        requires
            old(self)@.released(),
            old(self)@.operation is Init,
            old(self)@.lined_up(),
            old(self)@.device < old(self)@.n(),
            old(self)@.configs.len() == old(self)@.n(),
            old(self)@.calibrations.len() == old(self)@.n(),
            old(self)@.emi_ctrls.len() == old(self)@.n(),
            old(self)@.polls < RESET_POLLS,
            old(self)@.polls_bounded(),
            old(self)@.applied(old(self)@.device as int),
            old(self)@.adcs[old(self)@.device as int].config == old(self)@.configs[old(
                self,
            )@.device as int],
            old(self)@.adcs[old(self)@.device as int].calibration == old(self)@.calibrations[old(
                self,
            )@.device as int],
            old(self)@.reset_polls.len() == old(self)@.device,
            old(self)@.trace == State::init_devices_script(
                old(self)@.chips(),
                old(self)@.configs,
                old(self)@.calibrations,
                old(self)@.emi_ctrls,
                old(self)@.reset_polls,
                old(self)@.device as int,
            ) + State::init_device_script(
                old(self)@.n(),
                old(self)@.device,
                old(self)@.configs[old(self)@.device as int],
                old(self)@.emi_ctrls[old(self)@.device as int],
                old(self)@.polls as int,
                State::init_device_len(
                    old(self)@.polls as int,
                    old(self)@.adcs[old(self)@.device as int].spec_needs_tempos(),
                ),
            ),
        ensures
            (final(self)@, step@) == old(self)@.init_device_done::<S, P>(tempos),
            final(self)@.wf(),
            old(self)@.names(final(self)@, step@),
    {
        let mut adc = self.adcs[self.device];
        adc.complete_calibration(tempos);
        self.adcs[self.device] = adc;
        self.reset_polls = Ghost(self.reset_polls@.push(self.polls));
        let n = self.adcs.len();
        proof {
            let before = old(self)@;
            let d = before.device as int;
            assert(self@.trace == before.trace);
            assert(self@.chips() =~= before.chips());
            lemma_init_devices_script_alike(
                self@.chips(),
                before.chips(),
                self@.configs,
                self@.calibrations,
                self@.emi_ctrls,
                self@.reset_polls,
                before.reset_polls,
                d,
            );
            assert(State::tempos_needed(
                self@.chips()[d],
                self@.configs[d],
                self@.calibrations[d],
            ) == before.adcs[d].spec_needs_tempos());
            assert(self@.init_devices_traced(d + 1));
            let synced = State { stage: Stage::Sync, device: 0, ..self@ };
            assert(synced.init_so_far(0) =~= self@.trace);
            let locked = State { stage: Stage::Lock, device: 0, ..self@ };
            if n == 1 {
                assert(locked.init_so_far(0) =~= self@.trace);
            }
        }
        if self.device + 1 < n {
            self.init_device(self.device + 1)
        } else if n > 1 {
            self.enter(Stage::Sync, 0)
        } else {
            self.enter(Stage::Lock, 0)
        }
    }

    /// Goes on to the first device from `from` on that is to be compared with
    /// the reference device, or to the lock.
    fn compare_from(&mut self, from: usize) -> (step: Step<S, P>)
        requires
            old(self)@.released(),
            old(self)@.operation is AdjustSync,
            old(self)@.lined_up(),
            from <= old(self)@.n(),
            old(self)@.drift.len() == old(self)@.n(),
            old(self)@.reference == spec_reference(old(self)@.adcs),
            old(self)@.reference < old(self)@.n(),
            old(self)@.drift[old(self)@.reference as int] == 0,
            old(self)@.preloads.len() == old(self)@.n(),
            forall|i: int|
                0 <= i < old(self)@.n() ==> ((#[trigger] old(self)@.preloads[i]) is None <==> -1
                    <= old(self)@.drift[i] <= 1),
            old(self)@.adjust_devices_traced(from as int),
        ensures
            (final(self)@, step@) == old(self)@.compare_from::<S, P>(from as int),
            final(self)@.wf(),
            old(self)@.names(final(self)@, step@),
    {
        let n = self.adcs.len();
        let device = if from == self.reference {
            from + 1
        } else {
            from
        };
        proof {
            let compared = State { stage: Stage::Compare, device, ..self@ };
            let locked = State { stage: Stage::Lock, device: 0, ..self@ };
            if device < n {
                assert(compared.adjust_so_far(0) =~= self@.trace);
            } else {
                assert(locked.adjust_so_far(0) =~= self@.trace);
            }
        }
        if device < n {
            self.enter(Stage::Compare, device)
        } else {
            self.enter(Stage::Lock, 0)
        }
    }

    /// Goes on after a transaction of the wait for the end of a reset.
    fn wait_reset(&mut self) -> (step: Step<S, P>)
        requires
            old(self)@.wf(),
            !(old(self)@.operation is Idle),
            old(self)@.stage is ResetPoll || old(self)@.stage is ResetPause,
            old(self)@.complete(),
        ensures
            (final(self)@, step@) == old(self)@.wait_reset::<S, P>(),
            final(self)@.wf(),
            old(self)@.names(final(self)@, step@),
    {
        if self.stage == Stage::ResetPoll {
            if Status0::from(self.received[1]).reset_on {
                self.polls = self.polls + 1;
                proof {
                    lemma_init_traced_poll_again(old(self)@);
                }
                self.enter(Stage::ResetPause, self.device)
            } else {
                self.enter(Stage::ConfigWrite, self.device)
            }
        } else if self.polls >= RESET_POLLS {
            self.fail(Error::ResetTimeout)
        } else {
            self.enter(Stage::ResetPoll, self.device)
        }
    }

    /// Goes on after a transaction that configures the device being
    /// initialized.
    fn configure(&mut self) -> (step: Step<S, P>)
        requires
            old(self)@.wf(),
            !(old(self)@.operation is Idle),
            old(self)@.stage is ConfigWrite || old(self)@.stage is ConfigRead || old(
                self,
            )@.stage is EmiWrite || old(self)@.stage is EmiRead || old(self)@.stage is Tempos,
            old(self)@.complete(),
        ensures
            (final(self)@, step@) == old(self)@.configure::<S, P>(),
            final(self)@.wf(),
            old(self)@.names(final(self)@, step@),
    {
        let adc = self.adcs[self.device];
        match self.stage {
            Stage::ConfigWrite => self.enter(Stage::ConfigRead, self.device),
            Stage::ConfigRead => {
                match adc.write_reg_checked::<S, P>(u8::from(adc.config), &self.received) {
                    Err(e) => self.fail(e),
                    Ok(()) => self.enter(Stage::EmiWrite, self.device),
                }
            },
            Stage::EmiWrite => self.enter(Stage::EmiRead, self.device),
            Stage::EmiRead => {
                let content = u8::from(self.emi_ctrls[self.device]);
                match adc.write_reg_checked::<S, P>(content, &self.received) {
                    Err(e) => self.fail(e),
                    Ok(()) => {
                        if adc.needs_tempos() {
                            self.enter(Stage::Tempos, self.device)
                        } else {
                            self.init_device_done(0)
                        }
                    },
                }
            },
            _ => {
                let tempos = self.received[1];
                self.init_device_done(tempos)
            },
        }
    }

    /// Goes on after a transaction with a single device in the adjustment of
    /// the synchronization.
    fn adjust(&mut self) -> (step: Step<S, P>)
        requires
            old(self)@.wf(),
            !(old(self)@.operation is Idle),
            old(self)@.stage is Reference || old(self)@.stage is Compare || old(
                self,
            )@.stage is Counter0 || old(self)@.stage is Counter1,
            old(self)@.complete(),
        ensures
            (final(self)@, step@) == old(self)@.adjust::<S, P>(),
            final(self)@.wf(),
            old(self)@.names(final(self)@, step@),
    {
        let adc = self.adcs[self.device];
        match self.stage {
            Stage::Reference => {
                self.cref = adc.get_cnt_snapshot(&self.received);
                assert(self@.trace =~= State::adjust_head(self@.n(), self@.reference));
                self.compare_from(0)
            },
            Stage::Compare => {
                let c = adc.get_cnt_snapshot(&self.received);
                let (drift, preload) = adc.adjust_sync(c, self.cref);
                self.drift[self.device] = drift;
                self.preloads = Ghost(self.preloads@.update(self.device as int, preload));
                proof {
                    let before = old(self)@;
                    assert(self@.trace == before.trace);
                    lemma_adjust_devices_script_alike(
                        self@.n(),
                        self@.reference,
                        self@.preloads,
                        before.preloads,
                        before.device as int,
                    );
                }
                match preload {
                    Some(value) => {
                        self.preload = value;
                        proof {
                            let written = State { stage: Stage::Counter0, ..self@ };
                            assert(written.adjust_so_far(0) =~= self@.trace);
                        }
                        self.enter(Stage::Counter0, self.device)
                    },
                    None => {
                        assert(self@.trace =~= State::adjust_head(self@.n(), self@.reference)
                            + State::adjust_devices_script(
                            self@.n(),
                            self@.reference,
                            self@.preloads,
                            self@.device + 1,
                        ));
                        self.compare_from(self.device + 1)
                    },
                }
            },
            Stage::Counter0 => {
                proof {
                    let written = State { stage: Stage::Counter1, ..self@ };
                    assert(written.adjust_so_far(0) =~= self@.trace);
                }
                self.enter(Stage::Counter1, self.device)
            },
            _ => {
                assert(self@.trace =~= State::adjust_head(self@.n(), self@.reference)
                    + State::adjust_devices_script(
                    self@.n(),
                    self@.reference,
                    self@.preloads,
                    self@.device + 1,
                ));
                self.compare_from(self.device + 1)
            },
        }
    }

    /// Goes on after a broadcast.
    fn broadcast_done(&mut self) -> (step: Step<S, P>)
        requires
            old(self)@.wf(),
            !(old(self)@.operation is Idle),
            old(self)@.broadcast(),
            old(self)@.complete(),
        ensures
            (final(self)@, step@) == old(self)@.broadcast_done::<S, P>(),
            final(self)@.wf(),
            old(self)@.names(final(self)@, step@),
    {
        match self.stage {
            Stage::Sync => {
                proof {
                    let locked = State { stage: Stage::Lock, device: 0, ..self@ };
                    assert(locked.chips() =~= self@.chips());
                    assert(locked.init_so_far(0) =~= self@.init_so_far(self@.position()));
                }
                self.enter(Stage::Lock, 0)
            },
            Stage::Lock => {
                if self.operation == Operation::AdjustSync {
                    let drift = self.drift.clone();
                    self.succeed(Output::Drift(drift))
                } else {
                    self.succeed(Output::Done)
                }
            },
            Stage::Unlock => {
                if self.operation == Operation::AdjustSync {
                    proof {
                        let snapped = State { stage: Stage::Snap, device: 0, ..self@ };
                        assert(snapped.adjust_so_far(0) =~= self@.trace);
                    }
                    self.enter(Stage::Snap, 0)
                } else {
                    self.enter(Stage::Configure, 0)
                }
            },
            Stage::Snap => {
                proof {
                    let read = State { stage: Stage::Reference, device: self@.reference, ..self@ };
                    assert(read.adjust_so_far(0) =~= self@.trace);
                }
                self.enter(Stage::Reference, self.reference)
            },
            _ => self.succeed(Output::Done),
        }
    }

    /// Goes on after a transaction that is the same for every device.
    fn next_device(&mut self) -> (step: Step<S, P>)
        requires
            old(self)@.wf(),
            !(old(self)@.operation is Idle),
            old(self)@.stage is Configure || old(self)@.stage is Measure,
            old(self)@.complete(),
        ensures
            (final(self)@, step@) == old(self)@.next_device::<S, P>(),
            final(self)@.wf(),
            old(self)@.names(final(self)@, step@),
    {
        let n = self.adcs.len();
        if self.stage == Stage::Measure {
            let m = self.adcs[self.device].get_raw_measurement(&self.received);
            self.raw.push(m);
            if self.device + 1 < n {
                self.enter(Stage::Measure, self.device + 1)
            } else {
                let raw = self.raw.clone();
                self.succeed(Output::Raw(raw))
            }
        } else if self.device + 1 < n {
            self.enter(Stage::Configure, self.device + 1)
        } else if self.operation == Operation::SoftReset {
            self.succeed(Output::Done)
        } else {
            self.enter(Stage::Lock, 0)
        }
    }

    /// Goes on to what follows the transaction that has been completed.
    fn advance(&mut self) -> (step: Step<S, P>)
        requires
            old(self)@.wf(),
            !(old(self)@.operation is Idle),
            old(self)@.complete(),
        ensures
            (final(self)@, step@) == old(self)@.advance::<S, P>(),
            final(self)@.wf(),
            old(self)@.names(final(self)@, step@),
    {
        match self.stage {
            Stage::Idle => self.succeed(Output::Done),
            Stage::ResetPoll | Stage::ResetPause => self.wait_reset(),
            Stage::ConfigWrite
            | Stage::ConfigRead
            | Stage::EmiWrite
            | Stage::EmiRead
            | Stage::Tempos => self.configure(),
            Stage::Sync | Stage::Lock | Stage::Unlock | Stage::Snap | Stage::HardReset =>
                self.broadcast_done(),
            Stage::Reference | Stage::Compare | Stage::Counter0 | Stage::Counter1 => self.adjust(),
            Stage::Configure | Stage::Measure => self.next_device(),
        }
    }

    /// Returns `true` if the bus operation that the caller is performing is
    /// the last of its transaction.
    fn completes(&self) -> (c: bool)
        requires
            self@.shaped(),
            !(self@.operation is Idle),
        ensures
            c == self@.complete(),
    {
        let n = self.adcs.len();
        match self.phase {
            Phase::Release => !(self.broadcasts() && n > 1),
            Phase::Unlisten(j) => j + 1 >= n,
            Phase::Pause => true,
            _ => false,
        }
    }

    /// Returns the phase that follows the current one.
    fn following(&self) -> (phase: Phase)
        requires
            self@.shaped(),
            !(self@.operation is Idle),
            !self@.complete(),
        ensures
            phase == self@.next_phase(),
    {
        let n = self.adcs.len();
        match self.phase {
            Phase::Listen(j) => if j + 1 < n {
                Phase::Listen(j + 1)
            } else {
                Phase::Select
            },
            Phase::Select => Phase::Transfer,
            Phase::Transfer => Phase::Release,
            Phase::Release => Phase::Unlisten(1),
            Phase::Unlisten(j) => Phase::Unlisten(j + 1),
            Phase::Pause => Phase::Pause,
        }
    }

    /// Takes the reply to the bus operation that the driver named last and
    /// returns what the driver wants next: another bus operation, or nothing
    /// more, because the operation of the driver has ended with the result
    /// given.
    ///
    /// A reply that reports a failure ends the operation with `PinError` or
    /// `SpiError`; the chip-select lines stay as they are then.
    pub fn resume(&mut self, reply: Reply<S, P>) -> (step: Step<S, P>)
        requires
            old(self)@.wf(),
            old(self)@.pending() is Some,
            reply.answers(old(self)@.pending()->Some_0),
        ensures
            final(self)@.wf(),
            (final(self)@, step@) == old(self)@.next(reply),
            old(self)@.names(final(self)@, step@),
    {
        match reply {
            Reply::PinFailed(e) => {
                return self.fail(Error::PinError(e));
            },
            Reply::SpiFailed(e) => {
                return self.fail(Error::SpiError(e));
            },
            Reply::Received(bytes) => {
                self.received = bytes;
            },
            _ => {},
        }
        if self.completes() {
            self.advance()
        } else {
            let phase = self.following();
            proof {
                lemma_scripts_alike(old(self)@, State { phase, ..self@ }, self@.position());
            }
            self.name(phase)
        }
    }

    /// Starts `operation`.
    fn start(&mut self, operation: Operation)
        requires
            old(self)@.wf(),
        ensures
            final(self)@ == old(self)@.started(operation),
    {
        self.operation = operation;
        self.trace = Ghost(Seq::empty());
    }

    /// Initializes the ADCs, applying to each the configuration, calibration
    /// and EMI setting with its index. For each device in turn, the driver
    /// waits for its reset to end, writes Config and EmiCtrl and reads each
    /// back, and completes the calibration of its auxiliary channel. Then it
    /// broadcasts the sync command, if there are several devices, and the
    /// lock. After this operation, the ADCs are ready to use.
    pub fn init(
        &mut self,
        config: Vec<Config>,
        calibration: Vec<AuxCalibration>,
        emi_ctrl: Vec<EmiCtrl>,
    ) -> (step: Step<S, P>)
        requires
            old(self)@.wf(),
            old(self)@.n() >= 1,
            config@.len() == old(self)@.n(),
            calibration@.len() == old(self)@.n(),
            emi_ctrl@.len() == old(self)@.n(),
        ensures
            final(self)@.wf(),
            (final(self)@, step@) == old(self)@.init::<S, P>(config@, calibration@, emi_ctrl@),
            old(self)@.started(Operation::Init).names(final(self)@, step@),
    {
        self.start(Operation::Init);
        self.configs = config;
        self.calibrations = calibration;
        self.emi_ctrls = emi_ctrl;
        self.reset_polls = Ghost(Seq::empty());
        self.init_device(0)
    }

    /// Performs a hardware reset of the ADCs, by a broadcast of the reset
    /// sequence. All the registers return to their default values and the
    /// dc-to-dc converters are shut down. After a hardware reset, the ADCs
    /// need to be initialized again, using [`Self::init`].
    pub fn hard_reset(&mut self) -> (step: Step<S, P>)
        requires
            old(self)@.wf(),
            old(self)@.n() >= 1,
        ensures
            final(self)@.wf(),
            (final(self)@, step@) == old(self)@.hard_reset::<S, P>(),
            old(self)@.started(Operation::HardReset).names(final(self)@, step@),
    {
        self.start(Operation::HardReset);
        self.enter(Stage::HardReset, 0)
    }

    /// Performs a software reset of the ADCs: the unlock is broadcast, then
    /// each device is reset. All the internal registers return to their
    /// default values; the dc-to-dc converters continue to function. After a
    /// software reset, the ADCs need to be initialized again, using
    /// [`Self::init`].
    pub fn soft_reset(&mut self) -> (step: Step<S, P>)
        requires
            old(self)@.wf(),
            old(self)@.n() >= 1,
        ensures
            final(self)@.wf(),
            (final(self)@, step@) == old(self)@.unlock::<S, P>(Operation::SoftReset),
            old(self)@.started(Operation::SoftReset).names(final(self)@, step@),
    {
        self.start(Operation::SoftReset);
        self.enter(Stage::Unlock, 0)
    }

    /// Powers down the ADCs: the unlock is broadcast, each device is told to
    /// turn off its dc-to-dc converter and its modulators, and the lock is
    /// broadcast. The configuration registers keep their values, but the
    /// measurements are undefined until [`Self::wakeup`].
    pub fn powerdown(&mut self) -> (step: Step<S, P>)
        requires
            old(self)@.wf(),
            old(self)@.n() >= 1,
        ensures
            final(self)@.wf(),
            (final(self)@, step@) == old(self)@.unlock::<S, P>(Operation::Powerdown),
            old(self)@.started(Operation::Powerdown).names(final(self)@, step@),
    {
        self.start(Operation::Powerdown);
        self.enter(Stage::Unlock, 0)
    }

    /// Wakes up the ADCs: the unlock is broadcast, each device is written the
    /// configuration applied to it last, and the lock is broadcast.
    pub fn wakeup(&mut self) -> (step: Step<S, P>)
        requires
            old(self)@.wf(),
            old(self)@.n() >= 1,
        ensures
            final(self)@.wf(),
            (final(self)@, step@) == old(self)@.unlock::<S, P>(Operation::Wakeup),
            old(self)@.started(Operation::Wakeup).names(final(self)@, step@),
    {
        self.start(Operation::Wakeup);
        self.enter(Stage::Unlock, 0)
    }

    /// Returns the index of the reference device for synchronization.
    fn reference_index(&self) -> (r: usize)
        requires
            self@.n() >= 1,
        ensures
            r == spec_reference(self@.adcs),
            r < self@.n(),
    {
        let mut i: usize = 0;
        while i < self.adcs.len()
            invariant
                i <= self.adcs@.len(),
                spec_dr_source_from(self.adcs@, 0) == spec_dr_source_from(self.adcs@, i as int),
            decreases self.adcs@.len() - i,
        {
            if self.adcs[i].is_dr_source() {
                return i;
            }
            i += 1;
        }
        0
    }

    /// Adjusts the synchronization of the internal counters of the ADCs. The
    /// unlock and the snap command are broadcast, so that every device
    /// latches its counter at the same moment. The snapshot of the reference
    /// device, the first that generates the DREADY signal or else device 0,
    /// is read; then that of every other device in turn, whose counter is
    /// written if it has drifted by more than one count. At last the lock is
    /// broadcast. The operation hands back the drift of each device, 0 for
    /// the reference device.
    pub fn adjust_sync(&mut self) -> (step: Step<S, P>)
        requires
            old(self)@.wf(),
            old(self)@.n() >= 1,
        ensures
            final(self)@.wf(),
            (final(self)@, step@) == old(self)@.adjust_sync::<S, P>(),
            old(self)@.started(Operation::AdjustSync).names(final(self)@, step@),
    {
        self.start(Operation::AdjustSync);
        self.reference = self.reference_index();
        let mut drift: Vec<i16> = Vec::new();
        let mut i: usize = 0;
        while i < self.adcs.len()
            invariant
                i <= self.adcs@.len(),
                drift@ == Seq::new(i as nat, |i: int| 0i16),
            decreases self.adcs@.len() - i,
        {
            drift.push(0);
            i += 1;
            assert(drift@ =~= Seq::new(i as nat, |i: int| 0i16));
        }
        self.drift = drift;
        self.preloads = Ghost(Seq::new(self.adcs@.len(), |i: int| None));
        proof {
            let unlocked = State { stage: Stage::Unlock, device: 0, ..self@ };
            assert(unlocked.adjust_so_far(0) =~= self@.trace);
        }
        self.enter(Stage::Unlock, 0)
    }

    /// Reads the latest available measurement of each ADC, without
    /// converting it: one burst read for each device in turn. The operation
    /// hands back the measurements in the order of the devices. The CRC of
    /// the samples is not checked.
    pub fn get_raw_measurement(&mut self) -> (step: Step<S, P>)
        requires
            old(self)@.wf(),
        ensures
            final(self)@.wf(),
            (final(self)@, step@) == old(self)@.get_raw_measurement::<S, P>(),
            old(self)@.started(Operation::GetRawMeasurement).names(final(self)@, step@),
    {
        self.start(Operation::GetRawMeasurement);
        self.raw = Vec::new();
        if self.adcs.len() == 0 {
            self.succeed(Output::Raw(Vec::new()))
        } else {
            self.enter(Stage::Measure, 0)
        }
    }
}

/// The initialization of the first devices does not depend on the devices
/// that follow them, nor on what the devices other than their chips are.
proof fn lemma_init_devices_script_alike(
    chips: Seq<Chip>,
    other_chips: Seq<Chip>,
    configs: Seq<Config>,
    calibrations: Seq<AuxCalibration>,
    emi_ctrls: Seq<EmiCtrl>,
    polls: Seq<u8>,
    other_polls: Seq<u8>,
    count: int,
)
    requires
        chips =~= other_chips,
        count <= polls.len(),
        count <= other_polls.len(),
        forall|i: int| 0 <= i < count ==> polls[i] == other_polls[i],
    ensures
        State::init_devices_script(chips, configs, calibrations, emi_ctrls, polls, count)
            == State::init_devices_script(
            other_chips,
            configs,
            calibrations,
            emi_ctrls,
            other_polls,
            count,
        ),
    decreases count,
{
    if count > 0 {
        lemma_init_devices_script_alike(
            chips,
            other_chips,
            configs,
            calibrations,
            emi_ctrls,
            polls,
            other_polls,
            count - 1,
        );
    }
}

/// The comparison of the first devices with the reference device does not
/// depend on what is written to the counters of the devices that follow
/// them.
proof fn lemma_adjust_devices_script_alike(
    n: nat,
    reference: usize,
    preloads: Seq<Option<u16>>,
    other_preloads: Seq<Option<u16>>,
    count: int,
)
    requires
        count <= preloads.len(),
        count <= other_preloads.len(),
        forall|i: int| 0 <= i < count ==> preloads[i] == other_preloads[i],
    ensures
        State::adjust_devices_script(n, reference, preloads, count)
            == State::adjust_devices_script(n, reference, other_preloads, count),
    decreases count,
{
    if count > 0 {
        lemma_adjust_devices_script_alike(n, reference, preloads, other_preloads, count - 1);
    }
}

/// What an initialization or an adjustment of the synchronization has put on
/// the bus does not depend on the phase of the transaction that is going on
/// nor on what it has received.
proof fn lemma_scripts_alike(a: State, b: State, named: int)
    requires
        a.init_traced(named),
        a.adjust_traced(named),
        b == (State { phase: b.phase, received: b.received, ..a }),
    ensures
        b.init_traced(named),
        b.adjust_traced(named),
{
    assert(b.chips() =~= a.chips());
    assert(b.init_so_far(named) =~= a.init_so_far(named));
    assert(b.adjust_so_far(named) =~= a.adjust_so_far(named));
}

/// Naming the next bus operation of the transaction extends what the
/// adjustment of the synchronization has put on the bus.
proof fn lemma_adjust_traced_push(a: State, b: State, named: int)
    requires
        a.shaped(),
        !(a.operation is Idle),
        a.adjust_traced(named),
        named == a.position() - 1,
        0 <= named < a.ops_len(),
        b == (State { trace: a.trace.push(a.op_at(named)), ..a }),
    ensures
        b.adjust_traced(named + 1),
{
    if a.operation is AdjustSync {
        assert(b.adjust_so_far(named + 1) =~= a.adjust_so_far(named).push(a.op_at(named)));
    }
}

/// A poll that has found the device in reset counts as one more of the polls
/// that are followed by a pause.
proof fn lemma_init_traced_poll_again(a: State)
    requires
        a.wf(),
        a.operation is Init,
        a.stage is ResetPoll,
        a.complete(),
    ensures
        (State { stage: Stage::ResetPause, polls: (a.polls + 1) as u8, ..a }).init_traced(0),
{
    let b = State { stage: Stage::ResetPause, polls: (a.polls + 1) as u8, ..a };
    let p = a.polls as int;
    let before = State::init_device_script(
        a.n(),
        a.device,
        a.configs[a.device as int],
        a.emi_ctrls[a.device as int],
        p,
        4 * p + 3,
    );
    let after = State::init_device_script(
        a.n(),
        a.device,
        a.configs[a.device as int],
        a.emi_ctrls[a.device as int],
        p + 1,
        4 * p + 3,
    );
    assert(before =~= after);
    assert(b.chips() =~= a.chips());
    assert(b.init_so_far(0) =~= a.init_so_far(a.position()));
}

/// Naming the next bus operation of the transaction extends what the
/// initialization has put on the bus.
proof fn lemma_init_traced_push(a: State, b: State, named: int)
    requires
        a.shaped(),
        !(a.operation is Idle),
        a.init_traced(named),
        named == a.position() - 1,
        0 <= named < a.ops_len(),
        b == (State { trace: a.trace.push(a.op_at(named)), ..a }),
    ensures
        b.init_traced(named + 1),
{
    if a.operation is Init {
        assert(b.chips() =~= a.chips());
        assert(b.init_so_far(named + 1) =~= a.init_so_far(named).push(a.op_at(named)));
    }
}

/// Naming the next bus operation of the transaction drives the chip-select
/// line that the transaction drives next.
proof fn lemma_selected_push(a: State, b: State, named: int)
    requires
        a.shaped(),
        !(a.operation is Idle),
        a.selected(named),
        0 <= named < a.ops_len(),
        b.trace == a.trace.push(a.op_at(named)),
        b.adcs == a.adcs,
        b.stage == a.stage,
        b.device == a.device,
    ensures
        b.selected(named + 1),
{
    assert(b.trace.drop_last() =~= a.trace);
    assert forall|line: usize| #[trigger]
        line_low(b.trace, line) == b.holds_low(named + 1, line) by {
        assert(line_low(a.trace, line) == a.holds_low(named, line));
    }
}

/// Naming the next bus operation of the transaction extends the part of the
/// script that the trace is.
proof fn lemma_scripted_push(a: State, b: State, named: int)
    requires
        a.shaped(),
        !(a.operation is Idle),
        a.scripted(named),
        0 <= named < a.ops_len(),
        b.trace == a.trace.push(a.op_at(named)),
        b.operation == a.operation,
        b.adcs == a.adcs,
        b.offset() == a.offset(),
    ensures
        b.scripted(named + 1),
{
    if a.scripted_operation() {
        assert(a.op_at(named) == State::script_op(a.operation, a.adcs, a.offset() + named));
    }
}

} // verus!
