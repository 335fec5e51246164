//! What holds of every operation of the driver of several devices.
//!
//! Each law speaks of the step in which an operation ends or goes on: of a
//! driver `s` that satisfies its invariant and of a reply to the bus
//! operation that it named last. The trace of the driver holds all the bus
//! operations named since the operation started, so a law about the step in
//! which an operation ends is a law about the whole operation.

use crate::ade791x;
use crate::ade791x::{spec_write_frame, RESET_POLLS};
use crate::bus::{ends_with, line_low, transaction, BusOpView, OutputView, Reply, StepView};
use crate::poly::state::{spec_dr_source_from, spec_reference, Stage, State};
use crate::register::Register;
use crate::Error;
use vstd::prelude::*;

verus! {

/// The reference device is the first device that generates the DREADY signal;
/// if no device does, it is device 0.
pub proof fn lemma_reference_is_first_dr_source(adcs: Seq<ade791x::Ade791x>)
    requires
        adcs.len() >= 1,
    ensures
        0 <= spec_reference(adcs) < adcs.len(),
        forall|i: int| 0 <= i < spec_reference(adcs) ==> !(#[trigger] adcs[i]).spec_is_dr_source(),
        !adcs[spec_reference(adcs)].spec_is_dr_source() ==> spec_reference(adcs) == 0 && forall|
            i: int,
        |
            0 <= i < adcs.len() ==> !(#[trigger] adcs[i]).spec_is_dr_source(),
{
    lemma_dr_source_from(adcs, 0);
}

/// What [`spec_dr_source_from`] finds is the first device at or after `from`
/// that generates the DREADY signal.
proof fn lemma_dr_source_from(adcs: Seq<ade791x::Ade791x>, from: int)
    requires
        0 <= from <= adcs.len(),
    ensures
        from <= spec_dr_source_from(adcs, from) <= adcs.len(),
        forall|i: int|
            from <= i < spec_dr_source_from(adcs, from) ==> !(#[trigger] adcs[i]).spec_is_dr_source(),
        spec_dr_source_from(adcs, from) < adcs.len() ==> adcs[spec_dr_source_from(
            adcs,
            from,
        )].spec_is_dr_source(),
    decreases adcs.len() - from,
{
    if from < adcs.len() && !adcs[from].spec_is_dr_source() {
        lemma_dr_source_from(adcs, from + 1);
    }
}

/// A hardware reset, a software reset, a powerdown, a wakeup or a
/// measurement with at least one device that ends with success has put on
/// the bus exactly its script, whatever the devices answered. So a hardware
/// reset is one broadcast of eight zero bytes, sent while the chip-select
/// lines stay low, and a software reset is the broadcast of the unlock and
/// then, for each device in turn, the write of 0x40 to Config.
pub proof fn lemma_scripted_trace<S, P>(s: State, reply: Reply<S, P>)
    requires
        s.wf(),
        s.scripted_operation(),
        s.pending() is Some,
        reply.answers(s.pending()->Some_0),
        s.next(reply).1 matches StepView::Ready(Ok(_)),
    ensures
        s.next(reply).0.trace == s.script(),
        s.operation is HardReset ==> s.script() == transaction(
            s.n(),
            0,
            true,
            Seq::new(8, |i: int| 0u8),
        ),
{
    assert(s.complete());
    assert(s.next(reply).0.trace == s.trace);
    assert(s.trace.len() == State::script_len(s.operation, s.n()));
    assert(s.trace =~= s.script());
    if s.operation is HardReset {
        assert(s.script() =~= transaction(s.n(), 0, true, Seq::new(8, |i: int| 0u8)));
    }
}

/// An initialization that ends with success has put on the bus exactly its
/// script for the number of polls that have found each device in reset: the
/// initialization of each device in turn, the broadcast of the sync command
/// if there are several devices, and the broadcast of the lock. So the
/// devices are in hardware sync before they are locked. Fewer than
/// [`RESET_POLLS`] polls have found each device in reset.
pub proof fn lemma_init_trace<S, P>(s: State, reply: Reply<S, P>)
    requires
        s.wf(),
        s.operation is Init,
        s.pending() is Some,
        reply.answers(s.pending()->Some_0),
        s.next(reply).1 matches StepView::Ready(Ok(_)),
    ensures
        s.reset_polls.len() == s.n(),
        forall|i: int| 0 <= i < s.n() ==> (#[trigger] s.reset_polls[i]) < RESET_POLLS,
        s.next(reply).0.trace == State::init_script(
            s.chips(),
            s.configs,
            s.calibrations,
            s.emi_ctrls,
            s.reset_polls,
        ),
        s.n() > 1 ==> ends_with(
            s.next(reply).0.trace,
            transaction(s.n(), 0, true, seq![0x58u8, 0x01u8]) + transaction(
                s.n(),
                0,
                true,
                seq![0x50u8, 0xCAu8],
            ),
        ),
{
    let sync = transaction(s.n(), 0, true, seq![0x58u8, 0x01u8]);
    let lock = transaction(s.n(), 0, true, seq![0x50u8, 0xCAu8]);
    let script = State::init_script(
        s.chips(),
        s.configs,
        s.calibrations,
        s.emi_ctrls,
        s.reset_polls,
    );
    assert(s.stage is Lock);
    assert(s.complete());
    assert(s.next(reply).0.trace == s.trace);
    assert(s.trace == s.init_so_far(s.position()));
    assert(s.init_so_far(s.position()) =~= script);
    if s.n() > 1 {
        let tail = sync + lock;
        assert forall|k: int| 0 <= k < tail.len() implies script[script.len() - tail.len() + k]
            == #[trigger] tail[k] by {}
    }
}

/// An initialization that gives up with `ResetTimeout` has put on the bus
/// the initialization of the devices before the one that stayed in reset, and
/// for that device [`RESET_POLLS`] polls of Status0, each followed by a pause
/// of 100 ms, and nothing else: neither that device nor a later one has been
/// written, and nothing has been broadcast.
pub proof fn lemma_reset_timeout_trace<S, P>(s: State, reply: Reply<S, P>)
    requires
        s.wf(),
        s.pending() is Some,
        reply.answers(s.pending()->Some_0),
        s.next(reply).1 == StepView::<S, P>::Ready(Err(Error::ResetTimeout)),
    ensures
        s.operation is Init,
        s.device < s.n(),
        s.reset_polls.len() == s.device,
        s.next(reply).0.trace == State::init_devices_script(
            s.chips(),
            s.configs,
            s.calibrations,
            s.emi_ctrls,
            s.reset_polls,
            s.device as int,
        ) + Seq::new(
            4 * RESET_POLLS as nat,
            |k: int|
                if k % 4 == 3 {
                    BusOpView::DelayMs(100)
                } else {
                    crate::bus::transaction_op(
                        s.n(),
                        s.device,
                        false,
                        seq![0x4Cu8, 0x00u8],
                        k % 4,
                    )
                },
        ),
{
    assert(s.stage is ResetPause);
    assert(s.next(reply).0.trace == s.trace);
    assert(s.trace == s.init_so_far(s.position()));
    let polled = State::init_device_script(
        s.n(),
        s.device,
        s.configs[s.device as int],
        s.emi_ctrls[s.device as int],
        s.polls as int,
        s.init_device_done_len() + s.position(),
    );
    let expected = Seq::new(
        4 * RESET_POLLS as nat,
        |k: int|
            if k % 4 == 3 {
                BusOpView::DelayMs(100)
            } else {
                crate::bus::transaction_op(s.n(), s.device, false, seq![0x4Cu8, 0x00u8], k % 4)
            },
    );
    assert(polled =~= expected);
}

/// An adjustment of the synchronization that ends with success has put on
/// the bus exactly its script for the values that it has written to the
/// counters: the broadcasts of the unlock and of the snap command, the read of
/// the snapshot of the reference device, then for each other device in turn
/// the read of its snapshot and, only if the device has drifted by more than
/// one count either way, the writes of Counter0 and Counter1, and at last
/// the broadcast of the lock.
pub proof fn lemma_adjust_sync_trace<S, P>(s: State, reply: Reply<S, P>)
    requires
        s.wf(),
        s.operation is AdjustSync,
        s.pending() is Some,
        reply.answers(s.pending()->Some_0),
        s.next(reply).1 matches StepView::Ready(Ok(_)),
    ensures
        s.next(reply).1 == StepView::<S, P>::Ready(Ok(OutputView::Drift(s.drift))),
        s.next(reply).0.trace == State::adjust_script(s.n(), s.reference, s.preloads),
        s.reference == spec_reference(s.adcs),
        s.drift.len() == s.n(),
        s.preloads.len() == s.n(),
        forall|i: int|
            0 <= i < s.n() ==> ((#[trigger] s.preloads[i]) is Some <==> !(-1 <= s.drift[i] <= 1)),
{
    assert(s.stage is Lock);
    assert(s.complete());
    assert(s.next(reply).0.trace == s.trace);
    assert(s.adjust_so_far(s.position()) =~= State::adjust_script(
        s.n(),
        s.reference,
        s.preloads,
    ));
}

/// An operation that holds the configuration registers unlocked only while
/// it works leaves them locked: when an initialization, a powerdown, a wakeup
/// or an adjustment of the synchronization ends with success, the last thing
/// on the bus was the broadcast that writes the lock code 0xCA to the Lock
/// register, at address 0x0A.
pub proof fn lemma_success_ends_with_lock<S, P>(s: State, reply: Reply<S, P>)
    requires
        s.wf(),
        s.operation is Init || s.operation is Powerdown || s.operation is Wakeup
            || s.operation is AdjustSync,
        s.pending() is Some,
        reply.answers(s.pending()->Some_0),
        s.next(reply).1 matches StepView::Ready(Ok(_)),
    ensures
        ends_with(s.next(reply).0.trace, transaction(s.n(), 0, true, seq![0x50u8, 0xCAu8])),
        seq![0x50u8, 0xCAu8] == spec_write_frame(Register::Lock, 0xCA),
        Register::Lock.spec_addr() == 0x0A,
{
    let tail = transaction(s.n(), 0, true, seq![0x50u8, 0xCAu8]);
    assert(s.stage is Lock);
    assert(s.complete());
    assert(s.next(reply).0.trace == s.trace);
    assert(tail.len() == s.position());
    if s.operation is Init {
        assert(s.trace == s.init_so_far(s.position()));
    } else if s.operation is AdjustSync {
        assert(s.trace == s.adjust_so_far(s.position()));
    } else {
        assert forall|k: int| 0 <= k < tail.len() implies s.trace[s.trace.len() - tail.len() + k]
            == #[trigger] tail[k] by {
            assert(s.trace[s.offset() + k] == State::script_op(
                s.operation,
                s.adcs,
                s.offset() + k,
            ));
        }
    }
}

/// An operation that ends with success leaves every chip-select line high:
/// each line that it has driven low it has driven high again.
pub proof fn lemma_lines_released<S, P>(s: State, reply: Reply<S, P>)
    requires
        s.wf(),
        s.pending() is Some,
        reply.answers(s.pending()->Some_0),
        s.next(reply).1 matches StepView::Ready(Ok(_)),
    ensures
        s.next(reply).0.released(),
{
    assert(s.complete());
    assert(s.next(reply).0.trace == s.trace);
    assert forall|line: usize| !#[trigger] line_low(s.trace, line) by {
        assert(line_low(s.trace, line) == s.holds_low(s.position(), line));
    }
}

/// A frame is transferred while the right chip-select lines are low: when
/// the driver names a transfer, the line of the device of the transaction is
/// low and all the others are high or, in a broadcast, the lines of all
/// devices are low.
pub proof fn lemma_transfer_reaches<S, P>(s: State, reply: Reply<S, P>)
    requires
        s.wf(),
        s.pending() is Some,
        reply.answers(s.pending()->Some_0),
        s.next(reply).1 matches StepView::Perform(BusOpView::Transfer(_)),
    ensures
        ({
            let after = s.next(reply).0;
            &&& s.next(reply).1 == StepView::<S, P>::Perform(BusOpView::Transfer(after.frame()))
            &&& after.device < after.n()
            &&& forall|line: usize|
                line_low(s.trace, line) == (if after.broadcast() {
                    line < after.n()
                } else {
                    line == after.device
                })
        }),
{
    assert(s.phase is Select);
    assert(!s.complete());
    let after = s.next(reply).0;
    assert forall|line: usize|
        line_low(s.trace, line) == (if after.broadcast() {
            line < after.n()
        } else {
            line == after.device
        }) by {
        assert(line_low(s.trace, line) == s.holds_low(s.position(), line));
    }
}

/// An initialization that ends with success has applied to every device the
/// configuration given for it, and has completed the calibration of its
/// auxiliary channel: what the caller chose is kept, and what was left open
/// has the default that goes with the chip, `temp_en` and `bw`.
pub proof fn lemma_init_applies_configuration<S, P>(s: State, reply: Reply<S, P>)
    requires
        s.wf(),
        s.operation is Init,
        s.pending() is Some,
        reply.answers(s.pending()->Some_0),
        s.next(reply).1 matches StepView::Ready(Ok(_)),
    ensures
        s.next(reply).0.adcs.len() == s.n(),
        forall|i: int|
            0 <= i < s.n() ==> State::initialized(
                #[trigger] s.next(reply).0.adcs[i],
                s.configs[i],
                s.calibrations[i],
            ),
        forall|i: int|
            0 <= i < s.n() ==> {
                let adc = #[trigger] s.next(reply).0.adcs[i];
                &&& adc.calibration.offset != crate::AuxOffset::Unset
                &&& adc.calibration.gain != crate::AuxGain::Unset
            },
{
    assert(s.stage is Lock);
    assert(s.next(reply).0.adcs == s.adcs);
    assert(s.applied(s.n() as int));
}

/// The adjustment of the synchronization hands back a drift for each device,
/// and 0 for the reference device.
pub proof fn lemma_adjust_sync_reference_drift<S, P>(s: State, reply: Reply<S, P>)
    requires
        s.wf(),
        s.operation is AdjustSync,
        s.pending() is Some,
        reply.answers(s.pending()->Some_0),
        s.next(reply).1 matches StepView::Ready(Ok(_)),
    ensures
        s.next(reply).1 matches StepView::Ready(Ok(OutputView::Drift(drift))) && drift.len()
            == s.n() && drift[spec_reference(s.adcs)] == 0,
{
    assert(s.stage is Lock);
}

/// When the snapshot of a device has been read, the adjustment of the
/// synchronization reports its drift against the reference device. If the
/// drift is at most one count either way, neither Counter0 nor Counter1 of
/// the device is written: the driver goes on to a later device or to the
/// lock. If it is more, the driver writes the counter preload to Counter0.
pub proof fn lemma_adjust_sync_within_one_count<S, P>(s: State, reply: Reply<S, P>)
    requires
        s.wf(),
        s.operation is AdjustSync,
        s.stage is Compare,
        s.complete(),
        s.pending() is Some,
        reply.answers(s.pending()->Some_0),
        !reply.is_failure(),
    ensures
        ({
            let c = ade791x::Ade791x::spec_get_cnt_snapshot(s.received);
            let drift = ade791x::spec_drift(c, s.cref);
            let after = s.next(reply).0;
            &&& after.drift[s.device as int] == drift
            &&& after.drift.len() == s.n()
            &&& after.drift[s.reference as int] == 0
            &&& -1 <= drift <= 1 ==> {
                ||| after.stage is Compare && after.device > s.device
                ||| after.stage is Lock
            }
            &&& !(-1 <= drift <= 1) ==> {
                &&& after.stage is Counter0
                &&& after.device == s.device
                &&& after.preload == ade791x::spec_preload(
                    c,
                    s.cref,
                    s.adcs[s.device as int].config.adc_freq.spec_counter_modulus(),
                )
            }
        }),
{
}

/// A measurement that ends with success hands back one raw measurement for
/// each device, in the order of the devices; the last is what the burst read
/// of the last device received.
pub proof fn lemma_measurement_of_each_device<S, P>(s: State, reply: Reply<S, P>)
    requires
        s.wf(),
        s.operation is GetRawMeasurement,
        s.pending() is Some,
        reply.answers(s.pending()->Some_0),
        s.next(reply).1 matches StepView::Ready(Ok(_)),
    ensures
        s.next(reply).1 matches StepView::Ready(Ok(OutputView::Raw(raw))) && raw.len() == s.n()
            && raw == s.raw.push(ade791x::Ade791x::spec_get_raw_measurement(s.received)),
{
}

/// The errors of the driver, each with what brings it. A reply that reports
/// a failure ends the operation with that failure, as `PinError` or
/// `SpiError`. Without one, only initialization fails: with `ResetTimeout`
/// when the last of its polls of Status0 has found the device in reset and
/// the pause after it has passed, and with `RegisterContentMismatch` when
/// Config or EmiCtrl has not read back as it was written. The driver never
/// reads a write-only register, writes a read-only one or starts a burst read
/// where none may start.
pub proof fn lemma_errors<S, P>(s: State, reply: Reply<S, P>)
    requires
        s.wf(),
        s.pending() is Some,
        reply.answers(s.pending()->Some_0),
    ensures
        reply matches Reply::PinFailed(e) ==> s.next(reply).1 == StepView::<S, P>::Ready(
            Err(Error::PinError(e)),
        ),
        reply matches Reply::SpiFailed(e) ==> s.next(reply).1 == StepView::<S, P>::Ready(
            Err(Error::SpiError(e)),
        ),
        s.next(reply).1 matches StepView::Ready(Err(e)) ==> match e {
            Error::PinError(_) => reply is PinFailed,
            Error::SpiError(_) => reply is SpiFailed,
            Error::ResetTimeout => {
                &&& s.operation is Init
                &&& s.stage is ResetPause
                &&& s.polls == RESET_POLLS
                &&& reply is Elapsed
            },
            Error::RegisterContentMismatch => {
                &&& s.operation is Init
                &&& s.complete()
                &&& reply is PinSet
                &&& s.stage is ConfigRead && s.received[1] != s.adcs[s.device as int].config.encode()
                    || s.stage is EmiRead && s.received[1]
                    != s.emi_ctrls[s.device as int].encode()
            },
            _ => false,
        },
        !reply.is_failure() && s.complete() && s.stage is ResetPause && s.polls == RESET_POLLS
            ==> s.next(reply).1 == StepView::<S, P>::Ready(Err(Error::ResetTimeout)),
        !reply.is_failure() && s.complete() && s.stage is ConfigRead && s.received[1]
            != s.adcs[s.device as int].config.encode() ==> s.next(reply).1 == StepView::<
            S,
            P,
        >::Ready(Err(Error::RegisterContentMismatch)),
        !reply.is_failure() && s.complete() && s.stage is EmiRead && s.received[1]
            != s.emi_ctrls[s.device as int].encode() ==> s.next(reply).1 == StepView::<
            S,
            P,
        >::Ready(Err(Error::RegisterContentMismatch)),
{
}

/// Every operation ends. Each reply brings the operation nearer to its end:
/// either fewer transactions can still follow the one that is going on, or as
/// many and fewer of its bus operations are left. So an operation names at
/// most as many bus operations as these two bounds allow at its start.
pub proof fn lemma_progress<S, P>(s: State, reply: Reply<S, P>)
    requires
        s.wf(),
        s.pending() is Some,
        reply.answers(s.pending()->Some_0),
        s.next(reply).1 is Perform,
    ensures
        ({
            let after = s.next(reply).0;
            ||| after.transactions_left() < s.transactions_left()
            ||| after.transactions_left() == s.transactions_left() && after.ops_left()
                < s.ops_left()
        }),
{
    let t = if reply is Received {
        State { received: reply->Received_0@, ..s }
    } else {
        s
    };
    assert(t.transactions_left() == s.transactions_left());
    assert(t.ops_left() == s.ops_left());
    assert(s.next(reply) == if t.complete() {
        t.advance::<S, P>()
    } else {
        t.named::<S, P>(t.next_phase())
    });
    if t.complete() {
        match t.stage {
            Stage::Idle => {},
            Stage::ResetPoll | Stage::ResetPause => lemma_wait_reset_progress::<S, P>(t),
            Stage::ConfigWrite
            | Stage::ConfigRead
            | Stage::EmiWrite
            | Stage::EmiRead
            | Stage::Tempos => lemma_configure_progress::<S, P>(t),
            Stage::Sync | Stage::Lock | Stage::Unlock | Stage::Snap | Stage::HardReset =>
                lemma_broadcast_progress::<S, P>(t),
            Stage::Reference | Stage::Compare | Stage::Counter0 | Stage::Counter1 =>
                lemma_adjust_progress::<S, P>(t),
            Stage::Configure | Stage::Measure => lemma_next_device_progress::<S, P>(t),
        }
    }
}

/// Entering a transaction leaves as many transactions to follow as the
/// transaction entered allows.
proof fn lemma_enter_left<S, P>(s: State, stage: Stage, device: int)
    requires
        0 <= device <= usize::MAX,
        !(s.operation is Idle),
    ensures
        s.enter::<S, P>(stage, device).1 is Perform,
        s.enter::<S, P>(stage, device).0.transactions_left() == (State {
            stage,
            device: device as usize,
            ..s
        }).transactions_left(),
{
}

/// The wait for the end of a reset comes nearer to its end with each of its
/// transactions.
proof fn lemma_wait_reset_progress<S, P>(s: State)
    requires
        s.shaped(),
        !(s.operation is Idle),
        s.stage is ResetPoll || s.stage is ResetPause,
        s.wait_reset::<S, P>().1 is Perform,
    ensures
        s.wait_reset::<S, P>().0.transactions_left() < s.transactions_left(),
{
    let d = s.device as int;
    lemma_enter_left::<S, P>(State { polls: (s.polls + 1) as u8, ..s }, Stage::ResetPause, d);
    lemma_enter_left::<S, P>(s, Stage::ConfigWrite, d);
    lemma_enter_left::<S, P>(s, Stage::ResetPoll, d);
}

/// The end of the initialization of a device brings initialization nearer to
/// its end.
proof fn lemma_init_device_done_progress<S, P>(s: State, tempos: u8)
    requires
        s.shaped(),
        s.operation is Init,
        s.stage is EmiRead || s.stage is Tempos,
    ensures
        s.init_device_done::<S, P>(tempos).0.transactions_left() < s.transactions_left(),
{
    let d = s.device as int;
    let adc = ade791x::Ade791x {
        calibration: s.adcs[d].spec_completed_calibration(tempos),
        ..s.adcs[d]
    };
    let t = State { adcs: s.adcs.update(d, adc), ..s };
    if d + 1 < s.n() {
        let next = ade791x::Ade791x {
            config: t.configs[d + 1],
            calibration: t.calibrations[d + 1],
            ..t.adcs[d + 1]
        };
        lemma_enter_left::<S, P>(
            State { adcs: t.adcs.update(d + 1, next), polls: 0, ..t },
            Stage::ResetPoll,
            d + 1,
        );
    } else {
        lemma_enter_left::<S, P>(t, Stage::Sync, 0);
        lemma_enter_left::<S, P>(t, Stage::Lock, 0);
    }
}

/// The configuration of a device comes nearer to its end with each of its
/// transactions.
proof fn lemma_configure_progress<S, P>(s: State)
    requires
        s.shaped(),
        s.operation is Init,
        s.stage is ConfigWrite || s.stage is ConfigRead || s.stage is EmiWrite
            || s.stage is EmiRead || s.stage is Tempos,
        s.configure::<S, P>().1 is Perform,
    ensures
        s.configure::<S, P>().0.transactions_left() < s.transactions_left(),
{
    let d = s.device as int;
    lemma_enter_left::<S, P>(s, Stage::ConfigRead, d);
    lemma_enter_left::<S, P>(s, Stage::EmiWrite, d);
    lemma_enter_left::<S, P>(s, Stage::EmiRead, d);
    lemma_enter_left::<S, P>(s, Stage::Tempos, d);
    if s.stage is EmiRead || s.stage is Tempos {
        lemma_init_device_done_progress::<S, P>(s, 0);
        lemma_init_device_done_progress::<S, P>(s, s.received[1]);
    }
}

/// The comparison of the devices with the reference comes nearer to its end
/// when it goes on to a later device.
proof fn lemma_compare_from_progress<S, P>(s: State, from: int)
    requires
        s.lined_up(),
        s.operation is AdjustSync,
        0 <= from <= s.n(),
        s.reference < s.n(),
    ensures
        s.compare_from::<S, P>(from).0.transactions_left() <= 3 * (s.n() - from),
{
    let device = if from == s.reference {
        from + 1
    } else {
        from
    };
    lemma_enter_left::<S, P>(s, Stage::Compare, device);
    lemma_enter_left::<S, P>(s, Stage::Lock, 0);
}

/// The adjustment of the synchronization comes nearer to its end with each
/// transaction with a single device.
proof fn lemma_adjust_progress<S, P>(s: State)
    requires
        s.shaped(),
        s.operation is AdjustSync,
        s.stage is Reference || s.stage is Compare || s.stage is Counter0 || s.stage is Counter1,
        s.adjust::<S, P>().1 is Perform,
    ensures
        s.adjust::<S, P>().0.transactions_left() < s.transactions_left(),
{
    let d = s.device as int;
    let c = ade791x::Ade791x::spec_get_cnt_snapshot(s.received);
    let t = State {
        drift: s.drift.update(d, ade791x::spec_drift(c, s.cref) as i16),
        ..s
    };
    lemma_compare_from_progress::<S, P>(State { cref: c, ..s }, 0);
    lemma_compare_from_progress::<S, P>(t, d + 1);
    lemma_compare_from_progress::<S, P>(s, d + 1);
    lemma_enter_left::<S, P>(s, Stage::Counter1, d);
    if s.adcs[d].spec_counter_preload(c, s.cref) is Some {
        let preload = s.adcs[d].spec_counter_preload(c, s.cref)->Some_0;
        lemma_enter_left::<S, P>(State { preload, ..t }, Stage::Counter0, d);
    }
}

/// An operation comes nearer to its end with each broadcast.
proof fn lemma_broadcast_progress<S, P>(s: State)
    requires
        s.shaped(),
        !(s.operation is Idle),
        s.broadcast(),
        s.broadcast_done::<S, P>().1 is Perform,
    ensures
        s.broadcast_done::<S, P>().0.transactions_left() < s.transactions_left(),
{
    lemma_enter_left::<S, P>(s, Stage::Lock, 0);
    lemma_enter_left::<S, P>(s, Stage::Snap, 0);
    lemma_enter_left::<S, P>(s, Stage::Configure, 0);
    lemma_enter_left::<S, P>(s, Stage::Reference, s.reference as int);
}

/// An operation that does the same with every device comes nearer to its end
/// with each device.
proof fn lemma_next_device_progress<S, P>(s: State)
    requires
        s.shaped(),
        !(s.operation is Idle),
        s.stage is Configure || s.stage is Measure,
        s.next_device::<S, P>().1 is Perform,
    ensures
        s.next_device::<S, P>().0.transactions_left() < s.transactions_left(),
{
    let d = s.device as int;
    let t = State {
        raw: s.raw.push(ade791x::Ade791x::spec_get_raw_measurement(s.received)),
        ..s
    };
    lemma_enter_left::<S, P>(t, Stage::Measure, d + 1);
    lemma_enter_left::<S, P>(s, Stage::Configure, d + 1);
    lemma_enter_left::<S, P>(s, Stage::Lock, 0);
}

} // verus!
