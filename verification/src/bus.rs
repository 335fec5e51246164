//! What passes between the driver and the hardware.
//!
//! The driver never touches the bus. It names one [`BusOp`] at a time; the
//! caller performs it and reports how it went with a [`Reply`]. Chip-select
//! lines are named by the index of their device.

use crate::{Error, RawMeasurement};
use vstd::prelude::*;

verus! {

/// One operation on the hardware.
#[derive(Debug, PartialEq, Eq)]
pub enum BusOp {
    /// Drive the chip-select line of the device with this index low.
    SelectLow(usize),
    /// Drive the chip-select line of the device with this index high.
    SelectHigh(usize),
    /// Send these bytes in one full-duplex SPI transfer and hand back the
    /// bytes received meanwhile, as many as were sent.
    Transfer(Vec<u8>),
    /// Wait for this many milliseconds.
    DelayMs(u32),
}

/// The mathematical value of a [`BusOp`].
pub enum BusOpView {
    SelectLow(usize),
    SelectHigh(usize),
    Transfer(Seq<u8>),
    DelayMs(u32),
}

impl View for BusOp {
    type V = BusOpView;

    open spec fn view(&self) -> BusOpView {
        match self {
            BusOp::SelectLow(device) => BusOpView::SelectLow(*device),
            BusOp::SelectHigh(device) => BusOpView::SelectHigh(*device),
            BusOp::Transfer(bytes) => BusOpView::Transfer(bytes@),
            BusOp::DelayMs(ms) => BusOpView::DelayMs(*ms),
        }
    }
}

/// How a [`BusOp`] went. `S` is the error of the SPI peripheral and `P` the
/// error of a chip-select pin.
#[derive(Debug, PartialEq, Eq)]
pub enum Reply<S, P> {
    /// The chip-select line was driven.
    PinSet,
    /// The chip-select line could not be driven.
    PinFailed(P),
    /// The transfer was made and these bytes were received.
    Received(Vec<u8>),
    /// The transfer failed.
    SpiFailed(S),
    /// The delay has passed.
    Elapsed,
}

impl<S, P> Reply<S, P> {
    /// Whether the reply is one that the operation `op` can end with.
    pub open spec fn answers(self, op: BusOpView) -> bool {
        match op {
            BusOpView::SelectLow(_) | BusOpView::SelectHigh(_) => self is PinSet
                || self is PinFailed,
            BusOpView::Transfer(sent) => self is SpiFailed || (self matches Reply::Received(bytes)
                && bytes@.len() == sent.len()),
            BusOpView::DelayMs(_) => self is Elapsed,
        }
    }

    /// Whether the reply reports a failure.
    pub open spec fn is_failure(self) -> bool {
        self is PinFailed || self is SpiFailed
    }
}

/// What an operation of the driver hands back when it succeeds.
#[derive(Debug, PartialEq, Eq)]
pub enum Output {
    /// The operation has nothing to hand back.
    Done,
    /// The counter drift of each device against the reference device.
    Drift(Vec<i16>),
    /// The raw measurement of each device.
    Raw(Vec<RawMeasurement>),
}

/// The mathematical value of an [`Output`].
pub enum OutputView {
    Done,
    Drift(Seq<i16>),
    Raw(Seq<RawMeasurement>),
}

impl View for Output {
    type V = OutputView;

    open spec fn view(&self) -> OutputView {
        match self {
            Output::Done => OutputView::Done,
            Output::Drift(drift) => OutputView::Drift(drift@),
            Output::Raw(raw) => OutputView::Raw(raw@),
        }
    }
}

/// What the driver wants next.
#[derive(Debug, PartialEq, Eq)]
pub enum Step<S, P> {
    /// The caller performs the operation and reports with `resume`.
    Perform(BusOp),
    /// The operation of the driver has ended, with this result.
    Ready(Result<Output, Error<S, P>>),
}

/// The mathematical value of a [`Step`].
pub enum StepView<S, P> {
    Perform(BusOpView),
    Ready(Result<OutputView, Error<S, P>>),
}

impl<S, P> View for Step<S, P> {
    type V = StepView<S, P>;

    open spec fn view(&self) -> StepView<S, P> {
        match self {
            Step::Perform(op) => StepView::Perform(op@),
            Step::Ready(Ok(output)) => StepView::Ready(Ok(output@)),
            Step::Ready(Err(e)) => StepView::Ready(Err(*e)),
        }
    }
}

/// The number of devices that listen to a transaction of the first of `n`
/// devices: the others if it is a broadcast, none otherwise.
pub open spec fn listeners(n: nat, broadcast: bool) -> nat {
    if broadcast && n > 1 {
        (n - 1) as nat
    } else {
        0
    }
}

/// The operation at index `k` of one SPI transaction with `device`, one of
/// `n` devices.
///
/// The chip-select line of the device goes low, the frame is transferred, and
/// the line goes high again. In a broadcast, which only device 0 makes, the
/// lines of devices 1 to `n - 1` go low before that, in rising order, and high
/// after it, in the same order, so that they receive what device 0 is sent.
pub open spec fn transaction_op(
    n: nat,
    device: usize,
    broadcast: bool,
    frame: Seq<u8>,
    k: int,
) -> BusOpView {
    let others = listeners(n, broadcast);
    if k < others {
        BusOpView::SelectLow((k + 1) as usize)
    } else if k == others {
        BusOpView::SelectLow(device)
    } else if k == others + 1 {
        BusOpView::Transfer(frame)
    } else if k == others + 2 {
        BusOpView::SelectHigh(device)
    } else {
        BusOpView::SelectHigh((k - others - 2) as usize)
    }
}

/// The bus operations of one SPI transaction with `device`, one of `n`
/// devices, in the order in which they are performed: see
/// [`transaction_op`].
pub open spec fn transaction(n: nat, device: usize, broadcast: bool, frame: Seq<u8>) -> Seq<
    BusOpView,
> {
    Seq::new(
        2 * listeners(n, broadcast) + 3,
        |k: int| transaction_op(n, device, broadcast, frame, k),
    )
}

/// Whether the chip-select line `line` is low when the operations of `trace`
/// have been performed, if it was high before: the last operation on the
/// line has driven it low.
pub open spec fn line_low(trace: Seq<BusOpView>, line: usize) -> bool
    decreases trace.len(),
{
    if trace.len() == 0 {
        false
    } else {
        match trace.last() {
            BusOpView::SelectLow(i) if i == line => true,
            BusOpView::SelectHigh(i) if i == line => false,
            _ => line_low(trace.drop_last(), line),
        }
    }
}

/// Whether the last operations of `trace` are those of `tail`, in order.
pub open spec fn ends_with(trace: Seq<BusOpView>, tail: Seq<BusOpView>) -> bool {
    &&& trace.len() >= tail.len()
    &&& forall|k: int|
        0 <= k < tail.len() ==> trace[trace.len() - tail.len() + k] == #[trigger] tail[k]
}

/// In every transaction the frame is transferred exactly once, while the
/// chip-select line of its device is low: the line goes low just before the
/// transfer and high just after it. Every operation before the transfer
/// drives a line low and every operation after it drives a line high, and
/// each line that goes low before the transfer goes high after it; the
/// listening lines go high only after the line of the device has.
pub proof fn lemma_transaction_selects_around_transfer(
    n: nat,
    device: usize,
    broadcast: bool,
    frame: Seq<u8>,
)
    ensures
        ({
            let t = transaction(n, device, broadcast, frame);
            let others = listeners(n, broadcast) as int;
            &&& t.len() == 2 * others + 3
            &&& t[others] == BusOpView::SelectLow(device)
            &&& t[others + 1] == BusOpView::Transfer(frame)
            &&& t[others + 2] == BusOpView::SelectHigh(device)
            &&& forall|k: int| 0 <= k <= others ==> (#[trigger] t[k]) is SelectLow
            &&& forall|k: int| others + 2 <= k < t.len() ==> (#[trigger] t[k]) is SelectHigh
            &&& forall|k: int|
                0 <= k < others ==> (#[trigger] t[k])->SelectLow_0 == t[others + 3
                    + k]->SelectHigh_0
        }),
{
}

} // verus!
