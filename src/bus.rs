//! The bus sequencer: the control-line protocol that writes one byte into
//! one register of the chip.
//!
//! Every step is recorded as a [`BusOp`], one per pin change or byte sent,
//! in the order in which the hardware must perform them.

use vstd::prelude::*;

verus! {

/// An output line of the interface.
#[derive(Clone, Copy, Debug, PartialEq, Eq, Structural)]
pub enum Line {
    /// Bus direction.
    Bdir,
    /// Bus control 1.
    Bc1,
    /// Bus control 2.
    Bc2,
    /// Latch enable of the shift register that holds the bus byte.
    Latch,
}

/// One step of a bus transaction.
#[derive(Clone, Copy, Debug, PartialEq, Eq, Structural)]
pub enum BusOp {
    /// Drive `line` high (`true`) or low (`false`).
    Drive(Line, bool),
    /// Shift one byte out to the latch and wait until it is sent.
    Send(u8),
}

/// The three states of the chip's bus interface.
#[derive(Clone, Copy, Debug, PartialEq, Eq, Structural)]
pub enum BusState {
    Idle,
    LatchAddress,
    WriteData,
}

/// Levels of the four output lines.
#[derive(Clone, Copy, Debug, PartialEq, Eq, Structural)]
pub struct Levels {
    pub bdir: bool,
    pub bc1: bool,
    pub bc2: bool,
    pub latch: bool,
}

/// The (direction, control 1, control 2) levels that select each state.
pub open spec fn state_levels(state: BusState) -> (bool, bool, bool) {
    match state {
        BusState::Idle => (false, false, true),
        BusState::LatchAddress => (true, true, true),
        BusState::WriteData => (true, false, true),
    }
}

/// The control-line part of `levels`.
pub open spec fn controls(levels: Levels) -> (bool, bool, bool) {
    (levels.bdir, levels.bc1, levels.bc2)
}

/// The levels after performing `op` from `levels`.
pub open spec fn apply_op(levels: Levels, op: BusOp) -> Levels {
    match op {
        BusOp::Drive(Line::Bdir, high) => Levels { bdir: high, ..levels },
        BusOp::Drive(Line::Bc1, high) => Levels { bc1: high, ..levels },
        BusOp::Drive(Line::Bc2, high) => Levels { bc2: high, ..levels },
        BusOp::Drive(Line::Latch, high) => Levels { latch: high, ..levels },
        BusOp::Send(_) => levels,
    }
}

/// The levels after performing `ops` in order from `start`.
pub open spec fn lines_after(ops: Seq<BusOp>, start: Levels) -> Levels
    decreases ops.len(),
{
    if ops.len() == 0 {
        start
    } else {
        apply_op(lines_after(ops.drop_last(), start), ops.last())
    }
}

/// The bytes that `ops` sends, in order.
pub open spec fn sent_bytes(ops: Seq<BusOp>) -> Seq<u8>
    decreases ops.len(),
{
    if ops.len() == 0 {
        Seq::empty()
    } else {
        match ops.last() {
            BusOp::Send(b) => sent_bytes(ops.drop_last()).push(b),
            BusOp::Drive(_, _) => sent_bytes(ops.drop_last()),
        }
    }
}

/// Entering `state`: direction, then control 1, then control 2.
pub open spec fn state_ops(state: BusState) -> Seq<BusOp> {
    seq![
        BusOp::Drive(Line::Bdir, state_levels(state).0),
        BusOp::Drive(Line::Bc1, state_levels(state).1),
        BusOp::Drive(Line::Bc2, state_levels(state).2),
    ]
}

/// Presenting `data` on the bus: latch low, send the byte, latch high.
pub open spec fn transfer_ops(data: u8) -> Seq<BusOp> {
    seq![BusOp::Drive(Line::Latch, false), BusOp::Send(data), BusOp::Drive(Line::Latch, true)]
}

/// The eight steps of one register write.
pub open spec fn write_steps(address: u8, value: u8) -> Seq<Seq<BusOp>> {
    seq![
        state_ops(BusState::Idle),
        state_ops(BusState::LatchAddress),
        transfer_ops(address),
        state_ops(BusState::Idle),
        state_ops(BusState::Idle),
        transfer_ops(value),
        state_ops(BusState::WriteData),
        state_ops(BusState::Idle),
    ]
}

/// The steps of `steps` one after the other.
pub open spec fn flatten(steps: Seq<Seq<BusOp>>) -> Seq<BusOp>
    decreases steps.len(),
{
    if steps.len() == 0 {
        Seq::empty()
    } else {
        flatten(steps.drop_last()) + steps.last()
    }
}

/// All operations of one write of `value` to register `address`.
pub open spec fn write_ops(address: u8, value: u8) -> Seq<BusOp> {
    flatten(write_steps(address, value))
}

/// The bus state in force after each step of a register write.
pub open spec fn step_state(k: int) -> BusState {
    if k == 1 || k == 2 {
        BusState::LatchAddress
    } else if k == 6 {
        BusState::WriteData
    } else {
        BusState::Idle
    }
}

proof fn lemma_lines_after_concat(x: Seq<BusOp>, y: Seq<BusOp>, start: Levels)
    ensures
        lines_after(x + y, start) == lines_after(y, lines_after(x, start)),
    decreases y.len(),
{
    if y.len() == 0 {
        assert(x + y =~= x);
    } else {
        assert((x + y).drop_last() =~= x + y.drop_last());
        assert((x + y).last() == y.last());
        lemma_lines_after_concat(x, y.drop_last(), start);
    }
}

pub proof fn lemma_sent_bytes_concat(x: Seq<BusOp>, y: Seq<BusOp>)
    ensures
        sent_bytes(x + y) == sent_bytes(x) + sent_bytes(y),
    decreases y.len(),
{
    if y.len() == 0 {
        assert(x + y =~= x);
        assert(sent_bytes(x) + sent_bytes(y) =~= sent_bytes(x));
    } else {
        assert((x + y).drop_last() =~= x + y.drop_last());
        assert((x + y).last() == y.last());
        lemma_sent_bytes_concat(x, y.drop_last());
        match y.last() {
            BusOp::Send(b) => {
                assert(sent_bytes(x + y) =~= sent_bytes(x) + sent_bytes(y));
            },
            BusOp::Drive(_, _) => {},
        }
    }
}

proof fn lemma_state_ops(state: BusState, start: Levels)
    ensures
        controls(lines_after(state_ops(state), start)) == state_levels(state),
        lines_after(state_ops(state), start).latch == start.latch,
        sent_bytes(state_ops(state)) == Seq::<u8>::empty(),
{
    let ops = state_ops(state);
    assert(ops.drop_last().drop_last().drop_last() =~= Seq::<BusOp>::empty());
    reveal_with_fuel(lines_after, 4);
    reveal_with_fuel(sent_bytes, 4);
    assert(sent_bytes(ops) =~= Seq::<u8>::empty());
}

proof fn lemma_transfer_ops(data: u8, start: Levels)
    ensures
        controls(lines_after(transfer_ops(data), start)) == controls(start),
        lines_after(transfer_ops(data), start).latch,
        sent_bytes(transfer_ops(data)) == seq![data],
{
    let ops = transfer_ops(data);
    assert(ops.drop_last().drop_last().drop_last() =~= Seq::<BusOp>::empty());
    reveal_with_fuel(lines_after, 4);
    reveal_with_fuel(sent_bytes, 4);
    assert(sent_bytes(ops) =~= seq![data]);
}

proof fn lemma_flatten_take(steps: Seq<Seq<BusOp>>, n: int)
    requires
        0 <= n < steps.len(),
    ensures
        flatten(steps.take(n + 1)) == flatten(steps.take(n)) + steps[n],
{
    assert(steps.take(n + 1).drop_last() =~= steps.take(n));
}

proof fn lemma_levels_upto(address: u8, value: u8, start: Levels, k: int)
    requires
        0 <= k <= 8,
    ensures
        forall|j: int|
            0 <= j < k ==> controls(
                #[trigger] lines_after(flatten(write_steps(address, value).take(j + 1)), start),
            ) == state_levels(step_state(j)),
    decreases k,
{
    let steps = write_steps(address, value);
    if k > 0 {
        let j = k - 1;
        lemma_levels_upto(address, value, start, j);
        lemma_flatten_take(steps, j);
        lemma_lines_after_concat(flatten(steps.take(j)), steps[j], start);
        let prev = lines_after(flatten(steps.take(j)), start);
        if j == 2 || j == 5 {
            assert(controls(lines_after(flatten(steps.take((j - 1) + 1)), start)) == state_levels(
                step_state(j - 1),
            ));
            lemma_transfer_ops(if j == 2 { address } else { value }, prev);
        } else {
            lemma_state_ops(step_state(j), prev);
        }
    }
}

/// Over a full register write, each of the eight steps leaves the control
/// lines at the levels of the state it enters (a byte transfer keeps those
/// of the step before), whatever the lines were at the start.
pub proof fn lemma_write_sequence_levels(address: u8, value: u8, start: Levels)
    ensures
        forall|k: int|
            0 <= k < 8 ==> controls(
                #[trigger] lines_after(flatten(write_steps(address, value).take(k + 1)), start),
            ) == state_levels(step_state(k)),
        write_ops(address, value) == flatten(write_steps(address, value).take(8)),
{
    assert(write_steps(address, value).take(8) =~= write_steps(address, value));
    lemma_levels_upto(address, value, start, 8);
}

/// The bytes sent by the first `k` steps of a register write.
spec fn sent_upto(address: u8, value: u8, k: int) -> Seq<u8> {
    if k <= 2 {
        Seq::empty()
    } else if k <= 5 {
        seq![address]
    } else {
        seq![address, value]
    }
}

proof fn lemma_sent_upto(address: u8, value: u8, k: int)
    requires
        0 <= k <= 8,
    ensures
        sent_bytes(flatten(write_steps(address, value).take(k))) == sent_upto(address, value, k),
    decreases k,
{
    let steps = write_steps(address, value);
    let any = Levels { bdir: false, bc1: false, bc2: false, latch: false };
    if k == 0 {
        assert(steps.take(0) =~= Seq::<Seq<BusOp>>::empty());
    } else {
        let j = k - 1;
        lemma_sent_upto(address, value, j);
        lemma_flatten_take(steps, j);
        lemma_sent_bytes_concat(flatten(steps.take(j)), steps[j]);
        if j == 2 || j == 5 {
            lemma_transfer_ops(if j == 2 { address } else { value }, any);
            assert(sent_upto(address, value, j) + seq![if j == 2 { address } else { value }]
                =~= sent_upto(address, value, k));
        } else {
            lemma_state_ops(step_state(j), any);
            assert(sent_upto(address, value, j) + Seq::<u8>::empty() =~= sent_upto(
                address,
                value,
                k,
            ));
        }
    }
}

/// A register write sends exactly two bytes: the address, then the value.
pub proof fn lemma_write_sends_address_then_value(address: u8, value: u8)
    ensures
        sent_bytes(write_ops(address, value)) == seq![address, value],
{
    assert(write_steps(address, value).take(8) =~= write_steps(address, value));
    lemma_sent_upto(address, value, 8);
}

/// The operations of a register write, step after step.
pub proof fn lemma_write_ops_unfold(address: u8, value: u8)
    ensures
        write_ops(address, value) == state_ops(BusState::Idle) + state_ops(BusState::LatchAddress)
            + transfer_ops(address) + state_ops(BusState::Idle) + state_ops(BusState::Idle)
            + transfer_ops(value) + state_ops(BusState::WriteData) + state_ops(BusState::Idle),
{
    let steps = write_steps(address, value);
    reveal_with_fuel(flatten, 9);
    assert(steps.drop_last().drop_last().drop_last().drop_last().drop_last().drop_last()
        .drop_last().drop_last() =~= Seq::<Seq<BusOp>>::empty());
}

/// The control lines and the latch as the driver last set them.
pub struct BusCtrl {
    state: Option<BusState>,
}

impl BusCtrl {
    pub closed spec fn view(&self) -> Option<BusState> {
        self.state
    }

    /// A controller that has not driven the lines yet.
    pub fn new() -> (r: Self)
        ensures
            r@ == None::<BusState>,
    {
        BusCtrl { state: None }
    }

    /// The state last entered, if any.
    pub fn state(&self) -> (r: Option<BusState>)
        ensures
            r == self@,
    {
        self.state
    }

    fn enter(&mut self, state: BusState, ops: &mut Vec<BusOp>)
        ensures
            final(self)@ == Some(state),
            final(ops)@ == old(ops)@ + state_ops(state),
    {
        let (bdir, bc1, bc2) = match state {
            BusState::Idle => (false, false, true),
            BusState::LatchAddress => (true, true, true),
            BusState::WriteData => (true, false, true),
        };
        ops.push(BusOp::Drive(Line::Bdir, bdir));
        ops.push(BusOp::Drive(Line::Bc1, bc1));
        ops.push(BusOp::Drive(Line::Bc2, bc2));
        self.state = Some(state);
        assert(ops@ =~= old(ops)@ + state_ops(state));
    }

    /// Puts the interface in its idle state.
    pub fn set_inactive(&mut self, ops: &mut Vec<BusOp>)
        ensures
            final(self)@ == Some(BusState::Idle),
            final(ops)@ == old(ops)@ + state_ops(BusState::Idle),
    {
        self.enter(BusState::Idle, ops);
    }

    /// Makes the chip store the byte on the bus in the latched register.
    pub fn write_to_psg(&mut self, ops: &mut Vec<BusOp>)
        ensures
            final(self)@ == Some(BusState::WriteData),
            final(ops)@ == old(ops)@ + state_ops(BusState::WriteData),
    {
        self.enter(BusState::WriteData, ops);
    }

    /// Makes the chip take the byte on the bus as a register address.
    pub fn latch_address(&mut self, ops: &mut Vec<BusOp>)
        ensures
            final(self)@ == Some(BusState::LatchAddress),
            final(ops)@ == old(ops)@ + state_ops(BusState::LatchAddress),
    {
        self.enter(BusState::LatchAddress, ops);
    }
}

/// The shift register and latch that present a byte on the chip's bus.
pub struct AddressBus {
    latched: Option<u8>,
}

impl AddressBus {
    pub closed spec fn view(&self) -> Option<u8> {
        self.latched
    }

    /// A bus on which no byte has been presented yet.
    pub fn new() -> (r: Self)
        ensures
            r@ == None::<u8>,
    {
        AddressBus { latched: None }
    }

    /// The byte last presented on the bus, if any.
    pub fn latched(&self) -> (r: Option<u8>)
        ensures
            r == self@,
    {
        self.latched
    }

    /// Presents `data` on the bus.
    pub fn write(&mut self, data: u8, ops: &mut Vec<BusOp>)
        ensures
            final(self)@ == Some(data),
            final(ops)@ == old(ops)@ + transfer_ops(data),
    {
        ops.push(BusOp::Drive(Line::Latch, false));
        ops.push(BusOp::Send(data));
        ops.push(BusOp::Drive(Line::Latch, true));
        self.latched = Some(data);
        assert(ops@ =~= old(ops)@ + transfer_ops(data));
    }
}

} // verus!
