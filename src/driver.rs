//! The driver facade: resolves commands to packets and each packet to a
//! full bus transaction.

use vstd::prelude::*;

use crate::bus::{sent_bytes, write_ops, AddressBus, BusCtrl, BusOp};
use crate::chip::Packet;
use crate::payload::{DataPayload, PayloadGenerator};

verus! {

/// The bus operations that write `packet`.
pub open spec fn packet_ops(packet: Packet) -> Seq<BusOp> {
    write_ops(packet.address, packet.value)
}

/// The bus operations that write every packet of `payload`, in order.
pub open spec fn payload_ops(payload: DataPayload) -> Seq<BusOp> {
    match payload {
        DataPayload::Single(packet) => packet_ops(packet),
        DataPayload::Double(packets) => packet_ops(packets[0]) + packet_ops(packets[1]),
    }
}

/// Drives the chip. Each command written is turned into bus operations,
/// which wait in order until the caller takes them and performs them on the
/// hardware.
pub struct Driver {
    bus_control: BusCtrl,
    address_bus: AddressBus,
    clock_freq: u32,
    pending: Vec<BusOp>,
}

impl Driver {
    /// The operations written and not yet taken.
    pub closed spec fn pending_ops(&self) -> Seq<BusOp> {
        self.pending@
    }

    /// The chip's master clock frequency in Hz.
    pub closed spec fn clock(&self) -> u32 {
        self.clock_freq
    }

    /// A driver for a chip clocked at `clock_freq` Hz, with nothing pending.
    pub fn new(clock_freq: u32) -> (r: Self)
        requires
            clock_freq > 0,
        ensures
            r.clock() == clock_freq,
            r.pending_ops() == Seq::<BusOp>::empty(),
    {
        Driver {
            bus_control: BusCtrl::new(),
            address_bus: AddressBus::new(),
            clock_freq,
            pending: Vec::new(),
        }
    }

    /// The chip's master clock frequency in Hz.
    pub fn clock_freq(&self) -> (r: u32)
        ensures
            r == self.clock(),
    {
        self.clock_freq
    }

    /// Writes one command: one full register write per packet of its
    /// payload, in the payload's order.
    pub fn write<T: PayloadGenerator>(&mut self, data: T)
        requires
            data.accepted(),
        ensures
            final(self).clock() == old(self).clock(),
            final(self).pending_ops() == old(self).pending_ops() + payload_ops(
                data.payload(old(self).clock()),
            ),
    {
        let payload = data.get(self.clock_freq);
        match payload {
            DataPayload::Single(packet) => {
                self.write_data(packet.address, packet.value);
            },
            DataPayload::Double(packets) => {
                let ghost before = self.pending@;
                self.write_data(packets[0].address, packets[0].value);
                self.write_data(packets[1].address, packets[1].value);
                assert(self.pending@ =~= before + packet_ops(packets[0]) + packet_ops(packets[1]));
            },
        }
    }

    fn write_data(&mut self, addr: u8, val: u8)
        ensures
            final(self).clock() == old(self).clock(),
            final(self).pending_ops() == old(self).pending_ops() + write_ops(addr, val),
    {
        let ghost before = self.pending@;
        self.bus_control.set_inactive(&mut self.pending);
        self.bus_control.latch_address(&mut self.pending);
        self.address_bus.write(addr, &mut self.pending);
        self.bus_control.set_inactive(&mut self.pending);

        self.bus_control.set_inactive(&mut self.pending);
        self.address_bus.write(val, &mut self.pending);
        self.bus_control.write_to_psg(&mut self.pending);
        self.bus_control.set_inactive(&mut self.pending);
        proof {
            crate::bus::lemma_write_ops_unfold(addr, val);
        }
        assert(self.pending@ =~= before + write_ops(addr, val));
    }

    /// Hands out the pending operations, oldest first, and forgets them.
    pub fn take_ops(&mut self) -> (r: Vec<BusOp>)
        ensures
            r@ == old(self).pending_ops(),
            final(self).pending_ops() == Seq::<BusOp>::empty(),
            final(self).clock() == old(self).clock(),
    {
        let mut taken: Vec<BusOp> = Vec::new();
        std::mem::swap(&mut taken, &mut self.pending);
        taken
    }
}

/// A two-packet payload is written as two full register writes, the first
/// packet's before the second's, and the bus carries the first packet's
/// address and value before the second packet's.
pub proof fn lemma_double_payload_order(first: Packet, second: Packet)
    ensures
        payload_ops(DataPayload::Double([first, second])) == packet_ops(first) + packet_ops(
            second,
        ),
        sent_bytes(payload_ops(DataPayload::Double([first, second]))) == seq![
            first.address,
            first.value,
            second.address,
            second.value,
        ],
{
    let ops = payload_ops(DataPayload::Double([first, second]));
    assert([first, second][0] == first);
    assert([first, second][1] == second);
    crate::bus::lemma_write_sends_address_then_value(first.address, first.value);
    crate::bus::lemma_write_sends_address_then_value(second.address, second.value);
    crate::bus::lemma_sent_bytes_concat(packet_ops(first), packet_ops(second));
    assert(seq![first.address, first.value] + seq![second.address, second.value] =~= seq![
        first.address,
        first.value,
        second.address,
        second.value,
    ]);
}

} // verus!
