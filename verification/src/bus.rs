//! The shared I2C bus: a single physical resource with a mutual-exclusion
//! holder, a registry that configures it exactly once, and per-device proxies
//! whose every transaction holds the bus for its whole duration.
//!
//! The wire is modeled as the sequence of slots the controller drives, each
//! tagged with the device the transaction addressed. Because a transaction
//! appends its slots while holding the bus, the wire trace is a concatenation
//! of per-transaction spans, and no two transactions interleave.

use vstd::prelude::*;
use crate::freq::{highest_freq_in_band, is_highest_in_band, some_candidate_in_band};

verus! {

/// One slot on the wire: either a byte the controller writes to the device,
/// or a slot in which the device answers a read.
#[derive(Clone, Copy, PartialEq, Eq, Structural, Debug)]
pub enum WireOp {
    WriteByte(u8),
    ReadSlot,
}

/// One wire slot together with the address of the device being transacted with.
#[derive(Clone, Copy, PartialEq, Eq, Structural, Debug)]
pub struct WireEvent {
    pub device: u8,
    pub op: WireOp,
}

/// One whole bus transaction: the addressed device and the slots it occupied.
pub struct Txn {
    pub device: u8,
    pub ops: Seq<WireOp>,
}

/// The wire slots a transaction occupies, each tagged with its device.
pub open spec fn events_of(t: Txn) -> Seq<WireEvent> {
    t.ops.map(|i: int, op: WireOp| WireEvent { device: t.device, op })
}

/// The wire trace of a transaction history: the spans laid end to end.
pub open spec fn wire_of(txns: Seq<Txn>) -> Seq<WireEvent>
    decreases txns.len(),
{
    if txns.len() == 0 {
        Seq::empty()
    } else {
        wire_of(txns.drop_last()) + events_of(txns.last())
    }
}

/// The index of the transaction that occupies wire position `i`.
pub open spec fn txn_of_pos(txns: Seq<Txn>, i: int) -> int
    decreases txns.len(),
{
    if txns.len() == 0 {
        0
    } else if i < wire_of(txns.drop_last()).len() {
        txn_of_pos(txns.drop_last(), i)
    } else {
        txns.len() - 1
    }
}

/// Appending a transaction appends exactly its span to the wire.
pub proof fn lemma_wire_of_push(txns: Seq<Txn>, t: Txn)
    ensures
        wire_of(txns.push(t)) == wire_of(txns) + events_of(t),
{
    assert(txns.push(t).drop_last() =~= txns);
    assert(txns.push(t).last() == t);
}

/// Every occupied wire position belongs to some transaction of the history.
pub proof fn lemma_txn_of_pos_in_range(txns: Seq<Txn>, i: int)
    requires
        0 <= i < wire_of(txns).len(),
    ensures
        0 <= txn_of_pos(txns, i) < txns.len(),
    decreases txns.len(),
{
    if txns.len() == 0 {
    } else if i < wire_of(txns.drop_last()).len() {
        lemma_txn_of_pos_in_range(txns.drop_last(), i);
    }
}

/// Later wire positions belong to transactions that started no earlier.
pub proof fn lemma_txn_of_pos_monotone(txns: Seq<Txn>, i: int, j: int)
    requires
        0 <= i <= j < wire_of(txns).len(),
    ensures
        txn_of_pos(txns, i) <= txn_of_pos(txns, j),
    decreases txns.len(),
{
    if txns.len() == 0 {
    } else if j < wire_of(txns.drop_last()).len() {
        lemma_txn_of_pos_monotone(txns.drop_last(), i, j);
    } else if i < wire_of(txns.drop_last()).len() {
        lemma_txn_of_pos_in_range(txns.drop_last(), i);
    }
}

/// A wire position carries the device address of the transaction it belongs to.
pub proof fn lemma_pos_device(txns: Seq<Txn>, i: int)
    requires
        0 <= i < wire_of(txns).len(),
    ensures
        wire_of(txns)[i].device == txns[txn_of_pos(txns, i)].device,
    decreases txns.len(),
{
    if txns.len() == 0 {
    } else if i < wire_of(txns.drop_last()).len() {
        lemma_pos_device(txns.drop_last(), i);
        lemma_txn_of_pos_in_range(txns.drop_last(), i);
    }
}

/// Mutual exclusion at the wire level: between two slots of one transaction
/// no slot of any other transaction occurs, and every slot in the span carries
/// that transaction's device address. Holds of every transaction history the
/// bus can record, since each transaction appends its span whole.
pub proof fn lemma_transactions_never_interleave(txns: Seq<Txn>, i: int, j: int, k: int)
    requires
        0 <= i <= j <= k < wire_of(txns).len(),
        txn_of_pos(txns, i) == txn_of_pos(txns, k),
    ensures
        txn_of_pos(txns, j) == txn_of_pos(txns, i),
        wire_of(txns)[j].device == txns[txn_of_pos(txns, i)].device,
{
    lemma_txn_of_pos_monotone(txns, i, j);
    lemma_txn_of_pos_monotone(txns, j, k);
    lemma_pos_device(txns, j);
}

/// The single physical bus: its configured clock, the mutual-exclusion holder,
/// and the recorded wire trace with its transaction history.
pub struct SharedBus {
    freq_khz: u32,
    holder: Option<u8>,
    wire: Vec<WireEvent>,
    txns: Ghost<Seq<Txn>>,
}

impl SharedBus {
    /// The configured clock frequency in kilohertz.
    pub closed spec fn freq(self) -> u32 {
        self.freq_khz
    }

    /// The device currently holding the bus, if any.
    pub closed spec fn holder(self) -> Option<u8> {
        self.holder
    }

    /// The recorded wire trace.
    pub closed spec fn wire_model(self) -> Seq<WireEvent> {
        self.wire@
    }

    /// The recorded transaction history.
    pub closed spec fn txn_model(self) -> Seq<Txn> {
        self.txns@
    }

    /// The wire trace is exactly the transaction history's spans laid end to
    /// end.
    pub closed spec fn inv(self) -> bool {
        self.wire@ == wire_of(self.txns@)
    }

    pub fn new(freq_khz: u32) -> (r: SharedBus)
        ensures
            r.inv(),
            r.freq() == freq_khz,
            r.holder() is None,
            r.txn_model() == Seq::<Txn>::empty(),
            r.wire_model() == Seq::<WireEvent>::empty(),
    {
        SharedBus {
            freq_khz,
            holder: None,
            wire: Vec::new(),
            txns: Ghost(Seq::empty()),
        }
    }

    /// Acquires the mutual-exclusion guard for `device`.
    fn lock(&mut self, device: u8)
        requires
            old(self).holder() is None,
        ensures
            final(self).holder() == Some(device),
            final(self).freq() == old(self).freq(),
            final(self).wire_model() == old(self).wire_model(),
            final(self).txn_model() == old(self).txn_model(),
    {
        self.holder = Some(device);
    }

    /// Drives one wire slot on behalf of the current holder.
    fn push_op(&mut self, op: WireOp)
        requires
            old(self).holder() is Some,
        ensures
            final(self).holder() == old(self).holder(),
            final(self).freq() == old(self).freq(),
            final(self).txn_model() == old(self).txn_model(),
            final(self).wire_model() == old(self).wire_model().push(
                WireEvent { device: old(self).holder()->Some_0, op },
            ),
    {
        let device = match self.holder {
            Some(d) => d,
            None => 0,
        };
        self.wire.push(WireEvent { device, op });
    }

    /// Releases the mutual-exclusion guard.
    fn unlock(&mut self)
        requires
            old(self).holder() is Some,
        ensures
            final(self).holder() is None,
            final(self).freq() == old(self).freq(),
            final(self).wire_model() == old(self).wire_model(),
            final(self).txn_model() == old(self).txn_model(),
    {
        self.holder = None;
    }

    /// Performs one whole transaction for `device`: acquires the bus, drives
    /// every slot, and releases the bus, so the slots form one contiguous
    /// span of the wire trace.
    pub fn transact(&mut self, device: u8, ops: &Vec<WireOp>)
        requires
            old(self).inv(),
            old(self).holder() is None,
        ensures
            final(self).inv(),
            final(self).holder() is None,
            final(self).freq() == old(self).freq(),
            final(self).txn_model() == old(self).txn_model().push(
                Txn { device, ops: ops@ },
            ),
            final(self).wire_model() == old(self).wire_model() + events_of(
                Txn { device, ops: ops@ },
            ),
    {
        let ghost t = Txn { device, ops: ops@ };
        self.lock(device);
        let mut i: usize = 0;
        while i < ops.len()
            invariant
                0 <= i <= ops.len(),
                self.holder() == Some(device),
                self.freq() == old(self).freq(),
                self.txn_model() == old(self).txn_model(),
                self.wire_model() == old(self).wire_model() + events_of(
                    Txn { device, ops: ops@.take(i as int) },
                ),
            decreases ops.len() - i,
        {
            self.push_op(ops[i]);
            proof {
                let part = Txn { device, ops: ops@.take(i + 1) };
                let prev = Txn { device, ops: ops@.take(i as int) };
                assert(events_of(part) =~= events_of(prev).push(
                    WireEvent { device, op: ops@[i as int] },
                ));
                assert(self.wire_model() =~= old(self).wire_model() + events_of(part));
            }
            i = i + 1;
        }
        self.unlock();
        proof {
            assert(ops@.take(ops@.len() as int) =~= ops@);
            lemma_wire_of_push(old(self).txn_model(), t);
            self.txns@ = self.txns@.push(t);
            assert(self.wire_model() =~= wire_of(self.txn_model()));
        }
    }

    /// The recorded wire trace, for inspection.
    pub fn wire_events(&self) -> (r: &Vec<WireEvent>)
        ensures
            r@ == self.wire_model(),
    {
        &self.wire
    }

    pub fn freq_khz(&self) -> (r: u32)
        ensures
            r == self.freq(),
    {
        self.freq_khz
    }
}

/// A per-device handle: a device address over the shared bus. Every
/// transaction it performs holds the bus from its first slot to its last.
pub struct DeviceProxy {
    device_addr: u8,
}

impl DeviceProxy {
    pub closed spec fn addr(self) -> u8 {
        self.device_addr
    }

    pub fn new(device_addr: u8) -> (r: DeviceProxy)
        ensures
            r.addr() == device_addr,
    {
        DeviceProxy { device_addr }
    }

    /// Writes `bytes` to the device in one bus acquisition.
    pub fn write(&self, bus: &mut SharedBus, bytes: &Vec<u8>)
        requires
            old(bus).inv(),
            old(bus).holder() is None,
        ensures
            final(bus).inv(),
            final(bus).holder() is None,
            final(bus).freq() == old(bus).freq(),
            final(bus).txn_model() == old(bus).txn_model().push(
                Txn { device: self.addr(), ops: bytes@.map(|i: int, b: u8| WireOp::WriteByte(b)) },
            ),
    {
        let mut ops: Vec<WireOp> = Vec::new();
        let mut i: usize = 0;
        while i < bytes.len()
            invariant
                0 <= i <= bytes.len(),
                ops@ == bytes@.take(i as int).map(|k: int, b: u8| WireOp::WriteByte(b)),
            decreases bytes.len() - i,
        {
            ops.push(WireOp::WriteByte(bytes[i]));
            proof {
                assert(bytes@.take(i + 1).map(|k: int, b: u8| WireOp::WriteByte(b)) =~= bytes@
                    .take(i as int)
                    .map(|k: int, b: u8| WireOp::WriteByte(b))
                    .push(WireOp::WriteByte(bytes@[i as int])));
            }
            i = i + 1;
        }
        proof {
            assert(bytes@.take(bytes@.len() as int) =~= bytes@);
        }
        bus.transact(self.device_addr, &ops);
    }

    /// Reads `len` bytes from the device in one bus acquisition. The values
    /// read come from the device itself; the model records the occupied slots.
    pub fn read(&self, bus: &mut SharedBus, len: usize)
        requires
            old(bus).inv(),
            old(bus).holder() is None,
        ensures
            final(bus).inv(),
            final(bus).holder() is None,
            final(bus).freq() == old(bus).freq(),
            final(bus).txn_model() == old(bus).txn_model().push(
                Txn { device: self.addr(), ops: Seq::new(len as nat, |i: int| WireOp::ReadSlot) },
            ),
    {
        let mut ops: Vec<WireOp> = Vec::new();
        let mut i: usize = 0;
        while i < len
            invariant
                0 <= i <= len,
                ops@ == Seq::new(i as nat, |k: int| WireOp::ReadSlot),
            decreases len - i,
        {
            ops.push(WireOp::ReadSlot);
            proof {
                assert(Seq::new((i + 1) as nat, |k: int| WireOp::ReadSlot) =~= Seq::new(
                    i as nat,
                    |k: int| WireOp::ReadSlot,
                ).push(WireOp::ReadSlot));
            }
            i = i + 1;
        }
        bus.transact(self.device_addr, &ops);
    }

    /// Writes `bytes` and then reads `read_len` bytes, all in one bus
    /// acquisition, so the whole exchange is atomic on the wire.
    pub fn write_read(&self, bus: &mut SharedBus, bytes: &Vec<u8>, read_len: usize)
        requires
            old(bus).inv(),
            old(bus).holder() is None,
        ensures
            final(bus).inv(),
            final(bus).holder() is None,
            final(bus).freq() == old(bus).freq(),
            final(bus).txn_model() == old(bus).txn_model().push(
                Txn {
                    device: self.addr(),
                    ops: bytes@.map(|i: int, b: u8| WireOp::WriteByte(b)) + Seq::new(
                        read_len as nat,
                        |i: int| WireOp::ReadSlot,
                    ),
                },
            ),
    {
        let mut ops: Vec<WireOp> = Vec::new();
        let mut i: usize = 0;
        while i < bytes.len()
            invariant
                0 <= i <= bytes.len(),
                ops@ == bytes@.take(i as int).map(|k: int, b: u8| WireOp::WriteByte(b)),
            decreases bytes.len() - i,
        {
            ops.push(WireOp::WriteByte(bytes[i]));
            proof {
                assert(bytes@.take(i + 1).map(|k: int, b: u8| WireOp::WriteByte(b)) =~= bytes@
                    .take(i as int)
                    .map(|k: int, b: u8| WireOp::WriteByte(b))
                    .push(WireOp::WriteByte(bytes@[i as int])));
            }
            i = i + 1;
        }
        proof {
            assert(bytes@.take(bytes@.len() as int) =~= bytes@);
        }
        let mut j: usize = 0;
        while j < read_len
            invariant
                0 <= j <= read_len,
                ops@ == bytes@.map(|k: int, b: u8| WireOp::WriteByte(b)) + Seq::new(
                    j as nat,
                    |k: int| WireOp::ReadSlot,
                ),
            decreases read_len - j,
        {
            ops.push(WireOp::ReadSlot);
            proof {
                assert(bytes@.map(|k: int, b: u8| WireOp::WriteByte(b)) + Seq::new(
                    (j + 1) as nat,
                    |k: int| WireOp::ReadSlot,
                ) =~= (bytes@.map(|k: int, b: u8| WireOp::WriteByte(b)) + Seq::new(
                    j as nat,
                    |k: int| WireOp::ReadSlot,
                )).push(WireOp::ReadSlot));
            }
            j = j + 1;
        }
        bus.transact(self.device_addr, &ops);
    }
}

/// The process-wide home of the one shared bus: empty until `init`, then
/// holding the bus for the rest of the process's life.
pub struct BusRegistry {
    bus: Option<SharedBus>,
}

impl BusRegistry {
    pub closed spec fn is_initialized(self) -> bool {
        self.bus is Some
    }

    /// The stored bus, meaningful once initialized.
    pub closed spec fn bus_value(self) -> SharedBus
        recommends
            self.is_initialized(),
    {
        self.bus->Some_0
    }

    pub closed spec fn inv(self) -> bool {
        self.is_initialized() ==> {
            &&& self.bus_value().inv()
            &&& self.bus_value().holder() is None
        }
    }

    pub fn new() -> (r: BusRegistry)
        ensures
            r.inv(),
            !r.is_initialized(),
    {
        BusRegistry { bus: None }
    }

    /// Configures and stores the bus exactly once, at the highest candidate
    /// frequency within the accepted band. Every call after the first leaves
    /// the registry untouched; a call with no in-band candidate stores
    /// nothing.
    pub fn init(&mut self, candidates: &Vec<u32>)
        requires
            old(self).inv(),
        ensures
            final(self).inv(),
            old(self).is_initialized() ==> *final(self) == *old(self),
            !old(self).is_initialized() ==> (final(self).is_initialized()
                <==> some_candidate_in_band(candidates@)),
            !old(self).is_initialized() && some_candidate_in_band(candidates@) ==> {
                &&& is_highest_in_band(candidates@, final(self).bus_value().freq())
                &&& final(self).bus_value().txn_model() == Seq::<Txn>::empty()
            },
    {
        if self.bus.is_some() {
            return ;
        }
        match highest_freq_in_band(candidates) {
            Some(f) => {
                self.bus = Some(SharedBus::new(f));
            }
            None => {}
        }
    }

    /// Whether `init` has stored the bus.
    pub fn is_init(&self) -> (r: bool)
        ensures
            r == self.is_initialized(),
    {
        self.bus.is_some()
    }

    /// The stored bus. Calling this before `init` is a caller error and is
    /// ruled out by the precondition.
    pub fn get(&mut self) -> (r: &mut SharedBus)
        requires
            old(self).is_initialized(),
        ensures
            *r == old(self).bus_value(),
            final(self).is_initialized(),
            final(self).bus_value() == *final(r),
    {
        match &mut self.bus {
            Some(b) => b,
            None => {
                unreached()
            }
        }
    }
}

} // verus!
