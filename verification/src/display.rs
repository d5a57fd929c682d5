//! The display model: a buffered two-row text frame mirroring the physical
//! panel. Drawing and clearing touch only the in-memory buffer; a flush
//! copies the buffer to the panel rows, never a partial region.

use vstd::prelude::*;
use crate::bus::{DeviceProxy, SharedBus, Txn, WireOp};
use crate::bytes::{append_bytes, copy_bytes};

verus! {

/// Number of text rows the layout provides.
pub const TEXT_ROWS: usize = 2;

/// The frame as it crosses the bus: both rows' bytes, written in one
/// transaction.
pub open spec fn frame_ops(row0: Seq<u8>, row1: Seq<u8>) -> Seq<WireOp> {
    (row0 + row1).map(|i: int, b: u8| WireOp::WriteByte(b))
}

/// The in-memory frame (`row0`, `row1`) and the content last sent to the
/// panel (`shown0`, `shown1`). Nothing reaches the panel before a flush.
pub struct DisplayState {
    row0: Vec<u8>,
    row1: Vec<u8>,
    shown0: Vec<u8>,
    shown1: Vec<u8>,
}

impl DisplayState {
    /// Text buffered for the top row.
    pub closed spec fn row0(self) -> Seq<u8> {
        self.row0@
    }

    /// Text buffered for the bottom row.
    pub closed spec fn row1(self) -> Seq<u8> {
        self.row1@
    }

    /// Top-row text on the physical panel.
    pub closed spec fn shown0(self) -> Seq<u8> {
        self.shown0@
    }

    /// Bottom-row text on the physical panel.
    pub closed spec fn shown1(self) -> Seq<u8> {
        self.shown1@
    }

    /// A blank frame over a blank panel.
    pub fn new() -> (r: DisplayState)
        ensures
            r.row0() == Seq::<u8>::empty(),
            r.row1() == Seq::<u8>::empty(),
            r.shown0() == Seq::<u8>::empty(),
            r.shown1() == Seq::<u8>::empty(),
    {
        DisplayState { row0: Vec::new(), row1: Vec::new(), shown0: Vec::new(), shown1: Vec::new() }
    }

    /// Resets the in-memory buffer; the panel keeps what was last flushed.
    pub fn clear(&mut self)
        ensures
            final(self).row0() == Seq::<u8>::empty(),
            final(self).row1() == Seq::<u8>::empty(),
            final(self).shown0() == old(self).shown0(),
            final(self).shown1() == old(self).shown1(),
    {
        self.row0 = Vec::new();
        self.row1 = Vec::new();
    }

    /// Puts `text` on one buffered row; the other row and the panel keep
    /// their content.
    pub fn draw_line(&mut self, text: &Vec<u8>, row: usize)
        requires
            row < TEXT_ROWS,
        ensures
            row == 0 ==> final(self).row0() == text@ && final(self).row1() == old(self).row1(),
            row == 1 ==> final(self).row1() == text@ && final(self).row0() == old(self).row0(),
            final(self).shown0() == old(self).shown0(),
            final(self).shown1() == old(self).shown1(),
    {
        if row == 0 {
            self.row0 = copy_bytes(text);
        } else {
            self.row1 = copy_bytes(text);
        }
    }

    /// Transmits the whole buffer to the panel: afterwards the panel shows
    /// exactly the buffered frame, with nothing left from the prior frame.
    pub fn flush(&mut self)
        ensures
            final(self).row0() == old(self).row0(),
            final(self).row1() == old(self).row1(),
            final(self).shown0() == old(self).row0(),
            final(self).shown1() == old(self).row1(),
    {
        self.shown0 = copy_bytes(&self.row0);
        self.shown1 = copy_bytes(&self.row1);
    }

    /// Flushes over the device's proxy: the whole buffer crosses the bus as
    /// one transaction — one acquisition, one contiguous span — and the
    /// panel then shows exactly the buffered frame.
    pub fn flush_over(&mut self, proxy: &DeviceProxy, bus: &mut SharedBus)
        requires
            old(bus).inv(),
            old(bus).holder() is None,
        ensures
            final(self).row0() == old(self).row0(),
            final(self).row1() == old(self).row1(),
            final(self).shown0() == old(self).row0(),
            final(self).shown1() == old(self).row1(),
            final(bus).inv(),
            final(bus).holder() is None,
            final(bus).freq() == old(bus).freq(),
            final(bus).txn_model() == old(bus).txn_model().push(
                Txn {
                    device: proxy.addr(),
                    ops: frame_ops(old(self).row0(), old(self).row1()),
                },
            ),
    {
        let mut frame: Vec<u8> = copy_bytes(&self.row0);
        append_bytes(&mut frame, &self.row1);
        proxy.write(bus, &frame);
        self.flush();
    }

    /// Clears the buffer and draws both rows: afterwards the buffer holds
    /// exactly `line0` over `line1`, whatever it held before.
    pub fn render_two_lines(&mut self, line0: &Vec<u8>, line1: &Vec<u8>)
        ensures
            final(self).row0() == line0@,
            final(self).row1() == line1@,
            final(self).shown0() == old(self).shown0(),
            final(self).shown1() == old(self).shown1(),
    {
        self.clear();
        self.draw_line(line0, 0);
        self.draw_line(line1, 1);
    }

    /// The buffered text of one row, for inspection.
    pub fn buffered_line(&self, row: usize) -> (r: &Vec<u8>)
        requires
            row < TEXT_ROWS,
        ensures
            row == 0 ==> r@ == self.row0(),
            row == 1 ==> r@ == self.row1(),
    {
        if row == 0 {
            &self.row0
        } else {
            &self.row1
        }
    }

    /// The text of one row as the panel shows it, for inspection.
    pub fn shown_line(&self, row: usize) -> (r: &Vec<u8>)
        requires
            row < TEXT_ROWS,
        ensures
            row == 0 ==> r@ == self.shown0(),
            row == 1 ==> r@ == self.shown1(),
    {
        if row == 0 {
            &self.shown0
        } else {
            &self.shown1
        }
    }
}

} // verus!
