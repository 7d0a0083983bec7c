//! The bus-level laws: statements that hold of every machine state, proved
//! over the transition functions of `crate::model` that the executable
//! methods promise.

use vstd::prelude::*;
use crate::model::{
    MachineView, read_result, read_post, write_post, receive_post, reset_post, receive_irq,
};

verus! {

/// With the bank register zero, the boot window reads the boot image byte
/// for byte, and writing anywhere in the window changes nothing at all.
pub proof fn lemma_boot_window(m: MachineView, i: u16, v: u8)
    requires
        m.wf(),
        i < m.rom.len(),
        m.bank == 0,
    ensures
        read_result(m, (0xf000 + i) as u16) == m.rom[i as int],
        read_post(m, (0xf000 + i) as u16) == m,
        write_post(m, (0xf000 + i) as u16, v) == m,
{
    assert(0xf000 + i <= 0xffff);
    assert((0xf000 + i) as u16 == 0xf000 + i);
}

/// Address zero reads the bank register while that register is zero; a
/// non-zero value written there takes effect but hides the register, so the
/// same address then reads general memory instead. A reset makes the
/// register visible again, reading back as zero.
pub proof fn lemma_bank_switch(m: MachineView, v: u8)
    requires
        m.wf(),
        m.bank == 0,
        v != 0,
    ensures
        read_result(m, 0x0000) == m.bank,
        write_post(m, 0x0000, v).bank == v,
        read_result(write_post(m, 0x0000, v), 0x0000) == m.ram[0],
        m.ram[0] == 0 ==> read_result(write_post(m, 0x0000, v), 0x0000) == 0,
        reset_post(write_post(m, 0x0000, v)).bank == 0,
        read_result(reset_post(write_post(m, 0x0000, v)), 0x0000) == 0,
        write_post(m, 0x0000, 0).bank == 0,
        read_result(write_post(m, 0x0000, 0), 0x0000) == 0,
{
}

/// Selecting a device and composing an offset from the address registers,
/// writing a byte to the data port and reading the port back returns that
/// byte, and the read leaves the machine unchanged.
pub proof fn lemma_disc_round_trip(m: MachineView, select: u8, addr_low: u8, page: u16, v: u8)
    requires
        m.wf(),
        select == 0 || select == 1,
    ensures
        ({
            let m1 = write_post(m, 0x00f8, select);
            let m2 = write_post(m1, 0x00f9, addr_low);
            let m3 = write_post(m2, 0x00fa, page as u8);
            let m4 = write_post(m3, 0x00fb, (page >> 8) as u8);
            let m5 = write_post(m4, 0x00f7, v);
            &&& read_result(m5, 0x00f7) == v
            &&& read_post(m5, 0x00f7) == m5
        }),
{
    let p0 = m.disc_page;
    assert((((p0 & 0xff00) | page as u8 as u16) & 0x00ff) | ((page >> 8) as u8 as u16) << 8
        == page) by (bit_vector);
}

/// With an invalid device selector the data port reads zero, and writing it
/// changes nothing: neither device's contents are touched.
pub proof fn lemma_disc_invalid_select(m: MachineView, v: u8)
    requires
        m.wf(),
        m.disc_select != 0,
        m.disc_select != 1,
    ensures
        read_result(m, 0x00f7) == 0,
        write_post(m, 0x00f7, v) == m,
{
}

/// With the receiver enabled and the receive latch empty, a delivered byte
/// is read straight back from the data port; and when nothing further was
/// queued, that read clears the data-available flag (status bit 3).
pub proof fn lemma_receive_read_round_trip(m: MachineView, v: u8)
    requires
        m.wf(),
        m.command & 0b0000_0001 != 0,
        m.data_rx == 0,
    ensures
        read_result(receive_post(m, v), 0x00fc) == v,
        m.rx_queue.len() == 0 ==> read_post(receive_post(m, v), 0x00fc).status & 0b0000_1000 == 0,
{
    let s = receive_post(m, v).status;
    assert(((s & 0b1111_0111u8) & 0b0111_1000u8) & 0b0000_1000u8 == 0) by (bit_vector);
}

/// With the receiver enabled and command bit 1 clear, a delivered byte
/// raises the interrupt request and sets status bit 7; the next read of the
/// data port clears that bit again.
pub proof fn lemma_receive_interrupt(m: MachineView, v: u8)
    requires
        m.wf(),
        m.command & 0b0000_0001 != 0,
        m.command & 0b0000_0010 == 0,
    ensures
        receive_irq(m),
        receive_post(m, v).status & 0b1000_0000 != 0,
        read_post(receive_post(m, v), 0x00fc).status & 0b1000_0000 == 0,
{
    let s0 = m.status;
    assert(((s0 | 0b1000_0000u8) | 0b0000_1000u8) & 0b1000_0000u8 != 0) by (bit_vector);
    let s = receive_post(m, v).status;
    assert(((s & 0b1111_0111u8) & 0b0111_1000u8) & 0b1000_0000u8 == 0) by (bit_vector);
    assert((s & 0b0111_1000u8) & 0b1000_0000u8 == 0) by (bit_vector);
}

/// A reset empties the receive queue, zeroes both data ports, the control
/// register and the bank register, restores the command default, and
/// recomputes status from bits 5 and 6 alone with bit 4 forced — while
/// general memory, boot memory, both discs and the disc registers keep
/// exactly their contents.
pub proof fn lemma_reset(m: MachineView)
    requires
        m.wf(),
    ensures
        reset_post(m).rx_queue == Seq::<u8>::empty(),
        reset_post(m).data_tx == 0,
        reset_post(m).data_rx == 0,
        reset_post(m).command == 0b0000_0010,
        reset_post(m).control == 0,
        reset_post(m).status == (m.status & 0b0110_0000) | 0b0001_0000,
        reset_post(m).bank == 0,
        reset_post(m).ram == m.ram,
        reset_post(m).rom == m.rom,
        reset_post(m).disc0 == m.disc0,
        reset_post(m).disc1 == m.disc1,
        reset_post(m).disc_select == m.disc_select,
        reset_post(m).disc_addr == m.disc_addr,
        reset_post(m).disc_page == m.disc_page,
        reset_post(m).out == m.out,
        reset_post(m).wf(),
{
}

} // verus!
