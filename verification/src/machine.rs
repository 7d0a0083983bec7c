//! The executable controller. Every method's contract promises exactly the
//! transition that `crate::model` defines for it.

use std::collections::VecDeque;
use vstd::prelude::*;
use vstd::pervasive::VecAdditionalExecFns;
use vstd::pervasive::cloned;
use crate::model::{
    MachineView, initial, read_result, read_post, write_post, receive_post, reset_post,
    emitted, BOOT_WINDOW, RAM_SIZE, DISC_SIZE,
};

verus! {

/// Why construction can fail: the boot image must fit the boot window.
#[derive(Clone, Copy, Debug, PartialEq, Eq, Structural)]
pub enum BootImageError {
    ImageTooLarge,
}

/// The memory bus and peripheral controller: boot memory, banked RAM, two
/// disc devices and the serial controller, together with everything the
/// serial side has sent to the character sink so far.
pub struct MemoryMap {
    // Serial controller
    uart_data_tx: u8,
    uart_data_rx: u8,
    uart_data_buf: VecDeque<u8>,
    uart_stat: u8,
    uart_cmmd: u8,
    uart_ctrl: u8,

    // Discs
    disc_0: Vec<u8>,
    disc_1: Vec<u8>,
    disc_select: u8,
    disc_addr: u8,
    disc_page: u16,

    // Memory
    bank_0: u8,
    ram: Vec<u8>,
    rom: Vec<u8>,

    // Bytes emitted to the character sink and not yet taken by the host
    out_buf: Vec<u8>,
}

impl View for MemoryMap {
    type V = MachineView;

    closed spec fn view(&self) -> MachineView {
        MachineView {
            data_tx: self.uart_data_tx,
            data_rx: self.uart_data_rx,
            rx_queue: self.uart_data_buf@,
            status: self.uart_stat,
            command: self.uart_cmmd,
            control: self.uart_ctrl,
            disc0: self.disc_0@,
            disc1: self.disc_1@,
            disc_select: self.disc_select,
            disc_addr: self.disc_addr,
            disc_page: self.disc_page,
            bank: self.bank_0,
            ram: self.ram@,
            rom: self.rom@,
            out: self.out_buf@,
        }
    }
}

/// A zero-filled byte vector of the given length.
fn zero_vec(n: usize) -> (v: Vec<u8>)
    ensures
        v@ == Seq::new(n as nat, |i: int| 0u8),
{
    let v = vec![0u8; n];
    proof {
        assert forall|i: int| 0 <= i < n implies v@[i] == 0u8 by {
            assert(cloned(0u8, v@[i]));
        }
        assert(v@ =~= Seq::new(n as nat, |i: int| 0u8));
    }
    v
}

impl MemoryMap {
    /// Builds a controller around a boot image. The image must fit the boot
    /// window; everything else starts at its documented default.
    pub fn new(rom: Vec<u8>) -> (r: Result<MemoryMap, BootImageError>)
        ensures
            r is Ok <==> rom@.len() <= BOOT_WINDOW,
            (r matches Ok(m) ==> m@ == initial(rom@)),
            (r matches Ok(m) ==> m@.wf()),
            (r matches Err(e) ==> e == BootImageError::ImageTooLarge),
    {
        if rom.len() > BOOT_WINDOW {
            return Err(BootImageError::ImageTooLarge);
        }
        let mm = MemoryMap {
            uart_data_tx: 0b0000_0000,
            uart_data_rx: 0b0000_0000,
            uart_data_buf: VecDeque::new(),
            uart_stat: 0b0001_0000,
            uart_cmmd: 0b0000_0010,
            uart_ctrl: 0b0000_0000,

            disc_0: zero_vec(DISC_SIZE),
            disc_1: zero_vec(DISC_SIZE),
            disc_select: 0,
            disc_addr: 0,
            disc_page: 0,

            bank_0: 0,
            ram: zero_vec(RAM_SIZE),
            rom,
            out_buf: Vec::new(),
        };
        proof {
            assert(mm@ =~= initial(mm.rom@));
        }
        Ok(mm)
    }

    /// Resets the serial registers, the receive queue and the bank register
    /// to their defaults. Memories, discs and disc registers are untouched.
    pub fn reset(&mut self)
        ensures
            final(self)@ == reset_post(old(self)@),
            old(self)@.wf() ==> final(self)@.wf(),
    {
        self.uart_data_tx = 0b0000_0000;
        self.uart_data_rx = 0b0000_0000;
        self.uart_data_buf.clear();
        self.uart_stat = (self.uart_stat & 0b0110_0000) | 0b0001_0000;
        self.uart_cmmd = 0b0000_0010;
        self.uart_ctrl = 0b0000_0000;

        self.bank_0 = 0;
        proof {
            assert(self@ =~= reset_post(old(self)@));
        }
    }

    /// Sends one byte to the character sink, translating a newline into
    /// newline plus carriage return.
    fn emit(&mut self, b: u8)
        ensures
            final(self)@ == (MachineView { out: old(self)@.out + emitted(b), ..old(self)@ }),
    {
        self.out_buf.push(b);
        if b == 0x0a {
            self.out_buf.push(0x0d);
        }
        proof {
            assert(self@ =~= (MachineView { out: old(self)@.out + emitted(b), ..old(self)@ }));
        }
    }

    /// The composed 24-bit offset into the selected disc device.
    fn disc_offset_exec(&self) -> (off: usize)
        ensures
            off == self@.disc_offset(),
            off < DISC_SIZE,
    {
        self.disc_addr as usize + self.disc_page as usize * 256
    }

    /// Hands the host everything emitted to the character sink since the
    /// last call, oldest byte first.
    pub fn take_output(&mut self) -> (r: Vec<u8>)
        ensures
            r@ == old(self)@.out,
            final(self)@ == (MachineView { out: Seq::<u8>::empty(), ..old(self)@ }),
    {
        let mut taken: Vec<u8> = Vec::new();
        core::mem::swap(&mut taken, &mut self.out_buf);
        proof {
            assert(self@ =~= (MachineView { out: Seq::<u8>::empty(), ..old(self)@ }));
        }
        taken
    }

    /// One bus read. Returns exactly `read_result` of the current state and
    /// moves to `read_post` of it: only the serial data port mutates.
    pub fn read(&mut self, addr: u16) -> (r: u8)
        requires
            old(self)@.wf(),
        ensures
            final(self)@.wf(),
            r == read_result(old(self)@, addr),
            final(self)@ == read_post(old(self)@, addr),
    {
        if self.bank_0 == 0x00 && 0xf000 <= addr {
            // Boot window: total even beyond the image's length.
            let off = (addr - 0xf000) as usize;
            if off < self.rom.len() {
                self.rom[off]
            } else {
                0
            }
        } else if self.bank_0 == 0x00 && addr == 0x0000 {
            self.bank_0
        } else if addr == 0x00f7 {
            let off = self.disc_offset_exec();
            if self.disc_select == 0 {
                self.disc_0[off]
            } else if self.disc_select == 1 {
                self.disc_1[off]
            } else {
                0
            }
        } else if addr == 0x00f8 {
            self.disc_select
        } else if addr == 0x00f9 {
            self.disc_addr
        } else if addr == 0x00fa {
            self.disc_page as u8
        } else if addr == 0x00fb {
            (self.disc_page >> 8) as u8
        } else if addr == 0x00fc {
            let data = self.uart_data_rx;
            match self.uart_data_buf.pop_front() {
                Some(b) => {
                    self.uart_data_rx = b;
                },
                None => {
                    self.uart_data_rx = 0;
                    self.uart_stat = self.uart_stat & 0b1111_0111;
                },
            }
            self.uart_stat = self.uart_stat & 0b0111_1000;
            proof {
                assert(self@ =~= read_post(old(self)@, addr));
            }
            data
        } else if addr == 0x00fd {
            self.uart_stat
        } else if addr == 0x00fe {
            self.uart_cmmd
        } else if addr == 0x00ff {
            self.uart_ctrl
        } else {
            self.ram[addr as usize]
        }
    }

    /// One bus write: moves to exactly `write_post` of the current state.
    pub fn write(&mut self, addr: u16, data: u8)
        requires
            old(self)@.wf(),
        ensures
            final(self)@.wf(),
            final(self)@ == write_post(old(self)@, addr, data),
    {
        if self.bank_0 == 0x00 && 0xf000 <= addr {
            // Boot window is read-only: the write is dropped.
        } else if self.bank_0 == 0x00 && addr == 0x0000 {
            self.bank_0 = data;
        } else if addr == 0x00f7 {
            let off = self.disc_offset_exec();
            if self.disc_select == 0 {
                self.disc_0.set(off, data);
            } else if self.disc_select == 1 {
                self.disc_1.set(off, data);
            }
        } else if addr == 0x00f8 {
            self.disc_select = data;
        } else if addr == 0x00f9 {
            self.disc_addr = data;
        } else if addr == 0x00fa {
            self.disc_page = (self.disc_page & 0xff00) | data as u16;
        } else if addr == 0x00fb {
            self.disc_page = (self.disc_page & 0x00ff) | ((data as u16) << 8);
        } else if addr == 0x00fc {
            self.uart_data_tx = data;
            if self.uart_cmmd & 0b0000_0001 != 0 && data != 0 {
                self.emit(data);
            } else {
                self.uart_stat = self.uart_stat & 0b1110_1111;
            }
        } else if addr == 0x00fd {
            self.uart_cmmd = 0b0000_0010;
            self.uart_stat = self.uart_stat & 0b1111_1011;
        } else if addr == 0x00fe {
            self.uart_cmmd = data;
            if data & 0b0000_0001 != 0 && self.uart_stat & 0b0001_0000 == 0 {
                let tx = self.uart_data_tx;
                self.emit(tx);
                self.uart_stat = self.uart_stat | 0b0001_0000;
            }
        } else if addr == 0x00ff {
            self.uart_ctrl = data;
        } else {
            self.ram.set(addr as usize, data);
        }
        proof {
            assert(self@ =~= write_post(old(self)@, addr, data));
        }
    }

    /// Input delivery from the external source. With the receiver enabled
    /// the byte latches or queues, is echoed when echo is on, and either
    /// raises an interrupt request on the processor (command bit 1 clear)
    /// or clears the interrupt flag.
    pub fn receive_uart_data(&mut self, cpu: &mut emulator_6502::MOS6502, data: u8)
        requires
            old(self)@.wf(),
        ensures
            final(self)@.wf(),
            final(self)@ == receive_post(old(self)@, data),
    {
        // Check if enabled
        if self.uart_cmmd & 0b0000_0001 == 0 {
            return;
        }

        // Save data
        if self.uart_data_rx == 0 {
            self.uart_data_rx = data;
        } else {
            self.uart_data_buf.push_back(data);
        }

        // Echo if enabled
        if self.uart_cmmd & 0b0001_0000 != 0 {
            self.emit(data);
        }

        // Request interrupt if enabled
        if self.uart_cmmd & 0b0000_0010 == 0 {
            cpu.interrupt_request();
            self.uart_stat = self.uart_stat | 0b1000_0000;
        } else {
            self.uart_stat = self.uart_stat & 0b0111_1111;
        }

        // Set flags
        self.uart_stat = self.uart_stat | 0b0000_1000;
        proof {
            assert(self@ =~= receive_post(old(self)@, data));
        }
    }
}

} // verus!
