//! The mathematical model of the controller: a ghost record of every
//! register, memory and queue, and one transition function per bus
//! operation. The executable methods promise exactly these transitions.

use vstd::prelude::*;

verus! {

/// Size of the boot-memory window at the top of the address space.
pub const BOOT_WINDOW: usize = 4096;

/// Bytes of general-purpose memory (well beyond the 16-bit address space).
pub const RAM_SIZE: usize = 0x10_0000;

/// Capacity of each disc device: exactly what 24 bits of offset can reach.
pub const DISC_SIZE: usize = 0x100_0000;

/// The controller state as every contract sees it.
#[verifier::ext_equal]
pub ghost struct MachineView {
    /// Latched transmit data port.
    pub data_tx: u8,
    /// Latched receive data port.
    pub data_rx: u8,
    /// Pending received bytes, front first.
    pub rx_queue: Seq<u8>,
    /// Serial status register.
    pub status: u8,
    /// Serial command register.
    pub command: u8,
    /// Serial control register (stored only).
    pub control: u8,
    /// Contents of disc device 0.
    pub disc0: Seq<u8>,
    /// Contents of disc device 1.
    pub disc1: Seq<u8>,
    /// Disc device selector.
    pub disc_select: u8,
    /// Low 8 bits of the composed disc offset.
    pub disc_addr: u8,
    /// High 16 bits of the composed disc offset.
    pub disc_page: u16,
    /// Bank register: zero keeps the boot window visible.
    pub bank: u8,
    /// General-purpose memory.
    pub ram: Seq<u8>,
    /// Boot memory, immutable after construction.
    pub rom: Seq<u8>,
    /// Everything sent to the character sink so far, oldest first.
    pub out: Seq<u8>,
}

impl MachineView {
    /// Sizes that construction establishes and every operation preserves.
    pub open spec fn wf(self) -> bool {
        &&& self.ram.len() == RAM_SIZE
        &&& self.disc0.len() == DISC_SIZE
        &&& self.disc1.len() == DISC_SIZE
        &&& self.rom.len() <= BOOT_WINDOW
    }

    /// The 24-bit offset into the selected disc device.
    pub open spec fn disc_offset(self) -> int {
        self.disc_addr as int + self.disc_page as int * 256
    }
}

/// What one emitted byte contributes to the character sink: a newline is
/// followed by a carriage return, any other byte stands alone.
pub open spec fn emitted(b: u8) -> Seq<u8> {
    if b == 0x0a {
        seq![b, 0x0du8]
    } else {
        seq![b]
    }
}

/// The machine state freshly constructed around a boot image.
pub open spec fn initial(rom: Seq<u8>) -> MachineView {
    MachineView {
        data_tx: 0,
        data_rx: 0,
        rx_queue: Seq::empty(),
        status: 0b0001_0000,
        command: 0b0000_0010,
        control: 0,
        disc0: Seq::new(DISC_SIZE as nat, |i: int| 0u8),
        disc1: Seq::new(DISC_SIZE as nat, |i: int| 0u8),
        disc_select: 0,
        disc_addr: 0,
        disc_page: 0,
        bank: 0,
        ram: Seq::new(RAM_SIZE as nat, |i: int| 0u8),
        rom: rom,
        out: Seq::empty(),
    }
}

/// Does the address fall in the boot window while the bank register is zero?
pub open spec fn boot_visible(m: MachineView, addr: u16) -> bool {
    m.bank == 0 && 0xf000 <= addr
}

/// The byte a read returns. Reads are total: a boot-window offset beyond the
/// image, or a data-port read with an invalid selector, returns zero.
pub open spec fn read_result(m: MachineView, addr: u16) -> u8 {
    if boot_visible(m, addr) {
        if addr - 0xf000 < m.rom.len() {
            m.rom[addr - 0xf000]
        } else {
            0
        }
    } else if m.bank == 0 && addr == 0 {
        m.bank
    } else if addr == 0xf7 {
        if m.disc_select == 0 {
            m.disc0[m.disc_offset()]
        } else if m.disc_select == 1 {
            m.disc1[m.disc_offset()]
        } else {
            0
        }
    } else if addr == 0xf8 {
        m.disc_select
    } else if addr == 0xf9 {
        m.disc_addr
    } else if addr == 0xfa {
        m.disc_page as u8
    } else if addr == 0xfb {
        (m.disc_page >> 8) as u8
    } else if addr == 0xfc {
        m.data_rx
    } else if addr == 0xfd {
        m.status
    } else if addr == 0xfe {
        m.command
    } else if addr == 0xff {
        m.control
    } else {
        m.ram[addr as int]
    }
}

/// State after a read of the serial data port: the next queued byte moves
/// into the receive latch (or the latch empties and the data-available flag
/// clears), then status bits 0, 1, 2 and 7 clear unconditionally.
pub open spec fn serial_read_data_post(m: MachineView) -> MachineView {
    let m1 = if m.rx_queue.len() > 0 {
        MachineView { data_rx: m.rx_queue[0], rx_queue: m.rx_queue.subrange(1, m.rx_queue.len() as int), ..m }
    } else {
        MachineView { data_rx: 0, status: m.status & 0b1111_0111, ..m }
    };
    MachineView { status: m1.status & 0b0111_1000, ..m1 }
}

/// State after a read. Only the serial data port mutates on read.
pub open spec fn read_post(m: MachineView, addr: u16) -> MachineView {
    if boot_visible(m, addr) {
        m
    } else if m.bank == 0 && addr == 0 {
        m
    } else if addr == 0xfc {
        serial_read_data_post(m)
    } else {
        m
    }
}

/// State after a write to the disc data port: the byte lands at the composed
/// offset of the selected device; an invalid selector discards it.
pub open spec fn disc_write_post(m: MachineView, data: u8) -> MachineView {
    if m.disc_select == 0 {
        MachineView { disc0: m.disc0.update(m.disc_offset(), data), ..m }
    } else if m.disc_select == 1 {
        MachineView { disc1: m.disc1.update(m.disc_offset(), data), ..m }
    } else {
        m
    }
}

/// State after a write to the serial data port: the byte latches into the
/// transmit port; with the receiver enabled and a non-zero byte it goes
/// straight to the sink, otherwise the transmit-complete flag clears.
pub open spec fn serial_write_data_post(m: MachineView, data: u8) -> MachineView {
    if m.command & 0b0000_0001 != 0 && data != 0 {
        MachineView { data_tx: data, out: m.out + emitted(data), ..m }
    } else {
        MachineView { data_tx: data, status: m.status & 0b1110_1111, ..m }
    }
}

/// State after a write to the status address: a programmed reset of the
/// command subsystem alone.
pub open spec fn serial_prog_reset_post(m: MachineView) -> MachineView {
    MachineView { command: 0b0000_0010, status: m.status & 0b1111_1011, ..m }
}

/// State after a write to the command register: the value is stored; if it
/// enables the transmitter while a transmit byte is pending (status bit 4
/// clear), the latched byte goes to the sink and bit 4 sets.
pub open spec fn serial_write_command_post(m: MachineView, data: u8) -> MachineView {
    if data & 0b0000_0001 != 0 && m.status & 0b0001_0000 == 0 {
        MachineView { command: data, status: m.status | 0b0001_0000, out: m.out + emitted(m.data_tx), ..m }
    } else {
        MachineView { command: data, ..m }
    }
}

/// State after a write. Boot-window writes are no-ops; address zero writes
/// the bank register only while it is zero; the register addresses dispatch
/// to the disc and serial controllers; everything else is general memory.
pub open spec fn write_post(m: MachineView, addr: u16, data: u8) -> MachineView {
    if boot_visible(m, addr) {
        m
    } else if m.bank == 0 && addr == 0 {
        MachineView { bank: data, ..m }
    } else if addr == 0xf7 {
        disc_write_post(m, data)
    } else if addr == 0xf8 {
        MachineView { disc_select: data, ..m }
    } else if addr == 0xf9 {
        MachineView { disc_addr: data, ..m }
    } else if addr == 0xfa {
        MachineView { disc_page: (m.disc_page & 0xff00) | data as u16, ..m }
    } else if addr == 0xfb {
        MachineView { disc_page: (m.disc_page & 0x00ff) | ((data as u16) << 8), ..m }
    } else if addr == 0xfc {
        serial_write_data_post(m, data)
    } else if addr == 0xfd {
        serial_prog_reset_post(m)
    } else if addr == 0xfe {
        serial_write_command_post(m, data)
    } else if addr == 0xff {
        MachineView { control: data, ..m }
    } else {
        MachineView { ram: m.ram.update(addr as int, data), ..m }
    }
}

/// Is the receiver enabled (command bit 0)?
pub open spec fn receive_enabled(m: MachineView) -> bool {
    m.command & 0b0000_0001 != 0
}

/// Does delivering a byte raise an interrupt request (receiver enabled and
/// command bit 1 clear)?
pub open spec fn receive_irq(m: MachineView) -> bool {
    receive_enabled(m) && m.command & 0b0000_0010 == 0
}

/// State after input delivery: nothing happens unless the receiver is
/// enabled; then the byte latches into an empty receive port or queues;
/// command bit 4 echoes it to the sink; command bit 1 clear sets the
/// interrupt flag, otherwise it clears; the data-available flag always sets.
pub open spec fn receive_post(m: MachineView, data: u8) -> MachineView {
    if !receive_enabled(m) {
        m
    } else {
        let m1 = if m.data_rx == 0 {
            MachineView { data_rx: data, ..m }
        } else {
            MachineView { rx_queue: m.rx_queue.push(data), ..m }
        };
        let m2 = if m.command & 0b0001_0000 != 0 {
            MachineView { out: m1.out + emitted(data), ..m1 }
        } else {
            m1
        };
        let m3 = if m.command & 0b0000_0010 == 0 {
            MachineView { status: m2.status | 0b1000_0000, ..m2 }
        } else {
            MachineView { status: m2.status & 0b0111_1111, ..m2 }
        };
        MachineView { status: m3.status | 0b0000_1000, ..m3 }
    }
}

/// State after a reset: the serial registers and queue return to their
/// defaults (status keeps bits 5 and 6, forces bit 4), the bank register
/// zeroes, and every memory and disc register is untouched.
pub open spec fn reset_post(m: MachineView) -> MachineView {
    MachineView {
        data_tx: 0,
        data_rx: 0,
        rx_queue: Seq::empty(),
        status: (m.status & 0b0110_0000) | 0b0001_0000,
        command: 0b0000_0010,
        control: 0,
        bank: 0,
        ..m
    }
}

} // verus!
