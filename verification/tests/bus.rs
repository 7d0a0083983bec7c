use emulator_6502::MOS6502;
use owos_6502::{BootImageError, MemoryMap};

fn fresh(rom: Vec<u8>) -> MemoryMap {
    MemoryMap::new(rom).expect("boot image fits the window")
}

#[test]
fn boot_window_reads_image_and_ignores_writes() {
    let mut mm = fresh(vec![0x12, 0x34, 0x56]);
    assert_eq!(mm.read(0xf000), 0x12);
    assert_eq!(mm.read(0xf001), 0x34);
    assert_eq!(mm.read(0xf002), 0x56);
    // beyond the image the window still reads, as zero
    assert_eq!(mm.read(0xf003), 0x00);
    assert_eq!(mm.read(0xffff), 0x00);
    // writes to the window change nothing
    mm.write(0xf001, 0xaa);
    mm.write(0xffff, 0xbb);
    assert_eq!(mm.read(0xf001), 0x34);
    assert_eq!(mm.read(0xffff), 0x00);
}

#[test]
fn boot_image_too_large_is_rejected() {
    assert!(matches!(MemoryMap::new(vec![0u8; 4097]), Err(BootImageError::ImageTooLarge)));
    assert!(MemoryMap::new(vec![0u8; 4096]).is_ok());
    assert!(MemoryMap::new(Vec::new()).is_ok());
}

#[test]
fn bank_switch_hides_the_register_until_reset() {
    let mut mm = fresh(vec![0x99]);
    // visible while zero
    assert_eq!(mm.read(0x0000), 0x00);
    mm.write(0x0000, 0x01);
    // now address zero is plain memory, which starts at zero
    assert_eq!(mm.read(0x0000), 0x00);
    // and the boot window is plain memory too
    assert_eq!(mm.read(0xf000), 0x00);
    // writes land in memory, not in the hidden register
    mm.write(0x0000, 0x07);
    assert_eq!(mm.read(0x0000), 0x07);
    // reset restores visibility; the register reads back as zero
    mm.reset();
    assert_eq!(mm.read(0x0000), 0x00);
    assert_eq!(mm.read(0xf000), 0x99);
    // the memory byte written meanwhile survives under the register's shadow
    mm.write(0x0000, 0x02);
    assert_eq!(mm.read(0x0000), 0x07);
}

#[test]
fn disc_round_trip_on_both_devices() {
    let mut mm = fresh(Vec::new());
    for select in 0u8..2u8 {
        mm.write(0x00f8, select);
        mm.write(0x00f9, 0x34);
        mm.write(0x00fa, 0x12);
        mm.write(0x00fb, 0xab);
        assert_eq!(mm.read(0x00f8), select);
        assert_eq!(mm.read(0x00f9), 0x34);
        assert_eq!(mm.read(0x00fa), 0x12);
        assert_eq!(mm.read(0x00fb), 0xab);
        mm.write(0x00f7, 0x5a + select);
        assert_eq!(mm.read(0x00f7), 0x5a + select);
    }
    // the two devices hold their bytes independently
    mm.write(0x00f8, 0);
    assert_eq!(mm.read(0x00f7), 0x5a);
}

#[test]
fn disc_page_bytes_update_independently() {
    let mut mm = fresh(Vec::new());
    mm.write(0x00fa, 0xcd);
    mm.write(0x00fb, 0xab);
    assert_eq!(mm.read(0x00fa), 0xcd);
    assert_eq!(mm.read(0x00fb), 0xab);
    mm.write(0x00fa, 0x11);
    assert_eq!(mm.read(0x00fa), 0x11);
    assert_eq!(mm.read(0x00fb), 0xab);
    mm.write(0x00fb, 0x22);
    assert_eq!(mm.read(0x00fa), 0x11);
    assert_eq!(mm.read(0x00fb), 0x22);
}

#[test]
fn disc_invalid_select_reads_zero_and_discards_writes() {
    let mut mm = fresh(Vec::new());
    mm.write(0x00f8, 0);
    mm.write(0x00f9, 0x10);
    mm.write(0x00f7, 0x77);
    mm.write(0x00f8, 1);
    mm.write(0x00f7, 0x88);
    mm.write(0x00f8, 2);
    assert_eq!(mm.read(0x00f7), 0x00);
    mm.write(0x00f7, 0xff);
    assert_eq!(mm.read(0x00f7), 0x00);
    // neither device was corrupted
    mm.write(0x00f8, 0);
    assert_eq!(mm.read(0x00f7), 0x77);
    mm.write(0x00f8, 1);
    assert_eq!(mm.read(0x00f7), 0x88);
}

#[test]
fn general_memory_read_write() {
    let mut mm = fresh(Vec::new());
    mm.write(0x1234, 0x42);
    mm.write(0x0100, 0x24);
    assert_eq!(mm.read(0x1234), 0x42);
    assert_eq!(mm.read(0x0100), 0x24);
    // untouched memory reads zero
    assert_eq!(mm.read(0x4321), 0x00);
}

#[test]
fn receive_then_read_round_trip() {
    let mut mm = fresh(Vec::new());
    let mut cpu = MOS6502::new();
    // receiver disabled by default: delivery is a no-op
    mm.receive_uart_data(&mut cpu, 0x55);
    assert_eq!(mm.read(0x00fc), 0x00);
    // enable the receiver, without interrupts
    mm.write(0x00fe, 0b0000_0011);
    mm.receive_uart_data(&mut cpu, 0x41);
    // data available (status bit 3)
    assert_eq!(mm.read(0x00fd) & 0b0000_1000, 0b0000_1000);
    assert_eq!(mm.read(0x00fc), 0x41);
    // nothing further queued: data-available is clear, port reads zero
    assert_eq!(mm.read(0x00fd) & 0b0000_1000, 0);
    assert_eq!(mm.read(0x00fc), 0x00);
}

#[test]
fn receive_queues_behind_a_full_latch() {
    let mut mm = fresh(Vec::new());
    let mut cpu = MOS6502::new();
    mm.write(0x00fe, 0b0000_0011);
    mm.receive_uart_data(&mut cpu, 0x41);
    mm.receive_uart_data(&mut cpu, 0x42);
    // a zero byte always queues once the latch is full
    mm.receive_uart_data(&mut cpu, 0x00);
    mm.receive_uart_data(&mut cpu, 0x43);
    assert_eq!(mm.read(0x00fc), 0x41);
    assert_eq!(mm.read(0x00fc), 0x42);
    assert_eq!(mm.read(0x00fc), 0x00);
    assert_eq!(mm.read(0x00fc), 0x43);
    assert_eq!(mm.read(0x00fc), 0x00);
}

#[test]
fn receive_with_interrupts_enabled_raises_and_read_clears() {
    let mut mm = fresh(Vec::new());
    let mut cpu = MOS6502::new();
    // receiver on, command bit 1 clear: interrupts enabled
    mm.write(0x00fe, 0b0000_0001);
    mm.receive_uart_data(&mut cpu, 0x41);
    // the processor got an interrupt request: it no longer equals a fresh one
    assert_ne!(cpu, MOS6502::new());
    // status bit 7 set by the delivery
    assert_eq!(mm.read(0x00fd) & 0b1000_0000, 0b1000_0000);
    // reading the data port clears it
    assert_eq!(mm.read(0x00fc), 0x41);
    assert_eq!(mm.read(0x00fd) & 0b1000_0000, 0);
}

#[test]
fn receive_with_command_bit_one_set_raises_no_interrupt() {
    let mut mm = fresh(Vec::new());
    let mut cpu = MOS6502::new();
    mm.write(0x00fe, 0b0000_0011);
    mm.receive_uart_data(&mut cpu, 0x41);
    // no interrupt request was made on the processor
    assert_eq!(cpu, MOS6502::new());
    assert_eq!(mm.read(0x00fd) & 0b1000_0000, 0);
}

#[test]
fn echo_translates_newline() {
    let mut mm = fresh(Vec::new());
    let mut cpu = MOS6502::new();
    // receiver on, echo on (bit 4), no interrupts (bit 1)
    mm.write(0x00fe, 0b0001_0011);
    mm.receive_uart_data(&mut cpu, 0x41);
    mm.receive_uart_data(&mut cpu, 0x0a);
    assert_eq!(mm.take_output(), vec![0x41, 0x0a, 0x0d]);
    assert_eq!(mm.take_output(), Vec::<u8>::new());
}

#[test]
fn transmit_through_data_port() {
    let mut mm = fresh(Vec::new());
    // transmitter enabled (command bit 0): bytes go straight out
    mm.write(0x00fe, 0b0000_0011);
    mm.write(0x00fc, 0x48);
    mm.write(0x00fc, 0x0a);
    assert_eq!(mm.take_output(), vec![0x48, 0x0a, 0x0d]);
    // a zero byte is not emitted; it only clears transmit-complete
    mm.write(0x00fc, 0x00);
    assert_eq!(mm.take_output(), Vec::<u8>::new());
    assert_eq!(mm.read(0x00fd) & 0b0001_0000, 0);
}

#[test]
fn transmit_latched_byte_on_command_enable() {
    let mut mm = fresh(Vec::new());
    // command bit 0 clear by default: the byte latches, bit 4 clears
    mm.write(0x00fc, 0x48);
    assert_eq!(mm.take_output(), Vec::<u8>::new());
    assert_eq!(mm.read(0x00fd) & 0b0001_0000, 0);
    // enabling the transmitter flushes the pending byte and sets bit 4
    mm.write(0x00fe, 0b0000_0011);
    assert_eq!(mm.take_output(), vec![0x48]);
    assert_eq!(mm.read(0x00fd) & 0b0001_0000, 0b0001_0000);
    // enabling again with nothing pending emits nothing
    mm.write(0x00fe, 0b0000_0011);
    assert_eq!(mm.take_output(), Vec::<u8>::new());
    // a latched newline is translated when flushed
    mm.write(0x00fd, 0x00);
    mm.write(0x00fc, 0x0a);
    mm.write(0x00fe, 0b0000_0011);
    assert_eq!(mm.take_output(), vec![0x0a, 0x0d]);
}

#[test]
fn programmed_reset_restores_command_default() {
    let mut mm = fresh(Vec::new());
    mm.write(0x00fe, 0b0001_0011);
    assert_eq!(mm.read(0x00fe), 0b0001_0011);
    mm.write(0x00fd, 0xff);
    assert_eq!(mm.read(0x00fe), 0b0000_0010);
    assert_eq!(mm.read(0x00fd) & 0b0000_0100, 0);
}

#[test]
fn control_register_is_stored_only() {
    let mut mm = fresh(Vec::new());
    assert_eq!(mm.read(0x00ff), 0x00);
    mm.write(0x00ff, 0xab);
    assert_eq!(mm.read(0x00ff), 0xab);
    assert_eq!(mm.take_output(), Vec::<u8>::new());
}

#[test]
fn reset_restores_serial_and_bank_but_keeps_memories() {
    let mut mm = fresh(vec![0x77]);
    let mut cpu = MOS6502::new();
    // dirty everything resettable, plus memory and a disc
    mm.write(0x1000, 0x11);
    mm.write(0x00f8, 1);
    mm.write(0x00f9, 0x05);
    mm.write(0x00f7, 0x66);
    mm.write(0x00fe, 0b0000_0011);
    mm.write(0x00fc, 0x41);
    mm.receive_uart_data(&mut cpu, 0x42);
    mm.receive_uart_data(&mut cpu, 0x43);
    mm.write(0x00ff, 0x99);
    mm.write(0x0000, 0x00); // bank still zero: register write, stays visible
    mm.reset();
    // serial defaults: status 0b0001_0000, command 0b0000_0010, control 0
    assert_eq!(mm.read(0x00fd), 0b0001_0000);
    assert_eq!(mm.read(0x00fe), 0b0000_0010);
    assert_eq!(mm.read(0x00ff), 0x00);
    // both data ports zero and the queue empty
    assert_eq!(mm.read(0x00fc), 0x00);
    assert_eq!(mm.read(0x00fc), 0x00);
    // bank register zero: boot memory visible
    assert_eq!(mm.read(0xf000), 0x77);
    // memory, disc contents and disc registers untouched
    assert_eq!(mm.read(0x1000), 0x11);
    assert_eq!(mm.read(0x00f8), 1);
    assert_eq!(mm.read(0x00f9), 0x05);
    assert_eq!(mm.read(0x00f7), 0x66);
}

#[test]
fn status_read_of_data_port_clears_low_bits_and_irq_flag() {
    let mut mm = fresh(Vec::new());
    let mut cpu = MOS6502::new();
    mm.write(0x00fe, 0b0000_0001);
    mm.receive_uart_data(&mut cpu, 0x41);
    // bit 7 (irq), bit 4 (tx complete), bit 3 (data available)
    assert_eq!(mm.read(0x00fd), 0b1001_1000);
    mm.read(0x00fc);
    // bits 0, 1, 2, 7 cleared, bit 3 cleared with the queue empty
    assert_eq!(mm.read(0x00fd), 0b0001_0000);
}
