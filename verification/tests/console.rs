//! The mini UART console driver over the modelled register block.

use nucleus::gpio::Gpio;
use nucleus::mini_uart::InertMiniUart;
use nucleus::mini_uart::MiniUart;
use nucleus::mini_uart::UART1_BASE;
use nucleus::mini_uart::data_size_eight_bit;
use nucleus::mini_uart::data_size_seven_bit;
use nucleus::mini_uart::fifo_clear_all;
use nucleus::mini_uart::fifo_clear_rx;
use nucleus::mini_uart::fifo_clear_tx;

fn configured_uart() -> MiniUart {
    let mut uart = MiniUart::new_default();
    let mut gpio = Gpio::new(0);
    uart.init(&mut gpio);
    uart
}

#[test]
fn default_handle_sits_at_the_fixed_base() {
    let uart = MiniUart::new_default();
    assert_eq!(UART1_BASE, 0x3F21_5000);
    assert_eq!(uart.base_addr, 0x3F21_5000usize);
}

#[test]
fn init_programs_the_documented_configuration() {
    let mut uart = MiniUart::new(0x3F21_5000);
    let mut gpio = Gpio::new(0xFFFF_FFFF);
    uart.init(&mut gpio);
    assert_eq!(uart.regs.AUX_ENABLES.get(), 1);
    assert_eq!(uart.regs.AUX_MU_IER.device_value(), 0);
    assert_eq!(uart.regs.AUX_MU_IIR.device_value(), 6);
    assert_eq!(uart.regs.AUX_MU_LCR.device_value(), 3);
    assert_eq!(uart.regs.AUX_MU_MCR.device_value(), 0);
    assert_eq!(uart.regs.AUX_MU_CNTL.device_value(), 3);
    assert_eq!(uart.regs.AUX_MU_BAUD.device_value(), 270);
    // pins 14 and 15 routed to alternate function 5, nothing else touched
    assert_eq!(uart.regs.AUX_ENABLES.get() & !1, 0);
    assert_eq!(gpio.GPFSEL1.get(), (0xFFFF_FFFF & !0x3F000) | 0x12000);
    assert_eq!(gpio.GPPUD.device_value(), 0);
    assert_eq!(gpio.GPPUDCLK0.device_value(), 0);
}

#[test]
fn init_clears_pending_input() {
    let mut uart = MiniUart::new(0x3F21_5000);
    uart.regs.device_receive(0x55);
    let mut gpio = Gpio::new(0);
    uart.init(&mut gpio);
    assert_eq!(uart.regs.rx_fifo.len(), 0);
}

#[test]
fn put_char_emits_the_byte() {
    let mut uart = configured_uart();
    uart.putc('x');
    assert_eq!(uart.regs.tx_line, vec![120u8]);
}

#[test]
fn put_string_injects_carriage_return_before_line_feed() {
    let mut uart = configured_uart();
    uart.puts("a\nb");
    assert_eq!(uart.regs.tx_line, vec![97u8, 13, 10, 98]);
}

#[test]
fn put_string_alters_no_other_characters() {
    let mut uart = configured_uart();
    uart.puts("ok\n");
    uart.puts("");
    assert_eq!(uart.regs.tx_line, vec![111u8, 107, 13, 10]);
}

#[test]
fn get_char_translates_carriage_return_to_line_feed() {
    let mut uart = configured_uart();
    uart.regs.device_receive(13);
    assert_eq!(uart.getc(), '\n');
}

#[test]
fn get_char_passes_other_bytes_through() {
    let mut uart = configured_uart();
    uart.regs.device_receive(65);
    uart.regs.device_receive(10);
    uart.regs.device_receive(0);
    assert_eq!(uart.getc(), 'A');
    assert_eq!(uart.getc(), '\n');
    assert_eq!(uart.getc(), '\0');
    assert_eq!(uart.regs.rx_fifo.len(), 0);
}

#[test]
fn flush_returns_once_the_transmitter_is_idle() {
    let mut uart = configured_uart();
    uart.putc('x');
    uart.flush();
    uart.wait_tx_fifo_empty();
    assert_eq!(uart.regs.tx_line, vec![120u8]);
}

#[test]
fn fifo_clear_values_match_the_register_table() {
    assert_eq!(fifo_clear_rx().value, 2);
    assert_eq!(fifo_clear_tx().value, 4);
    assert_eq!(fifo_clear_all().value, 6);
}

#[test]
fn data_size_has_exactly_the_two_legal_patterns() {
    assert_eq!(data_size_seven_bit().value, 0b00);
    assert_eq!(data_size_eight_bit().value, 0b11);
    assert_eq!(data_size_seven_bit().mask, data_size_eight_bit().mask);
}

#[test]
fn clearing_the_transmit_fifo_keeps_received_bytes() {
    let mut uart = configured_uart();
    uart.regs.device_receive(7);
    uart.regs.iir_write(fifo_clear_tx());
    assert_eq!(uart.regs.rx_fifo.len(), 1);
    uart.regs.iir_write(fifo_clear_rx());
    assert_eq!(uart.regs.rx_fifo.len(), 0);
}

#[test]
fn translate_out_matches_what_the_driver_sends() {
    let bytes = nucleus::mini_uart::translate_out("a\nb");
    assert_eq!(bytes, vec![97u8, 13, 10, 98]);
    let mut uart = configured_uart();
    uart.puts("a\nb");
    assert_eq!(uart.regs.tx_line, bytes);
}

#[test]
fn inert_console_drops_writes_and_reads_line_feeds() {
    let mut console = InertMiniUart::new();
    let gpio = Gpio::new(0x1234);
    console.init(&gpio);
    assert!(console.configured);
    console.putc('x');
    console.puts("a\nb");
    console.flush();
    console.wait_tx_fifo_empty();
    assert_eq!(console.getc(), '\n');
    assert_eq!(console.getc(), '\n');
    // the GPIO block was never touched
    assert_eq!(gpio.GPFSEL1.get(), 0x1234);
}

#[test]
fn teardown_clears_the_enable_bit() {
    let mut uart = configured_uart();
    uart.putc('x');
    uart.shutdown();
    assert_eq!(uart.regs.AUX_ENABLES.get() & 1, 0);
    // the rest of the configuration is left as it was
    assert_eq!(uart.regs.AUX_MU_BAUD.device_value(), 270);
    assert_eq!(uart.regs.AUX_MU_CNTL.device_value(), 3);
}
