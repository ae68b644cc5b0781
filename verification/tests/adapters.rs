use ebyte_e32_ui::ConfigError;
use ebyte_e32_ui::CtsAux;
use ebyte_e32_ui::Level;
use ebyte_e32_ui::M0Dtr;
use ebyte_e32_ui::M1Rts;
use ebyte_e32_ui::StopBits;
use ebyte_e32_ui::plan_line;
use ebyte_e32_ui::stop_bits_from_count;

#[test]
fn busy_sense_asserted_line_reads_not_busy() {
    assert_eq!(CtsAux::is_high(true), false);
    assert_eq!(CtsAux::is_low(true), true);
}

#[test]
fn busy_sense_deasserted_line_reads_busy() {
    assert_eq!(CtsAux::is_high(false), true);
    assert_eq!(CtsAux::is_low(false), false);
}

#[test]
fn mode_select_a_logical_low_asserts_the_line() {
    assert_eq!(M0Dtr::drive_for(Level::Low), true);
    assert_eq!(M0Dtr::drive_for(Level::High), false);
}

#[test]
fn mode_select_b_logical_low_asserts_the_line() {
    assert_eq!(M1Rts::drive_for(Level::Low), true);
    assert_eq!(M1Rts::drive_for(Level::High), false);
}

#[test]
fn exit_line_stops_the_send_loop_untransmitted() {
    assert_eq!(plan_line(&b"exit".to_vec()), None);
}

#[test]
fn quit_line_stops_the_send_loop_untransmitted() {
    assert_eq!(plan_line(&b"quit".to_vec()), None);
}

#[test]
fn ordinary_line_is_transmitted_in_order_with_terminator() {
    assert_eq!(plan_line(&b"hello".to_vec()), Some(b"hello\n".to_vec()));
}

#[test]
fn near_sentinel_lines_are_still_transmitted() {
    assert_eq!(plan_line(&b"exit ".to_vec()), Some(b"exit \n".to_vec()));
    assert_eq!(plan_line(&b"exi".to_vec()), Some(b"exi\n".to_vec()));
    assert_eq!(plan_line(&b"Exit".to_vec()), Some(b"Exit\n".to_vec()));
}

#[test]
fn empty_line_sends_only_the_terminator() {
    assert_eq!(plan_line(&Vec::new()), Some(vec![b'\n']));
}

#[test]
fn empty_read_is_would_block_not_an_error() {
    assert_eq!(ebyte_e32_ui::classify_read(0, 42), ebyte_e32_ui::ReadPoll::WouldBlock);
}

#[test]
fn nonempty_read_hands_the_byte_on_unchanged() {
    assert_eq!(ebyte_e32_ui::classify_read(1, 42), ebyte_e32_ui::ReadPoll::Ready(42));
    assert_eq!(ebyte_e32_ui::classify_read(7, 0), ebyte_e32_ui::ReadPoll::Ready(0));
}

#[test]
fn stop_bit_counts_one_and_two_are_accepted() {
    assert_eq!(stop_bits_from_count(1), Ok(StopBits::One));
    assert_eq!(stop_bits_from_count(2), Ok(StopBits::Two));
}

#[test]
fn other_stop_bit_counts_are_rejected() {
    assert_eq!(stop_bits_from_count(0), Err(ConfigError::InvalidStopBits(0)));
    assert_eq!(stop_bits_from_count(3), Err(ConfigError::InvalidStopBits(3)));
    assert_eq!(stop_bits_from_count(255), Err(ConfigError::InvalidStopBits(255)));
}

#[test]
fn default_parameters_match_the_module_defaults() {
    let p = ebyte_e32_ui::Parameters::default();
    assert_eq!(p.address, 0);
    assert_eq!(p.channel, 0);
    assert_eq!(p.uart_parity, ebyte_e32_ui::Parity::NoParity);
    assert_eq!(p.uart_rate, ebyte_e32_ui::BaudRate::Bps9600);
    assert_eq!(p.air_rate, ebyte_e32_ui::AirBaudRate::Bps2400);
    assert_eq!(p.transmission_mode, ebyte_e32_ui::TransmissionMode::Transparent);
    assert_eq!(p.io_drive_mode, ebyte_e32_ui::IoDriveMode::PushPull);
    assert_eq!(p.wakeup_time, ebyte_e32_ui::WakeupTime::Ms250);
    assert_eq!(p.fec, ebyte_e32_ui::ForwardErrorCorrectionMode::On);
    assert_eq!(p.transmission_power, ebyte_e32_ui::TransmissionPower::Dbm30);
}
