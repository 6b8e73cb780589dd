use longfi_bsp::antenna::AntennaMode;
use longfi_bsp::antenna::AntennaSwitches;
use longfi_bsp::longfi_bindings::BUSY_FALLBACK;
use longfi_bsp::longfi_bindings::InputLine;
use longfi_bsp::longfi_bindings::LongFiBindings;
use longfi_bsp::longfi_bindings::OutputLine;
use longfi_bsp::longfi_bindings::POWER_CEILING;
use longfi_bsp::longfi_bindings::RandomSource;
use longfi_bsp::longfi_bindings::RngStep;
use longfi_bsp::longfi_bindings::TransportPort;
use longfi_bsp::longfi_bindings::delay_cycles;
use longfi_bsp::longfi_bindings::reduce_power;

fn populated_board(inbound: Vec<u8>, samples: Vec<u32>) -> LongFiBindings {
    LongFiBindings::new(
        TransportPort::new(inbound),
        OutputLine { high: false },
        OutputLine { high: true },
        InputLine { high: false },
        RandomSource::new(samples),
        AntennaSwitches::new(false, false, false, false),
    )
}

#[test]
fn construction_populates_every_slot() {
    // Every capability call requires its slot populated; construction is
    // what discharges that requirement for all of them, once.
    let b = populated_board(Vec::new(), Vec::new());
    assert!(b.spi.is_some());
    assert!(b.spi_nss.is_some());
    assert!(b.reset.is_some());
    assert!(b.radio_busy.is_some());
    assert!(b.rng.is_some());
    assert!(b.ant_sw.is_some());
    assert!(b.delays.is_empty());
}

#[test]
fn reset_line_is_active_low() {
    let mut b = populated_board(Vec::new(), Vec::new());
    b.radio_reset(true);
    assert_eq!(b.reset, Some(OutputLine { high: false }));
    b.radio_reset(false);
    assert_eq!(b.reset, Some(OutputLine { high: true }));
}

#[test]
fn transport_exchange_sends_and_receives() {
    let mut b = populated_board(vec![0x5a, 0x10], Vec::new());
    assert_eq!(b.spi_in_out(0x01), 0x5a);
    assert_eq!(b.spi_in_out(0x02), 0x10);
    // The device script is exhausted: further exchanges read back zero.
    assert_eq!(b.spi_in_out(0x03), 0x00);
    let port = b.spi.as_ref().unwrap();
    assert_eq!(port.sent, vec![0x01, 0x02, 0x03]);
}

#[test]
fn chip_select_follows_request() {
    let mut b = populated_board(Vec::new(), Vec::new());
    b.spi_nss(true);
    assert_eq!(b.spi_nss, Some(OutputLine { high: true }));
    b.spi_nss(false);
    assert_eq!(b.spi_nss, Some(OutputLine { high: false }));
}

#[test]
fn delay_requests_are_recorded_in_order() {
    let mut b = populated_board(Vec::new(), Vec::new());
    b.delay_ms(5);
    b.delay_ms(250);
    assert_eq!(b.delays, vec![5, 250]);
}

#[test]
fn delay_cycles_scales_milliseconds_and_saturates() {
    assert_eq!(delay_cycles(5, 32_000), 160_000);
    assert_eq!(delay_cycles(0, 32_000), 0);
    // A request beyond the counter's range saturates instead of wrapping.
    assert_eq!(delay_cycles(u32::MAX, 2), u32::MAX);
}

#[test]
fn random_bits_runs_one_full_cycle_and_disarms() {
    let mut b = populated_board(Vec::new(), vec![0xdead_beef]);
    assert_eq!(b.get_random_bits(32), 0xdead_beef);
    let rng = b.rng.as_ref().unwrap();
    assert!(!rng.enabled);
    assert_eq!(
        rng.trace,
        vec![RngStep::Arm, RngStep::Wait, RngStep::Read, RngStep::Disarm],
    );
}

#[test]
fn consecutive_random_bits_rearm_between_reads() {
    let mut b = populated_board(Vec::new(), vec![1, 2]);
    assert_eq!(b.get_random_bits(8), 1);
    assert_eq!(b.get_random_bits(8), 2);
    let trace = &b.rng.as_ref().unwrap().trace;
    assert_eq!(trace.len(), 8);
    // Two reads, with a disarm and a fresh arm strictly between them.
    assert_eq!(trace[2], RngStep::Read);
    assert_eq!(trace[3], RngStep::Disarm);
    assert_eq!(trace[4], RngStep::Arm);
    assert_eq!(trace[6], RngStep::Read);
}

#[test]
fn random_bits_width_is_informational_only() {
    // The full-width sample comes back even for a narrow request.
    let mut b = populated_board(Vec::new(), vec![0xffff_ffff]);
    assert_eq!(b.get_random_bits(1), 0xffff_ffff);
}

#[test]
fn antenna_capability_drives_patterns() {
    let mut b = populated_board(Vec::new(), Vec::new());
    b.set_antenna_pins(AntennaMode::Tx, 0);
    assert_eq!(b.ant_sw, Some(AntennaSwitches::new(false, true, true, true)));
    b.set_antenna_pins(AntennaMode::Rx, 0);
    assert_eq!(b.ant_sw, Some(AntennaSwitches::new(true, true, true, false)));
    b.set_antenna_pins(AntennaMode::Sleep, 0);
    assert_eq!(b.ant_sw, Some(AntennaSwitches::new(false, false, false, false)));
}

#[test]
fn busy_poll_reads_line_or_falls_back_to_busy() {
    let mut b = populated_board(Vec::new(), Vec::new());
    assert!(!b.busy_pin_status());
    b.radio_busy = Some(InputLine { high: true });
    assert!(b.busy_pin_status());

    // With the sense line unavailable the poll reports the conservative
    // fallback: busy.
    b.radio_busy = None;
    assert!(b.busy_pin_status());
    assert!(BUSY_FALLBACK);
}

#[test]
fn reduce_power_answers_with_the_fixed_ceiling() {
    assert_eq!(reduce_power(0), POWER_CEILING);
    assert_eq!(reduce_power(255), 17);
}
