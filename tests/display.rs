use rope_length_measure::display::{BusOp, Display, Line, Step};

fn command_ops(byte: u8, register_select: bool, wait: u64) -> Vec<BusOp> {
    let mut ops: Vec<BusOp> = (0..8u8)
        .map(|i| BusOp::Drive(Line::Data(i), (byte >> i) & 1 == 1))
        .collect();
    ops.push(BusOp::Drive(Line::RegisterSelect, register_select));
    ops.push(BusOp::Drive(Line::ReadWrite, false));
    ops.push(BusOp::Drive(Line::Enable, true));
    ops.push(BusOp::Delay(wait));
    ops.push(BusOp::Drive(Line::Enable, false));
    ops.push(BusOp::Delay(wait));
    ops
}

#[test]
fn new_display_has_nothing_queued() {
    let mut d = Display::new(48_000_000);
    assert_eq!(d.cpu_clk_hz(), 48_000_000);
    assert!(d.take_steps().is_empty());
}

#[test]
fn initialization_sequence() {
    let mut d = Display::new(48_000_000);
    d.initialize_display();
    let expected = vec![
        Step::DelayMs(15),
        Step::EnableLow,
        Step::DelayMs(100),
        Step::Command(0x30),
        Step::DelayMs(1),
        Step::Command(0x38),
        Step::DelayMs(1),
        Step::Command(0x38),
        Step::DelayMs(1),
        Step::Command(0x0E),
        Step::DelayMs(1),
        Step::Command(0x01),
        Step::DelayMs(1),
        Step::Command(0x07),
        Step::DelayMs(1),
        Step::Command(0x06),
    ];
    assert_eq!(d.take_steps(), expected);
    assert!(d.take_steps().is_empty());
}

#[test]
fn cursor_bounds() {
    let mut d = Display::new(16_000_000);
    for row in 0..=255u8 {
        for column in 0..=255u8 {
            let ok = d.set_cursor_position(row, column).is_ok();
            assert_eq!(ok, row < 2 && column <= 16, "row {} column {}", row, column);
        }
    }
    assert_eq!(d.take_steps().len(), 2 * 17);
}

#[test]
fn cursor_park_position_is_accepted() {
    let mut d = Display::new(16_000_000);
    assert_eq!(d.set_cursor_position(0, 16), Ok(()));
    assert_eq!(d.set_cursor_position(1, 16), Ok(()));
    assert_eq!(d.set_cursor_position(0, 17), Err(()));
    assert_eq!(d.set_cursor_position(2, 0), Err(()));
    assert_eq!(d.take_steps(), vec![Step::Command(0x90), Step::Command(0xD0)]);
}

#[test]
fn failed_cursor_request_queues_nothing() {
    let mut d = Display::new(16_000_000);
    assert!(d.set_cursor_position(2, 3).is_err());
    assert!(d.set_cursor_position(0, 200).is_err());
    assert!(d.take_steps().is_empty());
}

#[test]
fn row_starts_have_distinct_addresses() {
    let mut d = Display::new(16_000_000);
    d.set_cursor_position(0, 0).unwrap();
    d.set_cursor_position(1, 0).unwrap();
    d.set_cursor_position(1, 5).unwrap();
    assert_eq!(
        d.take_steps(),
        vec![Step::Command(0x80), Step::Command(0xC0), Step::Command(0xC5)]
    );
}

#[test]
fn write_str_queues_data_bytes_in_order() {
    let mut d = Display::new(16_000_000);
    d.write_str("Length:");
    let expected: Vec<Step> = b"Length:".iter().map(|&b| Step::Data(b)).collect();
    assert_eq!(d.take_steps(), expected);
    d.write_str("");
    assert!(d.take_steps().is_empty());
}

#[test]
fn write_bytes_queues_data_bytes() {
    let mut d = Display::new(16_000_000);
    d.write_bytes(&[0x00, 0xFF, 0x41]);
    assert_eq!(
        d.take_steps(),
        vec![Step::Data(0x00), Step::Data(0xFF), Step::Data(0x41)]
    );
}

#[test]
fn delay_ms_queues_a_delay() {
    let mut d = Display::new(16_000_000);
    d.delay_ms(250);
    assert_eq!(d.take_steps(), vec![Step::DelayMs(250)]);
}

#[test]
fn command_transfer_on_the_bus() {
    let d = Display::new(48_000_000);
    assert_eq!(d.bus_ops(Step::Command(0xC0)), command_ops(0xC0, false, 96_000));
    let ops = d.bus_ops(Step::Command(0b1010_0101));
    assert_eq!(ops[0], BusOp::Drive(Line::Data(0), true));
    assert_eq!(ops[1], BusOp::Drive(Line::Data(1), false));
    assert_eq!(ops[7], BusOp::Drive(Line::Data(7), true));
    assert_eq!(ops.len(), 14);
}

#[test]
fn data_transfer_selects_data_register() {
    let d = Display::new(48_000_000);
    assert_eq!(d.bus_ops(Step::Data(b'A')), command_ops(b'A', true, 96_000));
}

#[test]
fn enable_low_and_delay_on_the_bus() {
    let d = Display::new(16_000_000);
    assert_eq!(
        d.bus_ops(Step::EnableLow),
        vec![BusOp::Drive(Line::Enable, false)]
    );
    assert_eq!(d.bus_ops(Step::DelayMs(15)), vec![BusOp::Delay(240_000)]);
    let fast = Display::new(u32::MAX);
    assert_eq!(
        fast.bus_ops(Step::DelayMs(u32::MAX)),
        vec![BusOp::Delay(4_294_967u64 * u32::MAX as u64)]
    );
}
