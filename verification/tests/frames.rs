use sensor_dashboard::bus::{frame, BusStep, DISPLAY_ADDR, DISPLAY_ADDR_WRITE};
use sensor_dashboard::display::{
    init_plan, set_position_plan, write_bytes_plan, write_number_plan,
};

fn data_frame(bytes: &[u8]) -> Vec<BusStep> {
    let mut steps = vec![
        BusStep::StartCond,
        BusStep::WriteByte(DISPLAY_ADDR_WRITE),
        BusStep::WriteByte(0x40),
    ];
    for &b in bytes {
        steps.push(BusStep::WriteByte(b));
    }
    steps.push(BusStep::StopCond);
    steps
}

fn position_frame(col: u8, page: u8) -> Vec<BusStep> {
    vec![
        BusStep::StartCond,
        BusStep::WriteByte(DISPLAY_ADDR_WRITE),
        BusStep::WriteByte(0x00),
        BusStep::WriteByte(0x21),
        BusStep::WriteByte(col),
        BusStep::WriteByte(127),
        BusStep::WriteByte(0x00),
        BusStep::WriteByte(0x22),
        BusStep::WriteByte(page),
        BusStep::WriteByte(7),
        BusStep::StopCond,
    ]
}

#[test]
fn address_byte_has_write_bit() {
    assert_eq!(DISPLAY_ADDR_WRITE, DISPLAY_ADDR << 1);
}

#[test]
fn every_frame_starts_with_start_then_address() {
    let plans = vec![
        frame(&vec![1, 2, 3]),
        frame(&Vec::new()),
        init_plan(),
        set_position_plan(0, 0),
        write_bytes_plan(&b"ADC: ".to_vec()),
        write_number_plan(42),
    ];
    for plan in plans {
        assert_eq!(plan[0], BusStep::StartCond);
        assert_eq!(plan[1], BusStep::WriteByte(DISPLAY_ADDR_WRITE));
        assert_eq!(*plan.last().unwrap(), BusStep::StopCond);
    }
}

#[test]
fn frame_wraps_payload_exactly() {
    let plan = frame(&vec![0xAA, 0xBB]);
    assert_eq!(
        plan,
        vec![
            BusStep::StartCond,
            BusStep::WriteByte(DISPLAY_ADDR_WRITE),
            BusStep::WriteByte(0xAA),
            BusStep::WriteByte(0xBB),
            BusStep::StopCond,
        ]
    );
}

#[test]
fn init_streams_the_setup_commands_in_order() {
    let plan = init_plan();
    let commands = [
        0xAEu8, 0xA8, 0x3F, 0xD3, 0x00, 0x40, 0xA1, 0xC8, 0xDA, 0x12, 0x81, 0xCF, 0xA4, 0xA6,
        0xD5, 0x80, 0x8D, 0x14, 0xAF,
    ];
    // Start, address, then each command behind the command prefix, then stop.
    assert_eq!(plan.len(), 2 + 2 * commands.len() + 1);
    assert_eq!(plan[0], BusStep::StartCond);
    assert_eq!(plan[1], BusStep::WriteByte(DISPLAY_ADDR_WRITE));
    for (k, &cmd) in commands.iter().enumerate() {
        assert_eq!(plan[2 + 2 * k], BusStep::WriteByte(0x00));
        assert_eq!(plan[2 + 2 * k + 1], BusStep::WriteByte(cmd));
    }
    assert_eq!(plan[plan.len() - 1], BusStep::StopCond);
}

#[test]
fn write_bytes_passes_payload_through_after_data_prefix() {
    let plan = write_bytes_plan(&vec![b'h', b'i']);
    assert_eq!(plan, data_frame(b"hi"));
}

#[test]
fn write_number_sends_decimal_digits() {
    assert_eq!(write_number_plan(408), data_frame(b"408"));
    assert_eq!(write_number_plan(0), data_frame(b"0"));
}

#[test]
fn set_position_issues_two_addressing_commands() {
    let plan = set_position_plan(5, 3);
    assert_eq!(plan, position_frame(5, 3));
}

#[test]
fn position_then_data_issues_addressing_frames_before_the_data_frame() {
    let mut traffic = set_position_plan(5, 3);
    traffic.extend(write_bytes_plan(&b"ok".to_vec()));
    let mut expected = position_frame(5, 3);
    expected.extend(data_frame(b"ok"));
    assert_eq!(traffic, expected);
}
