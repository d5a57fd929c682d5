use rasp_rover::bus::{BusRegistry, DeviceProxy, SharedBus, WireOp};
use rasp_rover::display::DisplayState;
use rasp_rover::freq::highest_freq_in_band;
use rasp_rover::imu::{AccRange, GyrRange, ImuConfig};
use rasp_rover::net::{NetAddress, fmt_octet, format_ip_line};

#[test]
fn frequency_picks_highest_in_band() {
    assert_eq!(highest_freq_in_band(&vec![100, 250, 400, 1000]), Some(400));
}

#[test]
fn frequency_band_bounds_are_inclusive() {
    assert_eq!(highest_freq_in_band(&vec![100]), Some(100));
    assert_eq!(highest_freq_in_band(&vec![400]), Some(400));
    assert_eq!(highest_freq_in_band(&vec![99, 401]), None);
}

#[test]
fn frequency_none_when_no_candidates() {
    assert_eq!(highest_freq_in_band(&vec![]), None);
}

#[test]
fn frequency_order_of_candidates_does_not_matter() {
    assert_eq!(highest_freq_in_band(&vec![400, 100, 250]), Some(400));
    assert_eq!(highest_freq_in_band(&vec![250, 400, 100]), Some(400));
}

#[test]
fn registry_init_configures_once() {
    let mut reg = BusRegistry::new();
    reg.init(&vec![100, 250, 400, 1000]);
    assert_eq!(reg.get().freq_khz(), 400);
}

#[test]
fn registry_second_init_is_a_no_op() {
    let mut reg = BusRegistry::new();
    reg.init(&vec![100, 250, 400]);
    reg.init(&vec![100]);
    assert_eq!(reg.get().freq_khz(), 400);
}

#[test]
fn registry_init_with_no_in_band_candidate_stores_nothing_then_configures() {
    let mut reg = BusRegistry::new();
    reg.init(&vec![50, 1000]);
    reg.init(&vec![100, 250]);
    assert_eq!(reg.get().freq_khz(), 250);
}

#[test]
fn transactions_never_interleave_on_the_wire() {
    let mut bus = SharedBus::new(400);
    let display = DeviceProxy::new(0x3C);
    let imu = DeviceProxy::new(0x68);

    display.write(&mut bus, &vec![0xAE, 0xD5]);
    imu.write_read(&mut bus, &vec![0x2D], 6);
    display.write(&mut bus, &vec![0xAF]);
    imu.read(&mut bus, 2);

    let wire = bus.wire_events();
    assert_eq!(wire.len(), 2 + 7 + 1 + 2);

    // Each transaction's span is contiguous: the device tag changes at most
    // once between neighbouring slots of one span.
    let devices: Vec<u8> = wire.iter().map(|ev| ev.device).collect();
    assert_eq!(
        devices,
        vec![0x3C, 0x3C, 0x68, 0x68, 0x68, 0x68, 0x68, 0x68, 0x68, 0x3C, 0x68, 0x68]
    );
}

#[test]
fn flush_crosses_the_bus_as_one_span() {
    let mut bus = SharedBus::new(400);
    let panel = DeviceProxy::new(0x3C);
    let other = DeviceProxy::new(0x68);
    let mut d = DisplayState::new();
    d.draw_line(&b"ab".to_vec(), 0);
    d.draw_line(&b"c".to_vec(), 1);

    other.write(&mut bus, &vec![0x11]);
    d.flush_over(&panel, &mut bus);
    other.write(&mut bus, &vec![0x22]);

    assert_eq!(d.shown_line(0).as_slice(), b"ab");
    assert_eq!(d.shown_line(1).as_slice(), b"c");
    let wire = bus.wire_events();
    assert_eq!(wire.len(), 5);
    let devices: Vec<u8> = wire.iter().map(|ev| ev.device).collect();
    assert_eq!(devices, vec![0x68, 0x3C, 0x3C, 0x3C, 0x68]);
    assert_eq!(wire[1].op, WireOp::WriteByte(b'a'));
    assert_eq!(wire[2].op, WireOp::WriteByte(b'b'));
    assert_eq!(wire[3].op, WireOp::WriteByte(b'c'));
}

#[test]
fn write_read_is_one_span() {
    let mut bus = SharedBus::new(100);
    let imu = DeviceProxy::new(0x68);
    imu.write_read(&mut bus, &vec![0x00], 1);
    let wire = bus.wire_events();
    assert_eq!(wire.len(), 2);
    assert_eq!(wire[0].device, 0x68);
    assert_eq!(wire[0].op, WireOp::WriteByte(0x00));
    assert_eq!(wire[1].device, 0x68);
    assert_eq!(wire[1].op, WireOp::ReadSlot);
}

#[test]
fn display_draws_only_into_the_buffer() {
    let mut d = DisplayState::new();
    d.draw_line(&b"hello".to_vec(), 0);
    assert_eq!(d.buffered_line(0).as_slice(), b"hello");
    assert_eq!(d.shown_line(0).as_slice(), b"");
    d.flush();
    assert_eq!(d.shown_line(0).as_slice(), b"hello");
}

#[test]
fn display_clear_leaves_the_panel_until_flush() {
    let mut d = DisplayState::new();
    d.draw_line(&b"one".to_vec(), 0);
    d.draw_line(&b"two".to_vec(), 1);
    d.flush();
    d.clear();
    assert_eq!(d.shown_line(0).as_slice(), b"one");
    assert_eq!(d.shown_line(1).as_slice(), b"two");
    d.flush();
    assert_eq!(d.shown_line(0).as_slice(), b"");
    assert_eq!(d.shown_line(1).as_slice(), b"");
}

#[test]
fn render_two_lines_leaves_no_residual_content() {
    let mut d = DisplayState::new();
    d.draw_line(&b"old top".to_vec(), 0);
    d.draw_line(&b"old bottom".to_vec(), 1);
    d.render_two_lines(&b"ver".to_vec(), &b"status".to_vec());
    assert_eq!(d.buffered_line(0).as_slice(), b"ver");
    assert_eq!(d.buffered_line(1).as_slice(), b"status");
}

#[test]
fn octets_format_in_plain_decimal() {
    assert_eq!(fmt_octet(0).as_slice(), b"0");
    assert_eq!(fmt_octet(7).as_slice(), b"7");
    assert_eq!(fmt_octet(10).as_slice(), b"10");
    assert_eq!(fmt_octet(42).as_slice(), b"42");
    assert_eq!(fmt_octet(100).as_slice(), b"100");
    assert_eq!(fmt_octet(255).as_slice(), b"255");
}

#[test]
fn address_line_is_exact() {
    let a = NetAddress { o0: 192, o1: 168, o2: 1, o3: 42 };
    assert_eq!(format_ip_line(&a).as_slice(), b"IP: 192.168.1.42");
    let b = NetAddress { o0: 10, o1: 0, o2: 0, o3: 255 };
    assert_eq!(format_ip_line(&b).as_slice(), b"IP: 10.0.0.255");
}

#[test]
fn imu_config_builder_sets_each_field() {
    let cfg = ImuConfig::new()
        .set_address(0x68)
        .acc_range(AccRange::Gs8)
        .gyr_range(GyrRange::Dps500);
    assert_eq!(cfg.address, 0x68);
    assert_eq!(cfg.acc_range, AccRange::Gs8);
    assert_eq!(cfg.gyr_range, GyrRange::Dps500);
}
