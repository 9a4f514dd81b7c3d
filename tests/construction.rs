use ad9361::{
    construction_step, failure_of, lane_lookup, lane_step, lo_step, ChannelId, DevicePart, Error, LanePart, Lookup,
    CONSTRUCTION_STEPS,
};

#[test]
fn control_device_is_resolved_first() {
    assert_eq!(construction_step(0), Lookup::Device(DevicePart::Phy));
    match failure_of(&construction_step(0)) {
        Error::NoSuchDevice(p) => assert_eq!(p, DevicePart::Phy),
        other => panic!("unexpected {:?}", other),
    }
}

#[test]
fn devices_before_channels() {
    assert_eq!(construction_step(1), Lookup::Device(DevicePart::Lpc));
    assert_eq!(construction_step(2), Lookup::Device(DevicePart::Dds));
    for k in 3..CONSTRUCTION_STEPS {
        assert!(matches!(construction_step(k), Lookup::Channel { .. }));
        assert!(matches!(failure_of(&construction_step(k)), Error::NoChannelOnDevice));
    }
}

#[test]
fn oscillator_channels_follow_devices() {
    let lo = |n| Lookup::Channel { device: DevicePart::Phy, id: ChannelId::AltVoltage(n), output: true };
    assert_eq!(construction_step(3), lo(0));
    assert_eq!(construction_step(4), lo(1));
}

#[test]
fn receive_lanes_then_transmit_lanes() {
    let ch = |device, n, output| Lookup::Channel { device, id: ChannelId::Voltage(n), output };
    let expected = [
        ch(DevicePart::Lpc, 0, false),
        ch(DevicePart::Lpc, 1, false),
        ch(DevicePart::Phy, 0, false),
        ch(DevicePart::Lpc, 2, false),
        ch(DevicePart::Lpc, 3, false),
        ch(DevicePart::Phy, 1, false),
        ch(DevicePart::Dds, 0, true),
        ch(DevicePart::Dds, 1, true),
        ch(DevicePart::Phy, 0, true),
        ch(DevicePart::Dds, 2, true),
        ch(DevicePart::Dds, 3, true),
        ch(DevicePart::Phy, 1, true),
    ];
    for (k, e) in expected.iter().enumerate() {
        assert_eq!(construction_step(k + 5), *e);
    }
}

#[test]
fn lane_channel_numbering() {
    let l = lane_lookup(LanePart::Q, 1, true);
    assert_eq!(l, Lookup::Channel { device: DevicePart::Dds, id: ChannelId::Voltage(3), output: true });
    let l = lane_lookup(LanePart::Control, 1, false);
    assert_eq!(l, Lookup::Channel { device: DevicePart::Phy, id: ChannelId::Voltage(1), output: false });
}

#[test]
fn device_names() {
    assert_eq!(DevicePart::Phy.name(), "ad9361-phy");
    assert_eq!(DevicePart::Lpc.name(), "cf-ad9361-lpc");
    assert_eq!(DevicePart::Dds.name(), "cf-ad9361-dds-core-lpc");
}

#[test]
fn step_indices_point_at_their_lookups() {
    for output in [false, true] {
        for lane in 0..2 {
            for part in [LanePart::I, LanePart::Q, LanePart::Control] {
                let k = lane_step(part, lane, output);
                assert!(k < CONSTRUCTION_STEPS);
                assert_eq!(construction_step(k), lane_lookup(part, lane, output));
            }
        }
    }
    assert_eq!(lane_step(LanePart::Control, 1, true), 16);
    assert_eq!(lane_step(LanePart::I, 0, false), 5);
    assert_eq!(lo_step(false), 3);
    assert_eq!(lo_step(true), 4);
}
