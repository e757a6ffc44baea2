use usb1020::common::{selector, Axis, CommandFamily, OneOrAllAxis};

const FAMILIES: [(CommandFamily, u8); 9] = [
    (CommandFamily::AxisStatus, 0x0f),
    (CommandFamily::ReadLogicalPosition, 0x10),
    (CommandFamily::ReadElectronicPosition, 0x11),
    (CommandFamily::ReadVelocity, 0x12),
    (CommandFamily::ReadAcceleration, 0x13),
    (CommandFamily::ReadPositionCounter, 0x14),
    (CommandFamily::WriteLogicalPosition, 0x09),
    (CommandFamily::WriteElectronicPosition, 0x0a),
    (CommandFamily::WriteAccelerationRate, 0x0e),
];

const AXES: [(OneOrAllAxis, u8); 5] = [
    (OneOrAllAxis::One(Axis::X), 0x01),
    (OneOrAllAxis::One(Axis::Y), 0x02),
    (OneOrAllAxis::One(Axis::Z), 0x04),
    (OneOrAllAxis::One(Axis::U), 0x08),
    (OneOrAllAxis::All, 0x0f),
];

#[test]
fn axis_status_selectors() {
    assert_eq!(Axis::X.as_data(), 0x010f);
    assert_eq!(Axis::Y.as_data(), 0x020f);
    assert_eq!(Axis::Z.as_data(), 0x040f);
    assert_eq!(Axis::U.as_data(), 0x080f);
}

#[test]
fn every_selector_of_the_table() {
    for (axis, mask) in AXES {
        assert_eq!(axis.mask(), mask);
        for (family, low) in FAMILIES {
            assert_eq!(family.low_byte(), low);
            let value = selector(axis, family);
            assert_eq!(value, ((mask as u16) << 8) | low as u16);
            assert_eq!(value.to_be_bytes(), [mask, low]);
        }
    }
}

#[test]
fn selectors_written_out() {
    let x = OneOrAllAxis::One(Axis::X);
    let u = OneOrAllAxis::One(Axis::U);
    assert_eq!(selector(x, CommandFamily::ReadPositionCounter), 0x0114);
    assert_eq!(selector(x, CommandFamily::ReadAcceleration), 0x0113);
    assert_eq!(selector(x, CommandFamily::ReadVelocity), 0x0112);
    assert_eq!(selector(x, CommandFamily::ReadElectronicPosition), 0x0111);
    assert_eq!(selector(x, CommandFamily::ReadLogicalPosition), 0x0110);
    assert_eq!(selector(u, CommandFamily::ReadPositionCounter), 0x0814);
    assert_eq!(selector(u, CommandFamily::WriteLogicalPosition), 0x0809);
    assert_eq!(selector(u, CommandFamily::WriteElectronicPosition), 0x080a);
    assert_eq!(selector(u, CommandFamily::WriteAccelerationRate), 0x080e);
    assert_eq!(selector(OneOrAllAxis::One(Axis::Y), CommandFamily::AxisStatus), 0x020f);
    assert_eq!(selector(OneOrAllAxis::One(Axis::Z), CommandFamily::ReadVelocity), 0x0412);
}

#[test]
fn all_axes_have_0x0f_in_the_high_byte() {
    for (family, low) in FAMILIES {
        let value = selector(OneOrAllAxis::All, family);
        assert_eq!(value >> 8, 0x0f);
        assert_eq!(value & 0xff, low as u16);
    }
    assert_eq!(selector(OneOrAllAxis::All, CommandFamily::WriteLogicalPosition), 0x0f09);
    assert_eq!(selector(OneOrAllAxis::All, CommandFamily::WriteElectronicPosition), 0x0f0a);
    assert_eq!(selector(OneOrAllAxis::All, CommandFamily::WriteAccelerationRate), 0x0f0e);
    assert_eq!(selector(OneOrAllAxis::All, CommandFamily::AxisStatus), 0x0f0f);
}

#[test]
fn an_axis_alone_has_its_own_bit() {
    assert_eq!(Axis::X.mask(), 0x01);
    assert_eq!(Axis::Y.mask(), 0x02);
    assert_eq!(Axis::Z.mask(), 0x04);
    assert_eq!(Axis::U.mask(), 0x08);
    for axis in [Axis::X, Axis::Y, Axis::Z, Axis::U] {
        assert_eq!(
            axis.as_data(),
            selector(OneOrAllAxis::One(axis), CommandFamily::AxisStatus)
        );
    }
}
