use usb1020::common::{CounterType, InputMode};
use usb1020::register::{
    Alarm, AutoHomeSearchStep, AxisExternalSignal, DecodeError, Enumerated, InPos, PulseBitFiled,
    RR0, RR1, RR2, RR3, RR4, RR5,
};

const STEP_IDS: [u8; 7] = [0, 3, 8, 12, 15, 20, 25];

fn all_signals(level: bool) -> AxisExternalSignal {
    AxisExternalSignal {
        in0: level,
        in1: level,
        in2: level,
        in3: level,
        p_p: level,
        p_m: level,
        in_position: level,
        servo_alarm: level,
    }
}

fn step_id(first: u8, second: u8) -> u8 {
    ((first & 0x01) << 4) | (second >> 4)
}

#[test]
fn register_parse() {
    assert_eq!(
        RR0::try_from([0x00, 0x80].as_ref()).unwrap(),
        RR0 {
            x_drv: false,
            y_drv: false,
            z_drv: false,
            u_drv: false,
            x_error: false,
            y_error: false,
            z_error: false,
            u_error: false,
            i_drv: true,
            c_next: false,
            zone: 0,
            bit_interpolate_stack_counter: 0,
        }
    );
    assert_eq!(
        RR1::try_from([0x01, 0x00].as_ref()).unwrap(),
        RR1 {
            comp_plus: false,
            comp_minus: false,
            v_ascending: false,
            v_const: false,
            v_descending: false,
            a_ascending: false,
            a_const: false,
            a_descending: true,
            in0: false,
            in1: false,
            in2: false,
            in3: false,
            limit_plus: false,
            limit_minus: false,
            servo_alarm: false,
            emergency: false,
        }
    );
    assert_eq!(
        RR2::try_from([0x00, 0x00].as_ref()).unwrap(),
        RR2 {
            software_limit_plus: false,
            software_limit_minus: false,
            hardware_limit_plus: false,
            hardware_limit_minus: false,
            servo_alarm: false,
            emergency: false,
            home_error: false,
            home_step: AutoHomeSearchStep::Step0,
        }
    );
    assert_eq!(
        RR4::try_from([0xff, 0xff].as_ref()).unwrap(),
        RR4 {
            z: AxisExternalSignal {
                in0: true,
                in1: true,
                in2: true,
                in3: true,
                p_p: true,
                p_m: true,
                in_position: true,
                servo_alarm: true,
            },
            u: AxisExternalSignal {
                in0: true,
                in1: true,
                in2: true,
                in3: true,
                p_p: true,
                p_m: true,
                in_position: true,
                servo_alarm: true,
            },
        }
    );
}

#[test]
fn rr0_fields_sit_where_the_layout_says() {
    let v = RR0::try_from(&[0b1010_0101, 0b0110_1101][..]).unwrap();
    assert_eq!(
        v,
        RR0 {
            x_drv: true,
            y_drv: false,
            z_drv: true,
            u_drv: false,
            x_error: false,
            y_error: true,
            z_error: false,
            u_error: true,
            i_drv: false,
            c_next: true,
            zone: 0b101,
            bit_interpolate_stack_counter: 0b10,
        }
    );
    assert_eq!(v.to_bytes(), vec![0b1010_0101, 0b0110_1100]);
}

#[test]
fn rr0_round_trips_over_every_word() {
    for word in 0..=u16::MAX {
        let bytes = word.to_be_bytes();
        let v = RR0::try_from(&bytes[..]).unwrap();
        assert!(v.zone < 8 && v.bit_interpolate_stack_counter < 4);
        assert_eq!(v, RR0::from_bytes(bytes[0], bytes[1]));
        assert_eq!(v.zone, (bytes[1] >> 3) & 7);
        assert_eq!(v.bit_interpolate_stack_counter, (bytes[1] >> 1) & 3);
        let encoded = v.to_bytes();
        assert_eq!(encoded, vec![bytes[0], bytes[1] & 0xfe]);
        assert_eq!(encoded, vec![v.first(), v.second()]);
        assert_eq!(RR0::try_from(&encoded[..]), Ok(v));
    }
}

#[test]
fn rr0_encodes_the_low_bits_of_a_number_that_does_not_fit() {
    let v = RR0 {
        x_drv: false,
        y_drv: false,
        z_drv: false,
        u_drv: false,
        x_error: false,
        y_error: false,
        z_error: false,
        u_error: false,
        i_drv: false,
        c_next: false,
        zone: 9,
        bit_interpolate_stack_counter: 7,
    };
    let bytes = v.to_bytes();
    assert_eq!(bytes, vec![0x00, 0b0000_1110]);
    let back = RR0::try_from(&bytes[..]).unwrap();
    assert_eq!(back.zone, 1);
    assert_eq!(back.bit_interpolate_stack_counter, 3);
}

#[test]
fn rr1_round_trips_over_every_word() {
    for word in 0..=u16::MAX {
        let bytes = word.to_be_bytes();
        let v = RR1::try_from(&bytes[..]).unwrap();
        assert_eq!(v.comp_plus, word & 0x8000 != 0);
        assert_eq!(v.a_descending, word & 0x0100 != 0);
        assert_eq!(v.in0, word & 0x0080 != 0);
        assert_eq!(v.limit_plus, word & 0x0008 != 0);
        assert_eq!(v.emergency, word & 0x0001 != 0);
        assert_eq!(v.to_bytes(), bytes.to_vec());
        assert_eq!(RR1::try_from(&v.to_bytes()[..]), Ok(v));
    }
}

#[test]
fn rr1_single_bits() {
    let names: [fn(&RR1) -> bool; 16] = [
        |v| v.comp_plus,
        |v| v.comp_minus,
        |v| v.v_ascending,
        |v| v.v_const,
        |v| v.v_descending,
        |v| v.a_ascending,
        |v| v.a_const,
        |v| v.a_descending,
        |v| v.in0,
        |v| v.in1,
        |v| v.in2,
        |v| v.in3,
        |v| v.limit_plus,
        |v| v.limit_minus,
        |v| v.servo_alarm,
        |v| v.emergency,
    ];
    for (place, _) in names.iter().enumerate() {
        let word: u16 = 0x8000 >> place;
        let v = RR1::try_from(&word.to_be_bytes()[..]).unwrap();
        for (other, get) in names.iter().enumerate() {
            assert_eq!(get(&v), other == place);
        }
    }
}

#[test]
fn rr2_accepts_the_declared_steps_only() {
    for word in 0..=u16::MAX {
        let bytes = word.to_be_bytes();
        let id = step_id(bytes[0], bytes[1]);
        let decoded = RR2::try_from(&bytes[..]);
        if STEP_IDS.contains(&id) {
            let v = decoded.unwrap();
            assert_eq!(v.home_step.id(), id);
            assert_eq!(v.software_limit_plus, bytes[0] & 0x80 != 0);
            assert_eq!(v.home_error, bytes[0] & 0x02 != 0);
            let encoded = v.to_bytes();
            assert_eq!(encoded, vec![bytes[0], bytes[1] & 0xf0]);
            assert_eq!(RR2::try_from(&encoded[..]), Ok(v));
        } else {
            assert_eq!(
                decoded,
                Err(DecodeError::UnknownId(Enumerated::AutoHomeSearchStep, id))
            );
        }
    }
}

#[test]
fn rr2_refuses_steps_1_2_and_4() {
    assert_eq!(
        RR2::try_from(&[0x00, 0x10][..]),
        Err(DecodeError::UnknownId(Enumerated::AutoHomeSearchStep, 1))
    );
    assert_eq!(
        RR2::try_from(&[0x00, 0x20][..]),
        Err(DecodeError::UnknownId(Enumerated::AutoHomeSearchStep, 2))
    );
    assert_eq!(
        RR2::try_from(&[0x00, 0x40][..]),
        Err(DecodeError::UnknownId(Enumerated::AutoHomeSearchStep, 4))
    );
    assert_eq!(
        RR2::try_from(&[0x01, 0xf0][..]),
        Err(DecodeError::UnknownId(Enumerated::AutoHomeSearchStep, 31))
    );
}

#[test]
fn rr2_steps_on_the_wire() {
    let steps = [
        (AutoHomeSearchStep::Step0, [0x00, 0x00]),
        (AutoHomeSearchStep::Step3, [0x00, 0x30]),
        (AutoHomeSearchStep::Step8, [0x00, 0x80]),
        (AutoHomeSearchStep::Step12, [0x00, 0xc0]),
        (AutoHomeSearchStep::Step15, [0x00, 0xf0]),
        (AutoHomeSearchStep::Step20, [0x01, 0x40]),
        (AutoHomeSearchStep::Step25, [0x01, 0x90]),
    ];
    for (step, bytes) in steps {
        let v = RR2 {
            software_limit_plus: false,
            software_limit_minus: false,
            hardware_limit_plus: false,
            hardware_limit_minus: false,
            servo_alarm: false,
            emergency: false,
            home_error: false,
            home_step: step,
        };
        assert_eq!(v.to_bytes(), bytes.to_vec());
        assert_eq!(RR2::try_from(&bytes[..]), Ok(v));
    }
}

#[test]
fn step_ids() {
    for id in 0..=u8::MAX {
        match AutoHomeSearchStep::from_id(id) {
            Some(step) => {
                assert!(STEP_IDS.contains(&id));
                assert_eq!(step.id(), id);
            }
            None => assert!(!STEP_IDS.contains(&id)),
        }
    }
    assert_eq!(AutoHomeSearchStep::from_id(12), Some(AutoHomeSearchStep::Step12));
    assert_eq!(AutoHomeSearchStep::Step25.id(), 25);
}

#[test]
fn small_enum_ids() {
    for id in 0..=u8::MAX {
        assert_eq!(Alarm::from_id(id).is_some(), id == 0 || id == 2 || id == 3);
        assert_eq!(InPos::from_id(id).is_some(), id == 0 || id == 2 || id == 3);
        assert_eq!(CounterType::from_id(id).is_some(), id <= 1);
        assert_eq!(InputMode::from_id(id).is_some(), id <= 1);
        if let Some(v) = Alarm::from_id(id) {
            assert_eq!(v.id(), id);
        }
        if let Some(v) = InPos::from_id(id) {
            assert_eq!(v.id(), id);
        }
        if let Some(v) = CounterType::from_id(id) {
            assert_eq!(v.id(), id);
        }
        if let Some(v) = InputMode::from_id(id) {
            assert_eq!(v.id(), id);
        }
    }
    assert_eq!(Alarm::from_id(2), Some(Alarm::Enable));
    assert_eq!(Alarm::from_id(3), Some(Alarm::EnableWithLog));
    assert_eq!(InPos::from_id(0), Some(InPos::Disable));
    assert_eq!(CounterType::from_id(1), Some(CounterType::Fact));
    assert_eq!(InputMode::from_id(1), Some(InputMode::UpDownPulse));
}

#[test]
fn rr3_and_rr4_hold_one_axis_in_each_byte() {
    for word in 0..=u16::MAX {
        let bytes = word.to_be_bytes();
        let xy = RR3::try_from(&bytes[..]).unwrap();
        let zu = RR4::try_from(&bytes[..]).unwrap();
        assert_eq!(xy.x, AxisExternalSignal::from_byte(bytes[0]));
        assert_eq!(xy.y, AxisExternalSignal::from_byte(bytes[1]));
        assert_eq!(zu.z, xy.x);
        assert_eq!(zu.u, xy.y);
        assert_eq!(xy.to_bytes(), bytes.to_vec());
        assert_eq!(zu.to_bytes(), bytes.to_vec());
    }
}

#[test]
fn rr4_with_every_bit_set() {
    let v = RR4::try_from(&[0xff, 0xff][..]).unwrap();
    assert_eq!(v, RR4 { z: all_signals(true), u: all_signals(true) });
    let v = RR3::try_from(&[0x00, 0xff][..]).unwrap();
    assert_eq!(v, RR3 { x: all_signals(false), y: all_signals(true) });
}

#[test]
fn axis_signals_byte_by_byte() {
    for byte in 0..=u8::MAX {
        let v = AxisExternalSignal::from_byte(byte);
        assert_eq!(v.in0, byte & 0x80 != 0);
        assert_eq!(v.in1, byte & 0x40 != 0);
        assert_eq!(v.in2, byte & 0x20 != 0);
        assert_eq!(v.in3, byte & 0x10 != 0);
        assert_eq!(v.p_p, byte & 0x08 != 0);
        assert_eq!(v.p_m, byte & 0x04 != 0);
        assert_eq!(v.in_position, byte & 0x02 != 0);
        assert_eq!(v.servo_alarm, byte & 0x01 != 0);
        assert_eq!(v.byte(), byte);
    }
}

#[test]
fn rr5_round_trips_over_every_word() {
    for word in 0..=u16::MAX {
        let bytes = word.to_be_bytes();
        let v = RR5::try_from(&bytes[..]).unwrap();
        assert_eq!(v.pulse, word & 0x8000 != 0);
        assert_eq!(v.p_bigger_than_comp_minus, word & 0x4000 != 0);
        assert_eq!(v.p_s_c_m, word & 0x2000 != 0);
        assert_eq!(v.p_s_c_p, word & 0x1000 != 0);
        assert_eq!(v.p_b_c_p, word & 0x0800 != 0);
        assert_eq!(v.c_dec, word & 0x0400 != 0);
        assert_eq!(v.const_start, word & 0x0200 != 0);
        assert_eq!(v.drive_end, word & 0x0100 != 0);
        assert_eq!(v.home_end, word & 0x0080 != 0);
        let encoded = v.to_bytes();
        assert_eq!(encoded, vec![bytes[0], bytes[1] & 0x80]);
        assert_eq!(RR5::try_from(&encoded[..]), Ok(v));
    }
}

#[test]
fn pulse_configuration_over_every_word() {
    for word in 0..=u16::MAX {
        let bytes = word.to_be_bytes();
        let alarm = (bytes[1] >> 2) & 3;
        let inpos = bytes[1] & 3;
        let decoded = PulseBitFiled::try_from(&bytes[..]);
        if alarm == 1 {
            assert_eq!(decoded, Err(DecodeError::UnknownId(Enumerated::Alarm, 1)));
        } else if inpos == 1 {
            assert_eq!(decoded, Err(DecodeError::UnknownId(Enumerated::InPos, 1)));
        } else {
            let v = decoded.unwrap();
            assert_eq!(v.p_dir_sw_lmt, bytes[0] & 0x80 != 0);
            assert_eq!(v.m_dir_sw_lmt, bytes[0] & 0x40 != 0);
            assert_eq!(v.stop_mode, bytes[0] & 0x20 != 0);
            assert_eq!(v.p_log_lever, bytes[0] & 0x10 != 0);
            assert_eq!(v.m_log_lever, bytes[0] & 0x08 != 0);
            assert_eq!(v.lp_ep.id(), (bytes[0] >> 2) & 1);
            assert_eq!(v.output_mode, bytes[0] & 0x02 != 0);
            assert_eq!(v._t, bytes[0] & 0x01 != 0);
            assert_eq!(v._r, bytes[1] & 0x80 != 0);
            assert_eq!(v.input_mode.id(), (bytes[1] >> 6) & 1);
            assert_eq!(v.alarm.id(), alarm);
            assert_eq!(v.inpos.id(), inpos);
            let encoded = v.to_bytes();
            assert_eq!(encoded, vec![bytes[0], bytes[1] & 0xcf]);
            assert_eq!(PulseBitFiled::try_from(&encoded[..]), Ok(v));
        }
    }
}

#[test]
fn pulse_configuration_example() {
    let v = PulseBitFiled {
        p_dir_sw_lmt: true,
        m_dir_sw_lmt: false,
        stop_mode: false,
        p_log_lever: true,
        m_log_lever: false,
        lp_ep: CounterType::Fact,
        output_mode: false,
        _t: true,
        _r: true,
        input_mode: InputMode::UpDownPulse,
        alarm: Alarm::Enable,
        inpos: InPos::EnableWithLog,
    };
    assert_eq!(v.to_bytes(), vec![0b1001_0101, 0b1100_1011]);
    assert_eq!(PulseBitFiled::try_from(&[0b1001_0101, 0b1100_1011][..]), Ok(v));
    assert_eq!(PulseBitFiled::try_from(&[0b1001_0101, 0b1111_1011][..]), Ok(v));
}

#[test]
fn pulse_configuration_refuses_alarm_and_inpos_id_1() {
    assert_eq!(
        PulseBitFiled::try_from(&[0x00, 0x04][..]),
        Err(DecodeError::UnknownId(Enumerated::Alarm, 1))
    );
    assert_eq!(
        PulseBitFiled::try_from(&[0x00, 0x01][..]),
        Err(DecodeError::UnknownId(Enumerated::InPos, 1))
    );
    assert_eq!(
        PulseBitFiled::try_from(&[0x00, 0x05][..]),
        Err(DecodeError::UnknownId(Enumerated::Alarm, 1))
    );
    assert!(PulseBitFiled::try_from(&[0x00, 0x08][..]).is_ok());
    assert!(PulseBitFiled::try_from(&[0x00, 0x02][..]).is_ok());
}

#[test]
fn a_buffer_of_the_wrong_length_is_refused() {
    assert_eq!(RR0::try_from(&[][..]), Err(DecodeError::Incomplete(1)));
    assert_eq!(RR0::try_from(&[0x00][..]), Err(DecodeError::Incomplete(1)));
    assert_eq!(RR0::try_from(&[0x00, 0x80, 0x00][..]), Err(DecodeError::TooMuchData));
    assert_eq!(RR1::try_from(&[0x00][..]), Err(DecodeError::Incomplete(1)));
    assert_eq!(RR1::try_from(&[0; 8][..]), Err(DecodeError::TooMuchData));
    assert_eq!(RR2::try_from(&[0x00][..]), Err(DecodeError::Incomplete(5)));
    assert_eq!(RR2::try_from(&[][..]), Err(DecodeError::Incomplete(1)));
    assert_eq!(RR2::try_from(&[0x00, 0x00, 0x00][..]), Err(DecodeError::TooMuchData));
    assert_eq!(RR3::try_from(&[0xff][..]), Err(DecodeError::Incomplete(1)));
    assert_eq!(RR3::try_from(&[0xff, 0xff, 0xff][..]), Err(DecodeError::TooMuchData));
    assert_eq!(RR4::try_from(&[][..]), Err(DecodeError::Incomplete(1)));
    assert_eq!(RR4::try_from(&[0xff, 0xff, 0xff][..]), Err(DecodeError::TooMuchData));
    assert_eq!(RR5::try_from(&[0x00][..]), Err(DecodeError::Incomplete(1)));
    assert_eq!(RR5::try_from(&[0x00, 0x00, 0x00][..]), Err(DecodeError::TooMuchData));
    assert_eq!(PulseBitFiled::try_from(&[0x00][..]), Err(DecodeError::Incomplete(1)));
    assert_eq!(PulseBitFiled::try_from(&[0x00, 0x00, 0x00][..]), Err(DecodeError::TooMuchData));
}

#[test]
fn an_undeclared_id_is_found_before_bytes_left_over() {
    assert_eq!(
        RR2::try_from(&[0x00, 0x10, 0x00][..]),
        Err(DecodeError::UnknownId(Enumerated::AutoHomeSearchStep, 1))
    );
    assert_eq!(
        PulseBitFiled::try_from(&[0x00, 0x05, 0x00][..]),
        Err(DecodeError::UnknownId(Enumerated::Alarm, 1))
    );
    assert_eq!(RR2::try_from(&[0x00][..]), Err(DecodeError::Incomplete(5)));
}

#[test]
fn reserved_bits_are_ignored_and_written_as_zero() {
    for reserved in 0..=0x0fu8 {
        assert_eq!(RR2::try_from(&[0x02, 0x30 | reserved][..]), RR2::try_from(&[0x02, 0x30][..]));
    }
    for reserved in 0..=0x7fu8 {
        assert_eq!(RR5::try_from(&[0xff, 0x80 | reserved][..]), RR5::try_from(&[0xff, 0x80][..]));
        assert_eq!(RR5::try_from(&[0x00, reserved][..]), RR5::try_from(&[0x00, 0x00][..]));
    }
    assert_eq!(RR0::try_from(&[0x12, 0x35][..]), RR0::try_from(&[0x12, 0x34][..]));
    assert_eq!(RR0::try_from(&[0x12, 0x35][..]).unwrap().to_bytes(), vec![0x12, 0x34]);
    assert_eq!(RR2::try_from(&[0x02, 0x3f][..]).unwrap().to_bytes(), vec![0x02, 0x30]);
    assert_eq!(RR5::try_from(&[0xff, 0xff][..]).unwrap().to_bytes(), vec![0xff, 0x80]);
}

#[test]
fn rr5_has_nine_flags_and_seven_reserved_bits() {
    let none = RR5 {
        pulse: false,
        p_bigger_than_comp_minus: false,
        p_s_c_m: false,
        p_s_c_p: false,
        p_b_c_p: false,
        c_dec: false,
        const_start: false,
        drive_end: false,
        home_end: false,
    };
    assert_eq!(RR5::try_from(&[0x00, 0x40][..]), Ok(none));
    assert_eq!(RR5::try_from(&[0x00, 0x7f][..]), Ok(none));
    assert_eq!(RR5::try_from(&[0x00, 0x80][..]), Ok(RR5 { home_end: true, ..none }));
    assert_eq!(RR5::try_from(&[0x01, 0x00][..]), Ok(RR5 { drive_end: true, ..none }));
    assert_eq!(RR5::try_from(&[0x80, 0x00][..]), Ok(RR5 { pulse: true, ..none }));
    assert_eq!(RR5 { home_end: true, ..none }.to_bytes(), vec![0x00, 0x80]);
    assert_eq!(none.to_bytes(), vec![0x00, 0x00]);
}
