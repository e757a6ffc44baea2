use usb1020::common::{Axis, OneOrAllAxis};
use usb1020::register::{
    AutoHomeSearchStep, AxisExternalSignal, DecodeError, Enumerated, RR0, RR1, RR2, RR3, RR4, RR5,
};
use usb1020::transport::{Endpoint, Event, Transfer, TransportError};
use usb1020::{
    Acquisition, Error, Step, USB1020Controller, CONFIGURATION, INTERFACE, INTERRUPT_ACK,
    PRODUCT_ID, PULSE_DEFAULT, USB_TIMEOUT_MS, VENDOR_ID,
};

/// What a transfer is, with the frame read down to what it carries.
#[derive(Debug, PartialEq, Eq, Clone, Copy)]
enum Call {
    Command(u8),
    Data(u16),
    Status,
}

fn call(transfer: &Transfer) -> Call {
    match transfer {
        Transfer::Write { endpoint: Endpoint::CommandOut, frame } => {
            assert!(frame[1..].iter().all(|byte| *byte == 0));
            Call::Command(frame[0])
        }
        Transfer::Write { endpoint: Endpoint::DataOut, frame } => {
            assert!(frame[2..].iter().all(|byte| *byte == 0));
            Call::Data(u16::from_le_bytes([frame[0], frame[1]]))
        }
        Transfer::Read { endpoint: Endpoint::StatusIn } => Call::Status,
        other => panic!("no operation asks for {:?}", other),
    }
}

/// The calls of one write to a pipe.
fn write(pipe: u8, data: u16) -> Vec<Call> {
    vec![Call::Command(pipe), Call::Data(data)]
}

/// The calls of one pull of a register.
fn pull(register: u8) -> Vec<Call> {
    vec![Call::Command(register), Call::Status, Call::Status]
}

/// A transport that records every call and answers the reads in turn with
/// the given payloads. After the payloads it answers with `0xee` bytes.
fn drive<T>(
    operation: impl Fn(&[Event]) -> Step<T>,
    payloads: &[[u8; 8]],
) -> (Vec<Call>, Result<T, Error>) {
    let mut calls = Vec::new();
    let mut events = Vec::new();
    let mut reads = 0;
    loop {
        match operation(&events) {
            Step::Transfer(transfer) => {
                assert!(calls.len() < 100, "the operation does not end");
                calls.push(call(&transfer));
                events.push(match transfer {
                    Transfer::Write { .. } => Event::Written,
                    Transfer::Read { .. } => {
                        reads += 1;
                        Event::Received(*payloads.get(reads - 1).unwrap_or(&[0xee; 8]))
                    }
                });
            }
            Step::Finished(result) => return (calls, result),
        }
    }
}

/// A transport on which the transfer number `broken` fails.
fn drive_until<T>(
    operation: impl Fn(&[Event]) -> Step<T>,
    broken: usize,
    error: TransportError,
) -> (Vec<Call>, Result<T, Error>) {
    let mut calls = Vec::new();
    let mut events = Vec::new();
    loop {
        match operation(&events) {
            Step::Transfer(transfer) => {
                assert!(calls.len() < 100, "the operation does not end");
                calls.push(call(&transfer));
                events.push(if events.len() == broken {
                    Event::Failed(error)
                } else {
                    match transfer {
                        Transfer::Write { .. } => Event::Written,
                        Transfer::Read { .. } => Event::Received([0; 8]),
                    }
                });
            }
            Step::Finished(result) => return (calls, result),
        }
    }
}

fn payload(first: u8, second: u8, rest: u8) -> [u8; 8] {
    [first, second, rest, rest, rest, rest, rest, rest]
}

fn open() -> USB1020Controller {
    let (_, session) = drive(|events| USB1020Controller::fast_open(Acquisition::Claimed, events), &[]);
    session.unwrap()
}

fn init_calls() -> Vec<Call> {
    let mut expected = Vec::new();
    for selector in [0x010f, 0x020f, 0x040f, 0x080f] {
        expected.extend(write(0, selector));
        expected.extend(write(1, 0x0000));
        expected.extend(write(2, 0x0100));
        expected.extend(write(3, 0x0f00));
    }
    expected.extend(write(4, 0xffff));
    expected.extend(write(5, 0x0000));
    expected.extend(write(7, 0x0000));
    expected.extend(write(6, 0x0000));
    expected.extend(write(0, 0x0f09));
    expected.extend(write(7, 0x0000));
    expected.extend(write(6, 0x0000));
    expected.extend(write(0, 0x0f0a));
    expected
}

#[test]
fn constants_of_the_card() {
    assert_eq!(VENDOR_ID, 0x04b4);
    assert_eq!(PRODUCT_ID, 0x1020);
    assert_eq!(CONFIGURATION, 1);
    assert_eq!(INTERFACE, 0);
    assert_eq!(USB_TIMEOUT_MS, 100);
    assert_eq!(PULSE_DEFAULT, 0x0100);
    assert_eq!(INTERRUPT_ACK, 0x45);
}

#[test]
fn device_filter_knows_the_card() {
    assert!(USB1020Controller::device_filter(0x04b4, 0x1020));
    assert!(!USB1020Controller::device_filter(0x04b4, 0x1021));
    assert!(!USB1020Controller::device_filter(0x04b5, 0x1020));
    assert!(!USB1020Controller::device_filter(0x1020, 0x04b4));
    assert!(!USB1020Controller::device_filter(0, 0));
}

#[test]
fn open_writes_the_settings_in_order() {
    let (calls, session) =
        drive(|events| USB1020Controller::fast_open(Acquisition::Claimed, events), &[]);
    assert!(session.is_ok());
    assert_eq!(calls.len(), 48);
    assert_eq!(calls, init_calls());
    assert!(!calls.contains(&Call::Status));
    assert_eq!(
        calls[..8],
        [
            Call::Command(0),
            Call::Data(0x010f),
            Call::Command(1),
            Call::Data(0x0000),
            Call::Command(2),
            Call::Data(0x0100),
            Call::Command(3),
            Call::Data(0x0f00)
        ]
    );
    assert_eq!(
        calls[32..],
        [
            Call::Command(4),
            Call::Data(0xffff),
            Call::Command(5),
            Call::Data(0x0000),
            Call::Command(7),
            Call::Data(0x0000),
            Call::Command(6),
            Call::Data(0x0000),
            Call::Command(0),
            Call::Data(0x0f09),
            Call::Command(7),
            Call::Data(0x0000),
            Call::Command(6),
            Call::Data(0x0000),
            Call::Command(0),
            Call::Data(0x0f0a)
        ]
    );
}

#[test]
fn open_without_a_card() {
    assert_eq!(
        USB1020Controller::fast_open(Acquisition::NotFound, &[]),
        Step::Finished(Err(Error::DeviceNotFound))
    );
    assert_eq!(
        USB1020Controller::fast_open(Acquisition::Failed(TransportError::Access), &[]),
        Step::Finished(Err(Error::ClaimFailed(TransportError::Access)))
    );
    assert_eq!(
        USB1020Controller::fast_open(Acquisition::Failed(TransportError::Busy), &[Event::Written]),
        Step::Finished(Err(Error::ClaimFailed(TransportError::Busy)))
    );
}

#[test]
fn open_gives_up_at_the_first_failure() {
    for broken in [0, 1, 17, 47] {
        let (calls, session) = drive_until(
            |events| USB1020Controller::fast_open(Acquisition::Claimed, events),
            broken,
            TransportError::Timeout,
        );
        assert_eq!(session, Err(Error::USBError(TransportError::Timeout)));
        assert_eq!(calls, init_calls()[..=broken]);
    }
}

#[test]
fn main_status_is_pulled_from_register_0() {
    let session = open();
    let (calls, status) = drive(
        |events| session.get_rr0(events),
        &[payload(0xff, 0x7f, 0x11), payload(0x00, 0x80, 0x22)],
    );
    assert_eq!(calls, pull(0));
    assert_eq!(
        status,
        Ok(RR0 {
            x_drv: false,
            y_drv: false,
            z_drv: false,
            u_drv: false,
            x_error: false,
            y_error: false,
            z_error: false,
            u_error: false,
            i_drv: true,
            c_next: false,
            zone: 0,
            bit_interpolate_stack_counter: 0,
        })
    );
}

#[test]
fn a_pull_reads_twice_and_keeps_the_second_read() {
    let session = open();
    let (calls, status) = drive(
        |events| session.get_rr3(events),
        &[payload(0xff, 0xff, 0xff), payload(0x80, 0x01, 0xff)],
    );
    assert_eq!(calls.iter().filter(|call| **call == Call::Status).count(), 2);
    assert_eq!(calls, pull(4));
    let status = status.unwrap();
    assert_eq!(status, RR3::try_from(&[0x80, 0x01][..]).unwrap());
    assert!(status.x.in0 && !status.x.servo_alarm);
    assert!(!status.y.in0 && status.y.servo_alarm);
}

#[test]
fn external_signals_of_z_and_u_are_pulled_from_register_5() {
    let session = open();
    let (calls, status) =
        drive(|events| session.get_rr4(events), &[[0x00; 8], payload(0xff, 0xff, 0x00)]);
    assert_eq!(calls, pull(5));
    let all = AxisExternalSignal {
        in0: true,
        in1: true,
        in2: true,
        in3: true,
        p_p: true,
        p_m: true,
        in_position: true,
        servo_alarm: true,
    };
    assert_eq!(status, Ok(RR4 { z: all, u: all }));
}

#[test]
fn axis_status_selects_the_axis_first() {
    let session = open();
    for (axis, selector) in
        [(Axis::X, 0x010f), (Axis::Y, 0x020f), (Axis::Z, 0x040f), (Axis::U, 0x080f)]
    {
        let (calls, status) = drive(
            |events| session.get_rr1(axis, events),
            &[payload(0xaa, 0xaa, 0xaa), payload(0x01, 0x00, 0xbb)],
        );
        assert_eq!(calls, [write(0, selector), pull(1)].concat());
        assert_eq!(status, Ok(RR1::try_from(&[0x01, 0x00][..]).unwrap()));
        assert!(status.unwrap().a_descending);
    }
}

#[test]
fn axis_error_is_pulled_from_register_2() {
    let session = open();
    let (calls, error) = drive(
        |events| session.get_rr2(Axis::Z, events),
        &[payload(0x00, 0x10, 0x00), payload(0x81, 0x90, 0x00)],
    );
    assert_eq!(calls, [write(0, 0x040f), pull(2)].concat());
    let error = error.unwrap();
    assert!(error.software_limit_plus);
    assert_eq!(error.home_step, AutoHomeSearchStep::Step25);
    assert_eq!(error, RR2::try_from(&[0x81, 0x90][..]).unwrap());
}

#[test]
fn a_register_that_does_not_decode_is_a_decode_error() {
    let session = open();
    let (calls, error) = drive(
        |events| session.get_rr2(Axis::X, events),
        &[payload(0x00, 0x00, 0x00), payload(0x00, 0x10, 0x00)],
    );
    assert_eq!(calls, [write(0, 0x010f), pull(2)].concat());
    assert_eq!(
        error,
        Err(Error::DecodeError(DecodeError::UnknownId(Enumerated::AutoHomeSearchStep, 1)))
    );
}

#[test]
fn the_interrupt_register_is_acknowledged_after_it_was_pulled() {
    let session = open();
    let (calls, interrupt) = drive(
        |events| session.get_rr5(Axis::U, events),
        &[payload(0x00, 0x00, 0x00), payload(0x01, 0x80, 0x00)],
    );
    assert_eq!(calls, [write(0, 0x080f), pull(3), write(0, 0x45)].concat());
    let interrupt = interrupt.unwrap();
    assert_eq!(interrupt, RR5::try_from(&[0x01, 0x80][..]).unwrap());
    assert!(interrupt.drive_end && interrupt.home_end && !interrupt.pulse);
}

#[test]
fn the_interrupt_register_is_lost_if_the_acknowledgement_fails() {
    let session = open();
    let (calls, interrupt) =
        drive_until(|events| session.get_rr5(Axis::X, events), 6, TransportError::Pipe);
    assert_eq!(calls, [write(0, 0x010f), pull(3), write(0, 0x45)].concat());
    assert_eq!(interrupt, Err(Error::USBError(TransportError::Pipe)));
}

#[test]
fn thirty_two_bit_parameters_are_read_low_half_first() {
    let session = open();
    let payloads = [
        payload(0x01, 0x01, 0x01),
        payload(0xdd, 0xcc, 0x02),
        payload(0x03, 0x03, 0x03),
        payload(0xbb, 0xaa, 0x04),
    ];
    let read = [pull(7), pull(6)].concat();
    for (axis, mask) in [(Axis::X, 0x0100), (Axis::Y, 0x0200), (Axis::Z, 0x0400), (Axis::U, 0x0800)] {
        let (calls, value) = drive(|events| session.read_br(axis, events), &payloads);
        assert_eq!(calls, [write(0, mask | 0x14), read.clone()].concat());
        assert_eq!(value, Ok(0xaabb_ccdd));
        let (calls, value) = drive(|events| session.read_ep(axis, events), &payloads);
        assert_eq!(calls, [write(0, mask | 0x11), read.clone()].concat());
        assert_eq!(value, Ok(0xaabb_ccdd));
        let (calls, value) = drive(|events| session.read_lp(axis, events), &payloads);
        assert_eq!(calls, [write(0, mask | 0x10), read.clone()].concat());
        assert_eq!(value, Ok(0xaabb_ccdd));
    }
}

#[test]
fn sixteen_bit_parameters_are_pulled_from_pipe_6() {
    let session = open();
    let payloads = [payload(0xff, 0xff, 0xff), payload(0x34, 0x12, 0xff)];
    for (axis, mask) in [(Axis::X, 0x0100), (Axis::Y, 0x0200), (Axis::Z, 0x0400), (Axis::U, 0x0800)] {
        let (calls, value) = drive(|events| session.read_ca(axis, events), &payloads);
        assert_eq!(calls, [write(0, mask | 0x13), pull(6)].concat());
        assert_eq!(value, Ok(0x1234));
        let (calls, value) = drive(|events| session.read_cv(axis, events), &payloads);
        assert_eq!(calls, [write(0, mask | 0x12), pull(6)].concat());
        assert_eq!(value, Ok(0x1234));
    }
}

#[test]
fn thirty_two_bit_parameters_are_written_low_half_first() {
    let session = open();
    let axes = [
        (OneOrAllAxis::One(Axis::X), 0x0100),
        (OneOrAllAxis::One(Axis::Y), 0x0200),
        (OneOrAllAxis::One(Axis::Z), 0x0400),
        (OneOrAllAxis::One(Axis::U), 0x0800),
        (OneOrAllAxis::All, 0x0f00),
    ];
    for (axis, mask) in axes {
        let data = [write(7, 0xccdd), write(6, 0xaabb)].concat();
        let (calls, done) = drive(|events| session.set_lp(axis, 0xaabb_ccdd, events), &[]);
        assert_eq!(calls, [data.clone(), write(0, mask | 0x09)].concat());
        assert_eq!(done, Ok(()));
        let (calls, done) = drive(|events| session.set_ep(axis, 0xaabb_ccdd, events), &[]);
        assert_eq!(calls, [data.clone(), write(0, mask | 0x0a)].concat());
        assert_eq!(done, Ok(()));
        let (calls, done) = drive(|events| session.set_dev_inc_rate(axis, 0xaabb_ccdd, events), &[]);
        assert_eq!(calls, [data.clone(), write(0, mask | 0x0e)].concat());
        assert_eq!(done, Ok(()));
    }
}

#[test]
fn what_was_set_is_what_a_read_assembles() {
    let session = open();
    for value in [0u32, 1, 0xffff, 0x1_0000, 0x1234_5678, 0xffff_ffff] {
        let (calls, _) =
            drive(|events| session.set_lp(OneOrAllAxis::One(Axis::X), value, events), &[]);
        let halves: Vec<u16> = calls
            .iter()
            .filter_map(|call| match call {
                Call::Data(data) => Some(*data),
                _ => None,
            })
            .collect();
        assert_eq!(halves[..2], [(value & 0xffff) as u16, (value >> 16) as u16]);
        let [low0, low1] = halves[0].to_le_bytes();
        let [high0, high1] = halves[1].to_le_bytes();
        let (_, read) = drive(
            |events| session.read_lp(Axis::X, events),
            &[[0x77; 8], payload(low0, low1, 0), [0x77; 8], payload(high0, high1, 0)],
        );
        assert_eq!(read, Ok(value));
    }
}

#[test]
fn a_failure_ends_the_operation_at_once() {
    let session = open();
    let script = [write(0, 0x0114), pull(7), pull(6)].concat();
    for broken in 0..script.len() {
        let (calls, value) =
            drive_until(|events| session.read_br(Axis::X, events), broken, TransportError::Timeout);
        assert_eq!(calls, script[..=broken]);
        assert_eq!(value, Err(Error::USBError(TransportError::Timeout)));
    }
    let (calls, done) = drive_until(
        |events| session.set_ep(OneOrAllAxis::All, 7, events),
        2,
        TransportError::NoDevice,
    );
    assert_eq!(calls, [write(7, 7), vec![Call::Command(6)]].concat());
    assert_eq!(done, Err(Error::USBError(TransportError::NoDevice)));
}

#[test]
fn every_operation_starts_again_from_its_selector() {
    let session = open();
    let payloads = [[0u8; 8], payload(0x00, 0x80, 0)];
    let first = drive(|events| session.get_rr1(Axis::Y, events), &payloads);
    let second = drive(|events| session.get_rr1(Axis::Y, events), &payloads);
    assert_eq!(first, second);
    assert_eq!(first.0[..2], write(0, 0x020f)[..]);
}

#[test]
fn a_step_is_a_function_of_the_events() {
    let session = open();
    let events = vec![Event::Written, Event::Written, Event::Written, Event::Received([1; 8])];
    assert_eq!(session.get_rr1(Axis::X, &events), session.get_rr1(Axis::X, &events));
    assert_eq!(
        session.get_rr1(Axis::X, &events),
        Step::Transfer(Transfer::Read { endpoint: Endpoint::StatusIn })
    );
    let mut frame = [0u8; 512];
    frame[0] = 1;
    assert_eq!(
        session.get_rr1(Axis::X, &events[..2]),
        Step::Transfer(Transfer::Write { endpoint: Endpoint::CommandOut, frame })
    );
    assert_eq!(
        session.get_rr1(Axis::X, &[Event::Failed(TransportError::Interrupted)]),
        Step::Finished(Err(Error::USBError(TransportError::Interrupted)))
    );
}

#[test]
fn a_reserved_bit_of_the_interrupt_register_sets_no_flag() {
    let session = open();
    let (calls, interrupt) =
        drive(|events| session.get_rr5(Axis::Y, events), &[[0x00; 8], payload(0x00, 0x40, 0x00)]);
    assert_eq!(calls, [write(0, 0x020f), pull(3), write(0, 0x45)].concat());
    assert_eq!(
        interrupt,
        Ok(RR5 {
            pulse: false,
            p_bigger_than_comp_minus: false,
            p_s_c_m: false,
            p_s_c_p: false,
            p_b_c_p: false,
            c_dec: false,
            const_start: false,
            drive_end: false,
            home_end: false,
        })
    );
}

#[test]
fn a_card_that_cannot_be_claimed_is_no_transfer_failure() {
    for error in [TransportError::Access, TransportError::Busy, TransportError::Timeout] {
        let (calls, session) =
            drive(|events| USB1020Controller::fast_open(Acquisition::Failed(error), events), &[]);
        assert!(calls.is_empty());
        assert_eq!(session, Err(Error::ClaimFailed(error)));
        assert_ne!(session, Err(Error::USBError(error)));
    }
    let (calls, session) =
        drive(|events| USB1020Controller::fast_open(Acquisition::NotFound, events), &[]);
    assert!(calls.is_empty());
    assert_eq!(session, Err(Error::DeviceNotFound));
    let (_, session) = drive_until(
        |events| USB1020Controller::fast_open(Acquisition::Claimed, events),
        0,
        TransportError::Timeout,
    );
    assert_eq!(session, Err(Error::USBError(TransportError::Timeout)));
}

#[test]
fn a_device_without_a_descriptor_is_not_the_card() {
    assert!(USB1020Controller::descriptor_filter(Some((0x04b4, 0x1020))));
    assert!(!USB1020Controller::descriptor_filter(None));
    assert!(!USB1020Controller::descriptor_filter(Some((0x04b4, 0x1021))));
    assert!(!USB1020Controller::descriptor_filter(Some((0x04b5, 0x1020))));
    assert!(!USB1020Controller::descriptor_filter(Some((0x1020, 0x04b4))));
}
