//! The register-level protocol of the USB1020 four-axis motion control card.
//!
//! The library holds the whole protocol and performs no transfer. Every
//! operation of a session is a function from the events so far to a step:
//! either the next transfer, which the caller performs and whose outcome it
//! appends to the events before it asks again, or the operation's result.
//!
//! ```text
//! let mut events = Vec::new();
//! loop {
//!     match session.get_rr0(&events) {
//!         Step::Transfer(transfer) => events.push(perform(transfer)),
//!         Step::Finished(result) => break result,
//!     }
//! }
//! ```
//!
//! An operation is a fixed script of transfers and reads its result from what
//! the reads brought. It does not retry: the first transfer that fails ends
//! it with that error. The card keeps the selector that was written last, so
//! one operation has to be driven to its end before the next one begins.

use vstd::prelude::*;

pub mod bits;
pub mod common;
pub mod pipe;
pub mod register;
pub mod transport;

use crate::common::{spec_selector, selector, Axis, CommandFamily, OneOrAllAxis};
use crate::pipe::{
    pull_rr, pulled, read_u16_data, read_u32_data, set_u32_data, spec_pull_rr, spec_pulled,
    spec_read_u16_data, spec_read_u32_data, spec_set_u32_data, spec_u16_data, spec_u32_data,
    spec_write_pipe, u16_data, u32_data, write_pipe,
};
use crate::register::{DecodeError, RR0, RR1, RR2, RR3, RR4, RR5};
use crate::transport::{
    progress, progress_cases, spec_all_went_through, spec_progress, Event, Progress, Transfer,
    TransportError,
};

verus! {

/// The vendor id of the card.
pub const VENDOR_ID: u16 = 0x04b4;

/// The product id of the card.
pub const PRODUCT_ID: u16 = 0x1020;

/// The configuration that the card is driven in.
pub const CONFIGURATION: u8 = 1;

/// The interface that a session claims.
pub const INTERFACE: u8 = 0;

/// The milliseconds after which a transfer is given up.
pub const USB_TIMEOUT_MS: u64 = 100;

/// What is written to pipe 2 for every axis when a session is opened. The
/// card's documents do not say what its bits mean.
pub const PULSE_DEFAULT: u16 = 0x0100;

/// What is written to pipe 0 after the interrupt register was pulled. It is
/// not known whether the card clears the register on it.
pub const INTERRUPT_ACK: u16 = 0x45;

/// Why an operation failed.
#[derive(Debug, PartialEq, Eq, Clone, Copy)]
pub enum Error {
    /// A transfer failed.
    USBError(TransportError),
    /// A read did not bring eight bytes.
    ReadNot8Bytes,
    /// What the card sent is no register.
    DecodeError(DecodeError),
    /// No card was found.
    DeviceNotFound,
    /// The card was found, but it could not be configured or claimed. No
    /// session has begun: this is not the failure of a transfer.
    ClaimFailed(TransportError),
}

/// What an operation needs next, or what it came to.
#[derive(Debug, PartialEq, Eq)]
pub enum Step<T> {
    /// Perform this transfer, append what came of it to the events, and ask
    /// again.
    Transfer(Transfer),
    /// The operation is over.
    Finished(Result<T, Error>),
}

/// What came of looking for the card and claiming it.
#[derive(Debug, PartialEq, Eq, Clone, Copy)]
pub enum Acquisition {
    /// The card was found, configured and claimed.
    Claimed,
    /// No card was found.
    NotFound,
    /// The card was found, but configuring or claiming it failed.
    Failed(TransportError),
}

/// A session with a card that has taken its settings.
#[derive(Debug, PartialEq, Eq)]
pub struct USB1020Controller {
    opened: (),
}

/// The step that the events bring an operation to: the operation goes
/// through `script` and then comes to `result`.
pub open spec fn spec_step<T>(
    script: Seq<Transfer>,
    events: Seq<Event>,
    result: Result<T, Error>,
) -> Step<T> {
    match spec_progress(script, events) {
        Progress::Transfer(transfer) => Step::Transfer(transfer),
        Progress::Failed(error) => Step::Finished(Err(Error::USBError(error))),
        Progress::Complete => Step::Finished(result),
    }
}

/// An operation asks for the transfers of its script in order, one for every
/// event that it gets, as long as nothing has failed; it is over with its
/// result as soon as every transfer of the script has gone through, and over
/// with the error of the first transfer that failed otherwise.
pub proof fn step_cases<T>(script: Seq<Transfer>, events: Seq<Event>, result: Result<T, Error>)
    ensures
        spec_step(script, events, result) is Transfer <==> (events.len() < script.len()
            && spec_all_went_through(events, events.len() as int)),
        spec_step(script, events, result) matches Step::Transfer(transfer) ==> transfer
            == script[events.len() as int],
        (events.len() >= script.len() && spec_all_went_through(events, script.len() as int))
            ==> spec_step(script, events, result) == Step::Finished(result),
        !spec_all_went_through(events, script.len() as int) ==> exists|i: int|
            {
                &&& 0 <= i < script.len()
                &&& i < events.len()
                &&& spec_all_went_through(events, i)
                &&& (#[trigger] events[i]) is Failed
                &&& spec_step(script, events, result) == Step::<T>::Finished(
                    Err(Error::USBError(events[i]->Failed_0)),
                )
            },
{
    progress_cases(script, events);
    if !spec_all_went_through(events, script.len() as int) {
        match spec_progress(script, events) {
            Progress::Failed(error) => {
                let i = choose|i: int|
                    0 <= i < script.len() && i < events.len() && spec_all_went_through(events, i)
                        && #[trigger] events[i] == Event::Failed(error);
                assert(events[i] == Event::Failed(error));
            },
            Progress::Transfer(_) => {
                assert(spec_all_went_through(events, events.len() as int));
                assert(false);
            },
            Progress::Complete => {
                assert(false);
            },
        }
    }
}

/// The result of an operation that decodes a register.
pub open spec fn spec_decoded<T>(register: Result<T, DecodeError>) -> Result<T, Error> {
    match register {
        Ok(register) => Ok(register),
        Err(error) => Err(Error::DecodeError(error)),
    }
}

fn decoded<T>(register: Result<T, DecodeError>) -> (r: Result<T, Error>)
    ensures
        r == spec_decoded(register),
{
    match register {
        Ok(register) => Ok(register),
        Err(error) => Err(Error::DecodeError(error)),
    }
}

/// The step of an operation that is not through its script yet.
fn pending<T>(script: &Vec<Transfer>, events: &[Event]) -> (r: Option<Step<T>>)
    ensures
        match spec_progress(script@, events@) {
            Progress::Transfer(transfer) => r == Some(Step::<T>::Transfer(transfer)),
            Progress::Failed(error) => r == Some(
                Step::<T>::Finished(Err(Error::USBError(error))),
            ),
            Progress::Complete => r is None,
        },
{
    match progress(script, events) {
        Progress::Transfer(transfer) => Some(Step::Transfer(transfer)),
        Progress::Failed(error) => Some(Step::Finished(Err(Error::USBError(error)))),
        Progress::Complete => None,
    }
}

impl USB1020Controller {
    /// The session that `fast_open` gives.
    pub closed spec fn spec_opened() -> USB1020Controller {
        USB1020Controller { opened: () }
    }

    /// Whether a device with these ids is the card.
    pub fn device_filter(vendor_id: u16, product_id: u16) -> (r: bool)
        ensures
            r == (vendor_id == VENDOR_ID && product_id == PRODUCT_ID),
    {
        vendor_id == VENDOR_ID && product_id == PRODUCT_ID
    }

    /// Whether a device is the card, given the vendor id and the product id
    /// of its descriptor, or `None` where the descriptor could not be read:
    /// such a device is not the card.
    pub fn descriptor_filter(descriptor: Option<(u16, u16)>) -> (r: bool)
        ensures
            r == (descriptor matches Some((vendor_id, product_id)) && vendor_id == VENDOR_ID
                && product_id == PRODUCT_ID),
    {
        match descriptor {
            Some((vendor_id, product_id)) => Self::device_filter(vendor_id, product_id),
            None => false,
        }
    }

    /// The transfers that give one axis its settings.
    pub open spec fn spec_init_axis(axis: Axis) -> Seq<Transfer> {
        spec_write_pipe(0, spec_selector(OneOrAllAxis::One(axis), CommandFamily::AxisStatus))
            + spec_write_pipe(1, 0x0000) + spec_write_pipe(2, PULSE_DEFAULT) + spec_write_pipe(
            3,
            0x0f00,
        )
    }

    /// The transfers that give the card its settings: the four axes in the
    /// order X, Y, Z, U, then pipes 4 and 5, then both positions of all axes
    /// set to zero.
    pub open spec fn spec_init_device() -> Seq<Transfer> {
        Self::spec_init_axis(Axis::X) + Self::spec_init_axis(Axis::Y) + Self::spec_init_axis(
            Axis::Z,
        ) + Self::spec_init_axis(Axis::U) + spec_write_pipe(4, 0xffff) + spec_write_pipe(5, 0x0000)
            + Self::spec_set_lp_script(OneOrAllAxis::All, 0) + Self::spec_set_ep_script(
            OneOrAllAxis::All,
            0,
        )
    }

    /// What opening a session comes to. Without a card, or with a card that
    /// could not be claimed, there is no session and nothing is transferred.
    pub open spec fn spec_fast_open(acquired: Acquisition, events: Seq<Event>) -> Step<
        USB1020Controller,
    > {
        match acquired {
            Acquisition::NotFound => Step::Finished(Err(Error::DeviceNotFound)),
            Acquisition::Failed(error) => Step::Finished(Err(Error::ClaimFailed(error))),
            Acquisition::Claimed => spec_step(
                Self::spec_init_device(),
                events,
                Ok(Self::spec_opened()),
            ),
        }
    }

    /// Opening tells a card that could not be had from a transfer that failed:
    /// it ends with `DeviceNotFound` or `ClaimFailed` exactly when the card
    /// was not acquired, whatever the events, and with no other error than
    /// `USBError` when it was.
    pub proof fn open_errors(acquired: Acquisition, events: Seq<Event>)
        ensures
            acquired is NotFound ==> Self::spec_fast_open(acquired, events) == Step::<
                USB1020Controller,
            >::Finished(Err(Error::DeviceNotFound)),
            acquired matches Acquisition::Failed(error) ==> Self::spec_fast_open(acquired, events)
                == Step::<USB1020Controller>::Finished(Err(Error::ClaimFailed(error))),
            acquired is Claimed ==> (Self::spec_fast_open(acquired, events) matches Step::Finished(
                Err(error),
            ) ==> error is USBError),
    {
    }

    /// The transfers of `fast_open`, one after the other: for each of the
    /// axes X, Y, Z and U its selector to pipe 0, then `0x0000` to pipe 1,
    /// `0x0100` to pipe 2 and `0x0f00` to pipe 3; then `0xffff` to pipe 4 and
    /// `0x0000` to pipe 5; then zero as the logical position and zero as the
    /// electronic position of all axes, each written low half first to pipe 7
    /// and pipe 6 before its selector goes to pipe 0. That is 24 writes to
    /// pipes, 48 transfers, and not one read.
    pub proof fn init_device_trace()
        ensures
            Self::spec_init_device() == spec_write_pipe(0, 0x010f) + spec_write_pipe(1, 0x0000)
                + spec_write_pipe(2, 0x0100) + spec_write_pipe(3, 0x0f00) + spec_write_pipe(
                0,
                0x020f,
            ) + spec_write_pipe(1, 0x0000) + spec_write_pipe(2, 0x0100) + spec_write_pipe(
                3,
                0x0f00,
            ) + spec_write_pipe(0, 0x040f) + spec_write_pipe(1, 0x0000) + spec_write_pipe(
                2,
                0x0100,
            ) + spec_write_pipe(3, 0x0f00) + spec_write_pipe(0, 0x080f) + spec_write_pipe(
                1,
                0x0000,
            ) + spec_write_pipe(2, 0x0100) + spec_write_pipe(3, 0x0f00) + spec_write_pipe(
                4,
                0xffff,
            ) + spec_write_pipe(5, 0x0000) + spec_write_pipe(7, 0x0000) + spec_write_pipe(
                6,
                0x0000,
            ) + spec_write_pipe(0, 0x0f09) + spec_write_pipe(7, 0x0000) + spec_write_pipe(
                6,
                0x0000,
            ) + spec_write_pipe(0, 0x0f0a),
            Self::spec_init_device().len() == 48,
            forall|i: int| 0 <= i < 48 ==> #[trigger] Self::spec_init_device()[i] is Write,
    {
        assert(forall|pipe: u8, data: u16|
            (#[trigger] spec_write_pipe(pipe, data)).len() == 2 && spec_write_pipe(pipe, data)[0]
                is Write && spec_write_pipe(pipe, data)[1] is Write);
        let x = spec_write_pipe(0, 0x010f) + spec_write_pipe(1, 0x0000) + spec_write_pipe(
            2,
            0x0100,
        ) + spec_write_pipe(3, 0x0f00);
        let y = x + spec_write_pipe(0, 0x020f) + spec_write_pipe(1, 0x0000) + spec_write_pipe(
            2,
            0x0100,
        ) + spec_write_pipe(3, 0x0f00);
        let z = y + spec_write_pipe(0, 0x040f) + spec_write_pipe(1, 0x0000) + spec_write_pipe(
            2,
            0x0100,
        ) + spec_write_pipe(3, 0x0f00);
        let u = z + spec_write_pipe(0, 0x080f) + spec_write_pipe(1, 0x0000) + spec_write_pipe(
            2,
            0x0100,
        ) + spec_write_pipe(3, 0x0f00);
        let common = u + spec_write_pipe(4, 0xffff) + spec_write_pipe(5, 0x0000);
        let logical = common + spec_write_pipe(7, 0x0000) + spec_write_pipe(6, 0x0000)
            + spec_write_pipe(0, 0x0f09);
        let trace = logical + spec_write_pipe(7, 0x0000) + spec_write_pipe(6, 0x0000)
            + spec_write_pipe(0, 0x0f0a);
        assert(x.len() == 8);
        assert(y.len() == 16);
        assert(z.len() == 24);
        assert(u.len() == 32);
        assert(common.len() == 36);
        assert(logical.len() == 42);
        assert(trace.len() == 48);
        assert(Self::spec_init_device() =~= trace);
    }

    fn init_axis(script: &mut Vec<Transfer>, axis: Axis)
        ensures
            final(script)@ == old(script)@ + Self::spec_init_axis(axis),
    {
        write_pipe(script, 0, axis.as_data());
        write_pipe(script, 1, 0x0000);
        write_pipe(script, 2, PULSE_DEFAULT);
        write_pipe(script, 3, 0x0f00);
        assert(script@ =~= old(script)@ + Self::spec_init_axis(axis));
    }

    fn init_device(script: &mut Vec<Transfer>)
        ensures
            final(script)@ == old(script)@ + Self::spec_init_device(),
    {
        Self::init_axis(script, Axis::X);
        Self::init_axis(script, Axis::Y);
        Self::init_axis(script, Axis::Z);
        Self::init_axis(script, Axis::U);
        write_pipe(script, 4, 0xffff);
        write_pipe(script, 5, 0x0000);
        Self::set_lp_script(script, OneOrAllAxis::All, 0);
        Self::set_ep_script(script, OneOrAllAxis::All, 0);
        assert(script@ =~= old(script)@ + Self::spec_init_device());
    }

    /// Opens a session: given what came of looking for the card, gives the
    /// card its settings.
    pub fn fast_open(acquired: Acquisition, events: &[Event]) -> (r: Step<USB1020Controller>)
        ensures
            r == Self::spec_fast_open(acquired, events@),
    {
        match acquired {
            Acquisition::NotFound => Step::Finished(Err(Error::DeviceNotFound)),
            Acquisition::Failed(error) => Step::Finished(Err(Error::ClaimFailed(error))),
            Acquisition::Claimed => {
                let mut script = Vec::new();
                Self::init_device(&mut script);
                assert(script@ =~= Self::spec_init_device());
                if let Some(step) = pending(&script, events) {
                    return step;
                }
                Step::Finished(Ok(USB1020Controller { opened: () }))
            },
        }
    }

    /// The transfers of `get_rr0`: a pull of register 0.
    pub open spec fn spec_get_rr0_script() -> Seq<Transfer> {
        spec_pull_rr(0)
    }

    /// What `get_rr0` comes to.
    pub open spec fn spec_get_rr0(events: Seq<Event>) -> Step<RR0> {
        spec_step(
            Self::spec_get_rr0_script(),
            events,
            spec_decoded(RR0::spec_try_from(spec_pulled(events, 0))),
        )
    }

    /// Reads the main status register.
    pub fn get_rr0(&self, events: &[Event]) -> (r: Step<RR0>)
        ensures
            r == Self::spec_get_rr0(events@),
    {
        let mut script = Vec::new();
        let at = pull_rr(&mut script, 0);
        assert(script@ =~= Self::spec_get_rr0_script());
        if let Some(step) = pending(&script, events) {
            return step;
        }
        let buf = pulled(events, at);
        Step::Finished(decoded(RR0::try_from(buf.as_slice())))
    }

    /// The transfers of `get_rr1`: the axis is selected, then register 1 is
    /// pulled.
    pub open spec fn spec_get_rr1_script(axis: Axis) -> Seq<Transfer> {
        spec_write_pipe(0, spec_selector(OneOrAllAxis::One(axis), CommandFamily::AxisStatus))
            + spec_pull_rr(1)
    }

    /// What `get_rr1` comes to.
    pub open spec fn spec_get_rr1(axis: Axis, events: Seq<Event>) -> Step<RR1> {
        spec_step(
            Self::spec_get_rr1_script(axis),
            events,
            spec_decoded(RR1::spec_try_from(spec_pulled(events, 2))),
        )
    }

    /// Reads the status register of an axis.
    pub fn get_rr1(&self, axis: Axis, events: &[Event]) -> (r: Step<RR1>)
        ensures
            r == Self::spec_get_rr1(axis, events@),
    {
        let mut script = Vec::new();
        write_pipe(&mut script, 0, axis.as_data());
        let at = pull_rr(&mut script, 1);
        assert(script@ =~= Self::spec_get_rr1_script(axis));
        if let Some(step) = pending(&script, events) {
            return step;
        }
        let buf = pulled(events, at);
        Step::Finished(decoded(RR1::try_from(buf.as_slice())))
    }

    /// The transfers of `get_rr2`: the axis is selected, then register 2 is
    /// pulled.
    pub open spec fn spec_get_rr2_script(axis: Axis) -> Seq<Transfer> {
        spec_write_pipe(0, spec_selector(OneOrAllAxis::One(axis), CommandFamily::AxisStatus))
            + spec_pull_rr(2)
    }

    /// What `get_rr2` comes to.
    pub open spec fn spec_get_rr2(axis: Axis, events: Seq<Event>) -> Step<RR2> {
        spec_step(
            Self::spec_get_rr2_script(axis),
            events,
            spec_decoded(RR2::spec_try_from(spec_pulled(events, 2))),
        )
    }

    /// Reads the error register of an axis.
    pub fn get_rr2(&self, axis: Axis, events: &[Event]) -> (r: Step<RR2>)
        ensures
            r == Self::spec_get_rr2(axis, events@),
    {
        let mut script = Vec::new();
        write_pipe(&mut script, 0, axis.as_data());
        let at = pull_rr(&mut script, 2);
        assert(script@ =~= Self::spec_get_rr2_script(axis));
        if let Some(step) = pending(&script, events) {
            return step;
        }
        let buf = pulled(events, at);
        Step::Finished(decoded(RR2::try_from(buf.as_slice())))
    }

    /// The transfers of `get_rr3`: a pull of register 4.
    pub open spec fn spec_get_rr3_script() -> Seq<Transfer> {
        spec_pull_rr(4)
    }

    /// What `get_rr3` comes to.
    pub open spec fn spec_get_rr3(events: Seq<Event>) -> Step<RR3> {
        spec_step(
            Self::spec_get_rr3_script(),
            events,
            spec_decoded(RR3::spec_try_from(spec_pulled(events, 0))),
        )
    }

    /// Reads the external signals of the X and Y axes.
    pub fn get_rr3(&self, events: &[Event]) -> (r: Step<RR3>)
        ensures
            r == Self::spec_get_rr3(events@),
    {
        let mut script = Vec::new();
        let at = pull_rr(&mut script, 4);
        assert(script@ =~= Self::spec_get_rr3_script());
        if let Some(step) = pending(&script, events) {
            return step;
        }
        let buf = pulled(events, at);
        Step::Finished(decoded(RR3::try_from(buf.as_slice())))
    }

    /// The transfers of `get_rr4`: a pull of register 5.
    pub open spec fn spec_get_rr4_script() -> Seq<Transfer> {
        spec_pull_rr(5)
    }

    /// What `get_rr4` comes to.
    pub open spec fn spec_get_rr4(events: Seq<Event>) -> Step<RR4> {
        spec_step(
            Self::spec_get_rr4_script(),
            events,
            spec_decoded(RR4::spec_try_from(spec_pulled(events, 0))),
        )
    }

    /// Reads the external signals of the Z and U axes.
    pub fn get_rr4(&self, events: &[Event]) -> (r: Step<RR4>)
        ensures
            r == Self::spec_get_rr4(events@),
    {
        let mut script = Vec::new();
        let at = pull_rr(&mut script, 5);
        assert(script@ =~= Self::spec_get_rr4_script());
        if let Some(step) = pending(&script, events) {
            return step;
        }
        let buf = pulled(events, at);
        Step::Finished(decoded(RR4::try_from(buf.as_slice())))
    }

    /// The transfers of `get_rr5`: the axis is selected, register 3 is
    /// pulled, and the acknowledgement is written to pipe 0.
    pub open spec fn spec_get_rr5_script(axis: Axis) -> Seq<Transfer> {
        spec_write_pipe(0, spec_selector(OneOrAllAxis::One(axis), CommandFamily::AxisStatus))
            + spec_pull_rr(3) + spec_write_pipe(0, INTERRUPT_ACK)
    }

    /// What `get_rr5` comes to: the register as it was pulled, before the
    /// acknowledgement was written.
    pub open spec fn spec_get_rr5(axis: Axis, events: Seq<Event>) -> Step<RR5> {
        spec_step(
            Self::spec_get_rr5_script(axis),
            events,
            spec_decoded(RR5::spec_try_from(spec_pulled(events, 2))),
        )
    }

    /// Reads the interrupt register of an axis and acknowledges it.
    pub fn get_rr5(&self, axis: Axis, events: &[Event]) -> (r: Step<RR5>)
        ensures
            r == Self::spec_get_rr5(axis, events@),
    {
        let mut script = Vec::new();
        write_pipe(&mut script, 0, axis.as_data());
        let at = pull_rr(&mut script, 3);
        write_pipe(&mut script, 0, INTERRUPT_ACK);
        assert(script@ =~= Self::spec_get_rr5_script(axis));
        if let Some(step) = pending(&script, events) {
            return step;
        }
        let buf = pulled(events, at);
        Step::Finished(decoded(RR5::try_from(buf.as_slice())))
    }

    /// The transfers that read a 32-bit parameter of an axis: the axis and the
    /// parameter's family are selected, then the parameter is read.
    pub open spec fn spec_read_u32_script(axis: Axis, family: CommandFamily) -> Seq<Transfer> {
        spec_write_pipe(0, spec_selector(OneOrAllAxis::One(axis), family)) + spec_read_u32_data()
    }

    /// What reading a 32-bit parameter of an axis comes to.
    pub open spec fn spec_read_u32(axis: Axis, family: CommandFamily, events: Seq<Event>) -> Step<
        u32,
    > {
        spec_step(Self::spec_read_u32_script(axis, family), events, Ok(spec_u32_data(events, 2)))
    }

    /// The transfers that read a 16-bit parameter of an axis: the axis and the
    /// parameter's family are selected, then the parameter is read.
    pub open spec fn spec_read_u16_script(axis: Axis, family: CommandFamily) -> Seq<Transfer> {
        spec_write_pipe(0, spec_selector(OneOrAllAxis::One(axis), family)) + spec_read_u16_data()
    }

    /// What reading a 16-bit parameter of an axis comes to.
    pub open spec fn spec_read_u16(axis: Axis, family: CommandFamily, events: Seq<Event>) -> Step<
        u16,
    > {
        spec_step(Self::spec_read_u16_script(axis, family), events, Ok(spec_u16_data(events, 2)))
    }

    fn read_u32(axis: Axis, family: CommandFamily, events: &[Event]) -> (r: Step<u32>)
        ensures
            r == Self::spec_read_u32(axis, family, events@),
    {
        let mut script = Vec::new();
        write_pipe(&mut script, 0, selector(OneOrAllAxis::One(axis), family));
        let at = read_u32_data(&mut script);
        assert(script@ =~= Self::spec_read_u32_script(axis, family));
        if let Some(step) = pending(&script, events) {
            return step;
        }
        Step::Finished(Ok(u32_data(events, at)))
    }

    fn read_u16(axis: Axis, family: CommandFamily, events: &[Event]) -> (r: Step<u16>)
        ensures
            r == Self::spec_read_u16(axis, family, events@),
    {
        let mut script = Vec::new();
        write_pipe(&mut script, 0, selector(OneOrAllAxis::One(axis), family));
        let at = read_u16_data(&mut script);
        assert(script@ =~= Self::spec_read_u16_script(axis, family));
        if let Some(step) = pending(&script, events) {
            return step;
        }
        Step::Finished(Ok(u16_data(events, at)))
    }

    /// Reads the position counter of an axis.
    pub fn read_br(&self, axis: Axis, events: &[Event]) -> (r: Step<u32>)
        ensures
            r == Self::spec_read_u32(axis, CommandFamily::ReadPositionCounter, events@),
    {
        Self::read_u32(axis, CommandFamily::ReadPositionCounter, events)
    }

    /// Reads the command acceleration of an axis.
    pub fn read_ca(&self, axis: Axis, events: &[Event]) -> (r: Step<u16>)
        ensures
            r == Self::spec_read_u16(axis, CommandFamily::ReadAcceleration, events@),
    {
        Self::read_u16(axis, CommandFamily::ReadAcceleration, events)
    }

    /// Reads the command velocity of an axis.
    pub fn read_cv(&self, axis: Axis, events: &[Event]) -> (r: Step<u16>)
        ensures
            r == Self::spec_read_u16(axis, CommandFamily::ReadVelocity, events@),
    {
        Self::read_u16(axis, CommandFamily::ReadVelocity, events)
    }

    /// Reads the electronic position of an axis.
    pub fn read_ep(&self, axis: Axis, events: &[Event]) -> (r: Step<u32>)
        ensures
            r == Self::spec_read_u32(axis, CommandFamily::ReadElectronicPosition, events@),
    {
        Self::read_u32(axis, CommandFamily::ReadElectronicPosition, events)
    }

    /// Reads the logical position of an axis.
    pub fn read_lp(&self, axis: Axis, events: &[Event]) -> (r: Step<u32>)
        ensures
            r == Self::spec_read_u32(axis, CommandFamily::ReadLogicalPosition, events@),
    {
        Self::read_u32(axis, CommandFamily::ReadLogicalPosition, events)
    }

    /// The transfers that write a 32-bit parameter of one axis or of all: the
    /// parameter is written, then the axes and the parameter's family are
    /// selected.
    pub open spec fn spec_set_u32_script(
        axis: OneOrAllAxis,
        family: CommandFamily,
        data: u32,
    ) -> Seq<Transfer> {
        spec_set_u32_data(data) + spec_write_pipe(0, spec_selector(axis, family))
    }

    /// What writing a 32-bit parameter comes to.
    pub open spec fn spec_set_u32(
        axis: OneOrAllAxis,
        family: CommandFamily,
        data: u32,
        events: Seq<Event>,
    ) -> Step<()> {
        spec_step(Self::spec_set_u32_script(axis, family, data), events, Ok(()))
    }

    /// The transfers of `set_lp`.
    pub open spec fn spec_set_lp_script(axis: OneOrAllAxis, data: u32) -> Seq<Transfer> {
        Self::spec_set_u32_script(axis, CommandFamily::WriteLogicalPosition, data)
    }

    /// The transfers of `set_ep`.
    pub open spec fn spec_set_ep_script(axis: OneOrAllAxis, data: u32) -> Seq<Transfer> {
        Self::spec_set_u32_script(axis, CommandFamily::WriteElectronicPosition, data)
    }

    fn set_u32_script(
        script: &mut Vec<Transfer>,
        axis: OneOrAllAxis,
        family: CommandFamily,
        data: u32,
    )
        ensures
            final(script)@ == old(script)@ + Self::spec_set_u32_script(axis, family, data),
    {
        set_u32_data(script, data);
        write_pipe(script, 0, selector(axis, family));
        assert(script@ =~= old(script)@ + Self::spec_set_u32_script(axis, family, data));
    }

    fn set_lp_script(script: &mut Vec<Transfer>, axis: OneOrAllAxis, data: u32)
        ensures
            final(script)@ == old(script)@ + Self::spec_set_lp_script(axis, data),
    {
        Self::set_u32_script(script, axis, CommandFamily::WriteLogicalPosition, data);
    }

    fn set_ep_script(script: &mut Vec<Transfer>, axis: OneOrAllAxis, data: u32)
        ensures
            final(script)@ == old(script)@ + Self::spec_set_ep_script(axis, data),
    {
        Self::set_u32_script(script, axis, CommandFamily::WriteElectronicPosition, data);
    }

    fn set_u32(axis: OneOrAllAxis, family: CommandFamily, data: u32, events: &[Event]) -> (r: Step<
        (),
    >)
        ensures
            r == Self::spec_set_u32(axis, family, data, events@),
    {
        let mut script = Vec::new();
        Self::set_u32_script(&mut script, axis, family, data);
        assert(script@ =~= Self::spec_set_u32_script(axis, family, data));
        if let Some(step) = pending(&script, events) {
            return step;
        }
        Step::Finished(Ok(()))
    }

    /// Sets the logical position of one axis or of all.
    pub fn set_lp(&self, axis: OneOrAllAxis, data: u32, events: &[Event]) -> (r: Step<()>)
        ensures
            r == Self::spec_set_u32(axis, CommandFamily::WriteLogicalPosition, data, events@),
    {
        Self::set_u32(axis, CommandFamily::WriteLogicalPosition, data, events)
    }

    /// Sets the electronic position of one axis or of all.
    pub fn set_ep(&self, axis: OneOrAllAxis, data: u32, events: &[Event]) -> (r: Step<()>)
        ensures
            r == Self::spec_set_u32(axis, CommandFamily::WriteElectronicPosition, data, events@),
    {
        Self::set_u32(axis, CommandFamily::WriteElectronicPosition, data, events)
    }

    /// Sets the acceleration rate of one axis or of all.
    pub fn set_dev_inc_rate(&self, axis: OneOrAllAxis, data: u32, events: &[Event]) -> (r: Step<
        (),
    >)
        ensures
            r == Self::spec_set_u32(axis, CommandFamily::WriteAccelerationRate, data, events@),
    {
        Self::set_u32(axis, CommandFamily::WriteAccelerationRate, data, events)
    }
}

} // verus!
