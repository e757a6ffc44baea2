//! Pipes: how registers and parameters are moved over the three endpoints.
//!
//! The card has eight pipes, numbered 0 to 7. Writing 16 bits to a pipe takes
//! two frames: the pipe's number goes to the command endpoint, the data to
//! the data endpoint. Pulling a register takes one frame that names the
//! register and two reads of the status endpoint: the card answers the first
//! read with stale data, and the register is in the first two bytes of the
//! second.
//!
//! The functions here do not transfer anything. Each appends the transfers
//! that it stands for to a script; the values are taken from the events when
//! the script has been performed.

use crate::bits::{
    halves_make_the_number, high_half, low_half, spec_high_half, spec_low_half, spec_u16_le,
    spec_u16_le_bytes, spec_u32_le, u16_from_le, u16_to_le, u32_from_le,
};
use crate::transport::{Endpoint, Event, Transfer};
use vstd::array::{spec_array_fill_for_copy_type, spec_array_update};
use vstd::prelude::*;

verus! {

/// The frame that names a pipe or a register: its number, then zeros.
pub open spec fn spec_command_frame(number: u8) -> [u8; 512] {
    spec_array_update(spec_array_fill_for_copy_type::<u8, 512>(0u8), 0, number)
}

/// The frame that carries 16 bits of data: the low byte, the high byte, then
/// zeros.
pub open spec fn spec_data_frame(data: u16) -> [u8; 512] {
    spec_array_update(
        spec_array_update(
            spec_array_fill_for_copy_type::<u8, 512>(0u8),
            0,
            spec_u16_le_bytes(data)[0],
        ),
        1,
        spec_u16_le_bytes(data)[1],
    )
}

/// What the two kinds of frame hold, byte by byte.
pub proof fn frame_bytes(number: u8, data: u16)
    ensures
        spec_command_frame(number)@.len() == 512,
        spec_command_frame(number)@[0] == number,
        forall|i: int| 1 <= i < 512 ==> spec_command_frame(number)@[i] == 0,
        spec_data_frame(data)@.len() == 512,
        spec_data_frame(data)@[0] == data % 0x100,
        spec_data_frame(data)@[1] == data / 0x100,
        forall|i: int| 2 <= i < 512 ==> spec_data_frame(data)@[i] == 0,
{
}

/// The transfers of one write of `data` to pipe `pipe`.
pub open spec fn spec_write_pipe(pipe: u8, data: u16) -> Seq<Transfer> {
    seq![
        Transfer::Write { endpoint: Endpoint::CommandOut, frame: spec_command_frame(pipe) },
        Transfer::Write { endpoint: Endpoint::DataOut, frame: spec_data_frame(data) },
    ]
}

/// The transfers of one pull of register `rr_no`.
pub open spec fn spec_pull_rr(rr_no: u8) -> Seq<Transfer> {
    seq![
        Transfer::Write { endpoint: Endpoint::CommandOut, frame: spec_command_frame(rr_no) },
        Transfer::Read { endpoint: Endpoint::StatusIn },
        Transfer::Read { endpoint: Endpoint::StatusIn },
    ]
}

/// The two bytes that the pull whose first transfer is transfer `at` of the
/// script has brought: the first two bytes of its second read, and zeros as
/// long as that read has no event.
pub open spec fn spec_pulled(events: Seq<Event>, at: int) -> Seq<u8> {
    if 0 <= at + 2 < events.len() {
        events[at + 2].spec_buffer().subrange(0, 2)
    } else {
        seq![0u8, 0u8]
    }
}

/// The transfers of one write of a 32-bit parameter: the low half to pipe 7,
/// then the high half to pipe 6.
pub open spec fn spec_set_u32_data(data: u32) -> Seq<Transfer> {
    spec_write_pipe(7, spec_low_half(data)) + spec_write_pipe(6, spec_high_half(data))
}

/// The transfers of one read of a 16-bit parameter: a pull of pipe 6.
pub open spec fn spec_read_u16_data() -> Seq<Transfer> {
    spec_pull_rr(6)
}

/// The 16-bit parameter that the read whose first transfer is transfer `at`
/// has brought.
pub open spec fn spec_u16_data(events: Seq<Event>, at: int) -> u16 {
    spec_u16_le(spec_pulled(events, at))
}

/// The transfers of one read of a 32-bit parameter: a pull of pipe 7 for the
/// low half, then a pull of pipe 6 for the high half.
pub open spec fn spec_read_u32_data() -> Seq<Transfer> {
    spec_pull_rr(7) + spec_pull_rr(6)
}

/// The 32-bit parameter that the read whose first transfer is transfer `at`
/// has brought: the two bytes of the first pull, then those of the second,
/// least significant byte first.
pub open spec fn spec_u32_data(events: Seq<Event>, at: int) -> u32 {
    spec_u32_le(spec_pulled(events, at) + spec_pulled(events, at + 3))
}

/// Appends a write to the command endpoint.
pub fn bulk_write_0x02(script: &mut Vec<Transfer>, buf: [u8; 512])
    ensures
        final(script)@ == old(script)@.push(
            Transfer::Write { endpoint: Endpoint::CommandOut, frame: buf },
        ),
{
    script.push(Transfer::Write { endpoint: Endpoint::CommandOut, frame: buf });
}

/// Appends a write to the data endpoint.
pub fn bulk_write_0x04(script: &mut Vec<Transfer>, buf: [u8; 512])
    ensures
        final(script)@ == old(script)@.push(
            Transfer::Write { endpoint: Endpoint::DataOut, frame: buf },
        ),
{
    script.push(Transfer::Write { endpoint: Endpoint::DataOut, frame: buf });
}

/// Appends a read of the status endpoint.
pub fn bulk_read_0x88(script: &mut Vec<Transfer>)
    ensures
        final(script)@ == old(script)@.push(Transfer::Read { endpoint: Endpoint::StatusIn }),
{
    script.push(Transfer::Read { endpoint: Endpoint::StatusIn });
}

/// Appends one write of `data` to pipe `pipe`.
pub fn write_pipe(script: &mut Vec<Transfer>, pipe: u8, data: u16)
    ensures
        final(script)@ == old(script)@ + spec_write_pipe(pipe, data),
{
    let mut buf = [0u8; 512];
    buf[0] = pipe;
    bulk_write_0x02(script, buf);
    let bytes = u16_to_le(data);
    buf[0] = bytes[0];
    buf[1] = bytes[1];
    assert(buf == spec_data_frame(data));
    bulk_write_0x04(script, buf);
    assert(script@ =~= old(script)@ + spec_write_pipe(pipe, data));
}

/// Appends one pull of register `rr_no`. Returns the place of the pull's
/// first transfer in the script, by which `pulled` finds what it brought.
pub fn pull_rr(script: &mut Vec<Transfer>, rr_no: u8) -> (at: usize)
    ensures
        final(script)@ == old(script)@ + spec_pull_rr(rr_no),
        at == old(script)@.len(),
{
    let at = script.len();
    let mut buf = [0u8; 512];
    buf[0] = rr_no;
    bulk_write_0x02(script, buf);
    bulk_read_0x88(script);
    bulk_read_0x88(script);
    assert(script@ =~= old(script)@ + spec_pull_rr(rr_no));
    at
}

/// The two bytes that the pull at `at` has brought.
pub fn pulled(events: &[Event], at: usize) -> (r: [u8; 2])
    ensures
        r@ == spec_pulled(events@, at as int),
{
    let r = if at < events.len() && 2 < events.len() - at {
        let buf = events[at + 2].buffer();
        [buf[0], buf[1]]
    } else {
        [0u8, 0u8]
    };
    assert(r@ =~= spec_pulled(events@, at as int));
    r
}

/// Appends one read of a 16-bit parameter. Returns its place in the script.
pub fn read_u16_data(script: &mut Vec<Transfer>) -> (at: usize)
    ensures
        final(script)@ == old(script)@ + spec_read_u16_data(),
        at == old(script)@.len(),
{
    pull_rr(script, 6)
}

/// The 16-bit parameter that the read at `at` has brought.
pub fn u16_data(events: &[Event], at: usize) -> (r: u16)
    ensures
        r == spec_u16_data(events@, at as int),
{
    let bytes = pulled(events, at);
    u16_from_le(&bytes)
}

/// Appends one read of a 32-bit parameter. Returns its place in the script.
pub fn read_u32_data(script: &mut Vec<Transfer>) -> (at: usize)
    ensures
        final(script)@ == old(script)@ + spec_read_u32_data(),
        at == old(script)@.len(),
{
    let at = pull_rr(script, 7);
    let _ = pull_rr(script, 6);
    assert(script@ =~= old(script)@ + spec_read_u32_data());
    at
}

/// The 32-bit parameter that the read at `at` has brought.
pub fn u32_data(events: &[Event], at: usize) -> (r: u32)
    ensures
        r == spec_u32_data(events@, at as int),
{
    let low = pulled(events, at);
    let len = events.len();
    let high = if at <= usize::MAX - 3 {
        pulled(events, at + 3)
    } else {
        assert(at + 5 >= len);
        let zero = [0u8, 0u8];
        assert(zero@ =~= spec_pulled(events@, at + 3));
        zero
    };
    u32_from_le(&low, &high)
}

/// Appends one write of a 32-bit parameter.
pub fn set_u32_data(script: &mut Vec<Transfer>, data: u32)
    ensures
        final(script)@ == old(script)@ + spec_set_u32_data(data),
{
    write_pipe(script, 7, low_half(data));
    write_pipe(script, 6, high_half(data));
    assert(script@ =~= old(script)@ + spec_set_u32_data(data));
}

/// A pull is one write of the register's number to the command endpoint and
/// then exactly two reads of the status endpoint.
pub proof fn pull_reads_twice(rr_no: u8)
    ensures
        spec_pull_rr(rr_no).len() == 3,
        spec_pull_rr(rr_no)[0] == (Transfer::Write {
            endpoint: Endpoint::CommandOut,
            frame: spec_command_frame(rr_no),
        }),
        spec_pull_rr(rr_no)[1] == (Transfer::Read { endpoint: Endpoint::StatusIn }),
        spec_pull_rr(rr_no)[2] == (Transfer::Read { endpoint: Endpoint::StatusIn }),
{
}

/// What a pull brings is the first two bytes of its second read and nothing
/// else: whatever else the events hold, the first read too, plays no part.
pub proof fn pull_takes_second_read(events: Seq<Event>, others: Seq<Event>, at: int)
    requires
        0 <= at + 2 < events.len(),
        0 <= at + 2 < others.len(),
        events[at + 2].spec_buffer()[0] == others[at + 2].spec_buffer()[0],
        events[at + 2].spec_buffer()[1] == others[at + 2].spec_buffer()[1],
    ensures
        spec_pulled(events, at) == spec_pulled(others, at),
        spec_pulled(events, at) == seq![
            events[at + 2].spec_buffer()[0],
            events[at + 2].spec_buffer()[1],
        ],
{
    assert(events[at + 2].spec_buffer().len() == 8);
    assert(others[at + 2].spec_buffer().len() == 8);
    assert(spec_pulled(events, at) =~= seq![
        events[at + 2].spec_buffer()[0],
        events[at + 2].spec_buffer()[1],
    ]);
    assert(spec_pulled(others, at) =~= seq![
        others[at + 2].spec_buffer()[0],
        others[at + 2].spec_buffer()[1],
    ]);
}

/// A 32-bit parameter is written low half first, to pipe 7 and then to pipe
/// 6, and read in the same order: if the two pulls of a read bring what the
/// two writes of `data` carried, the read brings `data`.
pub proof fn read_mirrors_write(data: u32, events: Seq<Event>, at: int)
    requires
        spec_pulled(events, at) == spec_u16_le_bytes(spec_low_half(data)),
        spec_pulled(events, at + 3) == spec_u16_le_bytes(spec_high_half(data)),
    ensures
        spec_set_u32_data(data) == spec_write_pipe(7, spec_low_half(data)) + spec_write_pipe(
            6,
            spec_high_half(data),
        ),
        spec_read_u32_data() == spec_pull_rr(7) + spec_pull_rr(6),
        spec_u32_data(events, at) == data,
{
    halves_make_the_number(data);
}

} // verus!
