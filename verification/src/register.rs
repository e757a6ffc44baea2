//! The card's registers and their two-byte wire images.
//!
//! Every register is 16 bits wide and travels as two bytes. Its fields are
//! listed here in wire order: the first field sits in the most significant
//! bit of the first byte. Each field's doc comment gives its byte and the
//! weight of its bits (see [`crate::bits`]). Reserved bits are skipped when a
//! register is decoded and written as zero when it is encoded.
//!
//! Decoding checks in wire order: a buffer that ends early is `Incomplete`
//! with the size of the field at which it ends, an enumerated field with an
//! undeclared id is `UnknownId`, and bytes left over after the register are
//! `TooMuchData`.
//!
//! Each register comes with its laws: `decode_encode` and `encode_decode` say
//! that the two directions undo each other, `read_back` and `write_back` say
//! the same of the two bytes alone. The bits themselves are opaque to a proof
//! (see [`crate::bits`]): `reveal(spec_flag)` and `reveal(spec_pack)` where a
//! proof has to compute with given bytes.

use crate::bits::{
    field, flag, flags_of_field, flags_of_pack, number_of_flags, pack, pack_of_flags, spec_field,
    spec_flag, spec_pack,
};
use crate::common::{CounterType, InputMode};
use vstd::prelude::*;

verus! {

/// The enumerated types that fields of the registers have.
#[derive(Debug, PartialEq, Eq, Clone, Copy)]
pub enum Enumerated {
    CounterType,
    InputMode,
    AutoHomeSearchStep,
    Alarm,
    InPos,
}

/// Why a buffer does not hold a register.
#[derive(Debug, PartialEq, Eq, Clone, Copy)]
pub enum DecodeError {
    /// The buffer ends before the register does: the field at which it ends
    /// has this many bits.
    Incomplete(usize),
    /// A field of this enumerated type holds this id, which the type does not
    /// declare.
    UnknownId(Enumerated, u8),
    /// The buffer goes on after the register.
    TooMuchData,
}

pub type MainStatusRegister = RR0;

/// RR0, the main status register.
#[derive(Debug, PartialEq, Eq, Clone, Copy)]
pub struct RR0 {
    /// First byte, `0x80`: the X axis is driving.
    pub x_drv: bool,
    /// First byte, `0x40`: the Y axis is driving.
    pub y_drv: bool,
    /// First byte, `0x20`: the Z axis is driving.
    pub z_drv: bool,
    /// First byte, `0x10`: the U axis is driving.
    pub u_drv: bool,
    /// First byte, `0x08`: the X axis is in error.
    pub x_error: bool,
    /// First byte, `0x04`: the Y axis is in error.
    pub y_error: bool,
    /// First byte, `0x02`: the Z axis is in error.
    pub z_error: bool,
    /// First byte, `0x01`: the U axis is in error.
    pub u_error: bool,
    /// Second byte, `0x80`: an interpolation drive is running.
    pub i_drv: bool,
    /// Second byte, `0x40`: the next data of a continuous interpolation may
    /// be written.
    pub c_next: bool,
    /// Second byte, `0x38`: the quadrant in which a circular interpolation
    /// drives.
    pub zone: u8,
    /// Second byte, `0x06`: the stack counter of a bit interpolation. The
    /// last bit, `0x01`, is reserved.
    pub bit_interpolate_stack_counter: u8,
}

impl RR0 {
    /// Both number fields fit the bits they have on the wire.
    pub open spec fn valid(&self) -> bool {
        self.zone < 8 && self.bit_interpolate_stack_counter < 4
    }

    /// The register that two bytes hold.
    pub open spec fn spec_from_bytes(first: u8, second: u8) -> RR0 {
        RR0 {
            x_drv: spec_flag(first, 0x80),
            y_drv: spec_flag(first, 0x40),
            z_drv: spec_flag(first, 0x20),
            u_drv: spec_flag(first, 0x10),
            x_error: spec_flag(first, 0x08),
            y_error: spec_flag(first, 0x04),
            z_error: spec_flag(first, 0x02),
            u_error: spec_flag(first, 0x01),
            i_drv: spec_flag(second, 0x80),
            c_next: spec_flag(second, 0x40),
            zone: spec_field(second, 0x08, 8),
            bit_interpolate_stack_counter: spec_field(second, 0x02, 4),
        }
    }

    /// The first byte of the wire image.
    pub open spec fn spec_first(&self) -> u8 {
        spec_pack(
            self.x_drv,
            self.y_drv,
            self.z_drv,
            self.u_drv,
            self.x_error,
            self.y_error,
            self.z_error,
            self.u_error,
        )
    }

    /// The second byte of the wire image. A number field gives its low bits.
    pub open spec fn spec_second(&self) -> u8 {
        spec_pack(
            self.i_drv,
            self.c_next,
            spec_flag(self.zone, 0x04),
            spec_flag(self.zone, 0x02),
            spec_flag(self.zone, 0x01),
            spec_flag(self.bit_interpolate_stack_counter, 0x02),
            spec_flag(self.bit_interpolate_stack_counter, 0x01),
            false,
        )
    }

    /// What decoding `bytes` gives.
    pub open spec fn spec_try_from(bytes: Seq<u8>) -> Result<RR0, DecodeError> {
        if bytes.len() < 2 {
            Err(DecodeError::Incomplete(1))
        } else if bytes.len() > 2 {
            Err(DecodeError::TooMuchData)
        } else {
            Ok(RR0::spec_from_bytes(bytes[0], bytes[1]))
        }
    }

    /// The wire image of the register.
    pub open spec fn spec_to_bytes(&self) -> Seq<u8> {
        seq![self.spec_first(), self.spec_second()]
    }

    /// Reads the register from its two bytes.
    pub fn from_bytes(first: u8, second: u8) -> (r: RR0)
        ensures
            r == RR0::spec_from_bytes(first, second),
    {
        RR0 {
        x_drv: flag(first, 0x80),
        y_drv: flag(first, 0x40),
        z_drv: flag(first, 0x20),
        u_drv: flag(first, 0x10),
        x_error: flag(first, 0x08),
        y_error: flag(first, 0x04),
        z_error: flag(first, 0x02),
        u_error: flag(first, 0x01),
        i_drv: flag(second, 0x80),
        c_next: flag(second, 0x40),
        zone: field(second, 0x08, 8),
        bit_interpolate_stack_counter: field(second, 0x02, 4),
    }
    }

    /// Decodes the register from its two bytes.
    pub fn try_from(bytes: &[u8]) -> (r: Result<RR0, DecodeError>)
        ensures
            r == RR0::spec_try_from(bytes@),
    {
        if bytes.len() < 2 {
            return Err(DecodeError::Incomplete(1));
        }
        if bytes.len() > 2 {
            return Err(DecodeError::TooMuchData);
        }
        Ok(RR0::from_bytes(bytes[0], bytes[1]))
    }

    /// The first byte of the wire image.
    pub fn first(&self) -> (byte: u8)
        ensures
            byte == self.spec_first(),
    {
        pack(
            self.x_drv,
            self.y_drv,
            self.z_drv,
            self.u_drv,
            self.x_error,
            self.y_error,
            self.z_error,
            self.u_error,
        )
    }

    /// The second byte of the wire image.
    pub fn second(&self) -> (byte: u8)
        ensures
            byte == self.spec_second(),
    {
        pack(
            self.i_drv,
            self.c_next,
            flag(self.zone, 0x04),
            flag(self.zone, 0x02),
            flag(self.zone, 0x01),
            flag(self.bit_interpolate_stack_counter, 0x02),
            flag(self.bit_interpolate_stack_counter, 0x01),
            false,
        )
    }

    /// Encodes the register into its two bytes.
    pub fn to_bytes(&self) -> (bytes: Vec<u8>)
        ensures
            bytes@ == self.spec_to_bytes(),
    {
        let first = self.first();
        let second = self.second();
        let bytes = vec![first, second];
        assert(bytes@ =~= self.spec_to_bytes());
        bytes
    }

    /// Reading the two bytes of the wire image gives the register back with
    /// its number fields cut to their bits.
    pub proof fn read_back(v: RR0)
        ensures
            RR0::spec_from_bytes(v.spec_first(), v.spec_second()) == (RR0 {
                zone: v.zone % 8,
                bit_interpolate_stack_counter: v.bit_interpolate_stack_counter % 4,
                ..v
            }),
    {
        RR0::first_read_back(v);
        RR0::second_read_back(v);
    }

    /// What the first byte of the wire image reads as.
    proof fn first_read_back(v: RR0)
        ensures
            spec_flag(v.spec_first(), 0x80) == v.x_drv,
            spec_flag(v.spec_first(), 0x40) == v.y_drv,
            spec_flag(v.spec_first(), 0x20) == v.z_drv,
            spec_flag(v.spec_first(), 0x10) == v.u_drv,
            spec_flag(v.spec_first(), 0x08) == v.x_error,
            spec_flag(v.spec_first(), 0x04) == v.y_error,
            spec_flag(v.spec_first(), 0x02) == v.z_error,
            spec_flag(v.spec_first(), 0x01) == v.u_error,
    {
        flags_of_pack(
            v.x_drv,
            v.y_drv,
            v.z_drv,
            v.u_drv,
            v.x_error,
            v.y_error,
            v.z_error,
            v.u_error,
        );
    }

    /// What the second byte of the wire image reads as.
    proof fn second_read_back(v: RR0)
        ensures
            spec_flag(v.spec_second(), 0x80) == v.i_drv,
            spec_flag(v.spec_second(), 0x40) == v.c_next,
            spec_field(v.spec_second(), 0x08, 8) == v.zone % 8,
            spec_field(v.spec_second(), 0x02, 4) == v.bit_interpolate_stack_counter % 4,
    {
        let second = v.spec_second();
        let (zone, count) = (v.zone, v.bit_interpolate_stack_counter);
        flags_of_pack(
            v.i_drv,
            v.c_next,
            spec_flag(zone, 0x04),
            spec_flag(zone, 0x02),
            spec_flag(zone, 0x01),
            spec_flag(count, 0x02),
            spec_flag(count, 0x01),
            false,
        );
        assert(spec_field(second, 0x08, 8) == zone % 8) by {
            flags_of_field(second, 0x08, 8);
            number_of_flags(spec_field(second, 0x08, 8), zone, 8);
        }
        assert(spec_field(second, 0x02, 4) == count % 4) by {
            flags_of_field(second, 0x02, 4);
            number_of_flags(spec_field(second, 0x02, 4), count, 4);
        }
    }

    /// Writing what two bytes hold gives the bytes back with the reserved bit
    /// cleared, and what they hold is valid.
    pub proof fn write_back(first: u8, second: u8)
        ensures
            RR0::spec_from_bytes(first, second).valid(),
            RR0::spec_from_bytes(first, second).spec_first() == first,
            RR0::spec_from_bytes(first, second).spec_second() == spec_pack(
                spec_flag(second, 0x80),
                spec_flag(second, 0x40),
                spec_flag(second, 0x20),
                spec_flag(second, 0x10),
                spec_flag(second, 0x08),
                spec_flag(second, 0x04),
                spec_flag(second, 0x02),
                false,
            ),
    {
        let v = RR0::spec_from_bytes(first, second);
        assert(v.spec_first() == first) by {
            pack_of_flags(first);
        }
        flags_of_field(second, 0x08, 8);
        flags_of_field(second, 0x02, 4);
    }

    /// Decoding what was encoded gives the register back, if its fields are
    /// valid.
    pub proof fn decode_encode(v: RR0)
        requires
            v.valid(),
        ensures
            RR0::spec_try_from(v.spec_to_bytes()) == Ok::<RR0, DecodeError>(v),
    {
        RR0::read_back(v);
    }

    /// Encoding what was decoded gives the buffer back with the reserved bit
    /// cleared.
    pub proof fn encode_decode(bytes: Seq<u8>)
        requires
            bytes.len() == 2,
        ensures
            RR0::spec_try_from(bytes) is Ok,
            RR0::spec_try_from(bytes)->Ok_0.spec_to_bytes() == seq![
                bytes[0],
                spec_pack(
                    spec_flag(bytes[1], 0x80),
                    spec_flag(bytes[1], 0x40),
                    spec_flag(bytes[1], 0x20),
                    spec_flag(bytes[1], 0x10),
                    spec_flag(bytes[1], 0x08),
                    spec_flag(bytes[1], 0x04),
                    spec_flag(bytes[1], 0x02),
                    false,
                ),
            ],
    {
        RR0::write_back(bytes[0], bytes[1]);
    }

    /// The reserved bit plays no part in what is decoded: two second bytes
    /// that differ in it alone hold the same register.
    pub proof fn reserved_bit_ignored(first: u8, second: u8, other: u8)
        requires
            second / 2 == other / 2,
        ensures
            RR0::spec_from_bytes(first, second) == RR0::spec_from_bytes(first, other),
    {
        reveal(spec_flag);
        assert(second / 2 == other / 2 ==> {
            &&& (second / 0x80) % 2 == (other / 0x80) % 2
            &&& (second / 0x40) % 2 == (other / 0x40) % 2
            &&& (second / 0x08) % 8 == (other / 0x08) % 8
            &&& (second / 0x02) % 4 == (other / 0x02) % 4
        }) by (bit_vector);
    }
}

pub type AxisStatusRegister = RR1;

/// RR1, the status register that each axis has of its own.
#[derive(Debug, PartialEq, Eq, Clone, Copy)]
pub struct RR1 {
    /// First byte, `0x80`: the position counter is at or above COMP+.
    pub comp_plus: bool,
    /// First byte, `0x40`: the position counter is below COMP-.
    pub comp_minus: bool,
    /// First byte, `0x20`: the drive is speeding up.
    pub v_ascending: bool,
    /// First byte, `0x10`: the drive runs at constant speed.
    pub v_const: bool,
    /// First byte, `0x08`: the drive is slowing down.
    pub v_descending: bool,
    /// First byte, `0x04`: in an S curve, the acceleration is growing.
    pub a_ascending: bool,
    /// First byte, `0x02`: in an S curve, the acceleration is constant.
    pub a_const: bool,
    /// First byte, `0x01`: in an S curve, the acceleration is shrinking.
    pub a_descending: bool,
    /// Second byte, `0x80`: the stop signal IN0 stopped the drive.
    pub in0: bool,
    /// Second byte, `0x40`: the stop signal IN1 stopped the drive.
    pub in1: bool,
    /// Second byte, `0x20`: the stop signal IN2 stopped the drive.
    pub in2: bool,
    /// Second byte, `0x10`: the stop signal IN3 stopped the drive.
    pub in3: bool,
    /// Second byte, `0x08`: the forward limit signal stopped the drive.
    pub limit_plus: bool,
    /// Second byte, `0x04`: the backward limit signal stopped the drive.
    pub limit_minus: bool,
    /// Second byte, `0x02`: the servo alarm signal stopped the drive.
    pub servo_alarm: bool,
    /// Second byte, `0x01`: the emergency stop signal stopped the drive.
    pub emergency: bool,
}

impl RR1 {
    /// The register that two bytes hold.
    pub open spec fn spec_from_bytes(first: u8, second: u8) -> RR1 {
        RR1 {
            comp_plus: spec_flag(first, 0x80),
            comp_minus: spec_flag(first, 0x40),
            v_ascending: spec_flag(first, 0x20),
            v_const: spec_flag(first, 0x10),
            v_descending: spec_flag(first, 0x08),
            a_ascending: spec_flag(first, 0x04),
            a_const: spec_flag(first, 0x02),
            a_descending: spec_flag(first, 0x01),
            in0: spec_flag(second, 0x80),
            in1: spec_flag(second, 0x40),
            in2: spec_flag(second, 0x20),
            in3: spec_flag(second, 0x10),
            limit_plus: spec_flag(second, 0x08),
            limit_minus: spec_flag(second, 0x04),
            servo_alarm: spec_flag(second, 0x02),
            emergency: spec_flag(second, 0x01),
        }
    }

    /// The first byte of the wire image.
    pub open spec fn spec_first(&self) -> u8 {
        spec_pack(
            self.comp_plus,
            self.comp_minus,
            self.v_ascending,
            self.v_const,
            self.v_descending,
            self.a_ascending,
            self.a_const,
            self.a_descending,
        )
    }

    /// The second byte of the wire image.
    pub open spec fn spec_second(&self) -> u8 {
        spec_pack(
            self.in0,
            self.in1,
            self.in2,
            self.in3,
            self.limit_plus,
            self.limit_minus,
            self.servo_alarm,
            self.emergency,
        )
    }

    /// What decoding `bytes` gives.
    pub open spec fn spec_try_from(bytes: Seq<u8>) -> Result<RR1, DecodeError> {
        if bytes.len() < 2 {
            Err(DecodeError::Incomplete(1))
        } else if bytes.len() > 2 {
            Err(DecodeError::TooMuchData)
        } else {
            Ok(RR1::spec_from_bytes(bytes[0], bytes[1]))
        }
    }

    /// The wire image of the register.
    pub open spec fn spec_to_bytes(&self) -> Seq<u8> {
        seq![self.spec_first(), self.spec_second()]
    }

    /// Reads the register from its two bytes.
    pub fn from_bytes(first: u8, second: u8) -> (r: RR1)
        ensures
            r == RR1::spec_from_bytes(first, second),
    {
        RR1 {
        comp_plus: flag(first, 0x80),
        comp_minus: flag(first, 0x40),
        v_ascending: flag(first, 0x20),
        v_const: flag(first, 0x10),
        v_descending: flag(first, 0x08),
        a_ascending: flag(first, 0x04),
        a_const: flag(first, 0x02),
        a_descending: flag(first, 0x01),
        in0: flag(second, 0x80),
        in1: flag(second, 0x40),
        in2: flag(second, 0x20),
        in3: flag(second, 0x10),
        limit_plus: flag(second, 0x08),
        limit_minus: flag(second, 0x04),
        servo_alarm: flag(second, 0x02),
        emergency: flag(second, 0x01),
    }
    }

    /// Decodes the register from its two bytes.
    pub fn try_from(bytes: &[u8]) -> (r: Result<RR1, DecodeError>)
        ensures
            r == RR1::spec_try_from(bytes@),
    {
        if bytes.len() < 2 {
            return Err(DecodeError::Incomplete(1));
        }
        if bytes.len() > 2 {
            return Err(DecodeError::TooMuchData);
        }
        Ok(RR1::from_bytes(bytes[0], bytes[1]))
    }

    /// The first byte of the wire image.
    pub fn first(&self) -> (byte: u8)
        ensures
            byte == self.spec_first(),
    {
        pack(
            self.comp_plus,
            self.comp_minus,
            self.v_ascending,
            self.v_const,
            self.v_descending,
            self.a_ascending,
            self.a_const,
            self.a_descending,
        )
    }

    /// The second byte of the wire image.
    pub fn second(&self) -> (byte: u8)
        ensures
            byte == self.spec_second(),
    {
        pack(
            self.in0,
            self.in1,
            self.in2,
            self.in3,
            self.limit_plus,
            self.limit_minus,
            self.servo_alarm,
            self.emergency,
        )
    }

    /// Encodes the register into its two bytes.
    pub fn to_bytes(&self) -> (bytes: Vec<u8>)
        ensures
            bytes@ == self.spec_to_bytes(),
    {
        let first = self.first();
        let second = self.second();
        let bytes = vec![first, second];
        assert(bytes@ =~= self.spec_to_bytes());
        bytes
    }

    /// Reading the two bytes of the wire image gives the register back.
    pub proof fn read_back(v: RR1)
        ensures
            RR1::spec_from_bytes(v.spec_first(), v.spec_second()) == v,
    {
        RR1::first_read_back(v);
        RR1::second_read_back(v);
    }

    /// What the first byte of the wire image reads as.
    proof fn first_read_back(v: RR1)
        ensures
            spec_flag(v.spec_first(), 0x80) == v.comp_plus,
            spec_flag(v.spec_first(), 0x40) == v.comp_minus,
            spec_flag(v.spec_first(), 0x20) == v.v_ascending,
            spec_flag(v.spec_first(), 0x10) == v.v_const,
            spec_flag(v.spec_first(), 0x08) == v.v_descending,
            spec_flag(v.spec_first(), 0x04) == v.a_ascending,
            spec_flag(v.spec_first(), 0x02) == v.a_const,
            spec_flag(v.spec_first(), 0x01) == v.a_descending,
    {
        flags_of_pack(
            v.comp_plus,
            v.comp_minus,
            v.v_ascending,
            v.v_const,
            v.v_descending,
            v.a_ascending,
            v.a_const,
            v.a_descending,
        );
    }

    /// What the second byte of the wire image reads as.
    proof fn second_read_back(v: RR1)
        ensures
            spec_flag(v.spec_second(), 0x80) == v.in0,
            spec_flag(v.spec_second(), 0x40) == v.in1,
            spec_flag(v.spec_second(), 0x20) == v.in2,
            spec_flag(v.spec_second(), 0x10) == v.in3,
            spec_flag(v.spec_second(), 0x08) == v.limit_plus,
            spec_flag(v.spec_second(), 0x04) == v.limit_minus,
            spec_flag(v.spec_second(), 0x02) == v.servo_alarm,
            spec_flag(v.spec_second(), 0x01) == v.emergency,
    {
        flags_of_pack(
            v.in0,
            v.in1,
            v.in2,
            v.in3,
            v.limit_plus,
            v.limit_minus,
            v.servo_alarm,
            v.emergency,
        );
    }

    /// Writing what two bytes hold gives the bytes back.
    pub proof fn write_back(first: u8, second: u8)
        ensures
            RR1::spec_from_bytes(first, second).spec_first() == first,
            RR1::spec_from_bytes(first, second).spec_second() == second,
    {
        let v = RR1::spec_from_bytes(first, second);
        assert(v.spec_first() == first) by {
            pack_of_flags(first);
        }
        assert(v.spec_second() == second) by {
            pack_of_flags(second);
        }
    }

    /// Decoding what was encoded gives the register back.
    pub proof fn decode_encode(v: RR1)
        ensures
            RR1::spec_try_from(v.spec_to_bytes()) == Ok::<RR1, DecodeError>(v),
    {
        RR1::read_back(v);
    }

    /// Encoding what was decoded gives the buffer back.
    pub proof fn encode_decode(bytes: Seq<u8>)
        requires
            bytes.len() == 2,
        ensures
            RR1::spec_try_from(bytes) is Ok,
            RR1::spec_try_from(bytes)->Ok_0.spec_to_bytes() == bytes,
    {
        RR1::write_back(bytes[0], bytes[1]);
    }
}

pub type AxisErrorRegister = RR2;

/// The step that an automatic home search has reached. Five bits on the wire.
#[derive(Debug, PartialEq, Eq, Clone, Copy)]
pub enum AutoHomeSearchStep {
    /// Waiting for the command that starts the search (id 0).
    Step0,
    /// Waiting for IN0 to become active in the given direction (id 3).
    Step3,
    /// Waiting for IN1 to become active in the given direction (id 8).
    Step8,
    /// Waiting for IN1 to become active in the given direction (id 12).
    Step12,
    /// Waiting for IN1 to become active in the given direction (id 15).
    Step15,
    /// IN2 is active in the given direction (id 20).
    Step20,
    /// The fourth step of the search (id 25).
    Step25,
}

impl AutoHomeSearchStep {
    /// The id that stands for the step on the wire.
    pub open spec fn spec_id(&self) -> u8 {
        match self {
            AutoHomeSearchStep::Step0 => 0,
            AutoHomeSearchStep::Step3 => 3,
            AutoHomeSearchStep::Step8 => 8,
            AutoHomeSearchStep::Step12 => 12,
            AutoHomeSearchStep::Step15 => 15,
            AutoHomeSearchStep::Step20 => 20,
            AutoHomeSearchStep::Step25 => 25,
        }
    }

    /// The step that an id stands for, if the id is declared.
    pub open spec fn spec_from_id(id: u8) -> Option<AutoHomeSearchStep> {
        if id == 0 {
            Some(AutoHomeSearchStep::Step0)
        } else if id == 3 {
            Some(AutoHomeSearchStep::Step3)
        } else if id == 8 {
            Some(AutoHomeSearchStep::Step8)
        } else if id == 12 {
            Some(AutoHomeSearchStep::Step12)
        } else if id == 15 {
            Some(AutoHomeSearchStep::Step15)
        } else if id == 20 {
            Some(AutoHomeSearchStep::Step20)
        } else if id == 25 {
            Some(AutoHomeSearchStep::Step25)
        } else {
            None
        }
    }

    /// The id that stands for the step on the wire.
    pub fn id(&self) -> (r: u8)
        ensures
            r == self.spec_id(),
            r < 32,
            AutoHomeSearchStep::spec_from_id(r) == Some(*self),
    {
        match self {
            AutoHomeSearchStep::Step0 => 0,
            AutoHomeSearchStep::Step3 => 3,
            AutoHomeSearchStep::Step8 => 8,
            AutoHomeSearchStep::Step12 => 12,
            AutoHomeSearchStep::Step15 => 15,
            AutoHomeSearchStep::Step20 => 20,
            AutoHomeSearchStep::Step25 => 25,
        }
    }

    /// The step that an id stands for; `None` for any id but 0, 3, 8, 12, 15,
    /// 20 and 25.
    pub fn from_id(id: u8) -> (r: Option<AutoHomeSearchStep>)
        ensures
            r == AutoHomeSearchStep::spec_from_id(id),
            r is Some <==> (id == 0 || id == 3 || id == 8 || id == 12 || id == 15 || id == 20 || id
                == 25),
            r matches Some(step) ==> step.spec_id() == id,
    {
        if id == 0 {
            Some(AutoHomeSearchStep::Step0)
        } else if id == 3 {
            Some(AutoHomeSearchStep::Step3)
        } else if id == 8 {
            Some(AutoHomeSearchStep::Step8)
        } else if id == 12 {
            Some(AutoHomeSearchStep::Step12)
        } else if id == 15 {
            Some(AutoHomeSearchStep::Step15)
        } else if id == 20 {
            Some(AutoHomeSearchStep::Step20)
        } else if id == 25 {
            Some(AutoHomeSearchStep::Step25)
        } else {
            None
        }
    }
}

/// RR2, the error register that each axis has of its own.
#[derive(Debug, PartialEq, Eq, Clone, Copy)]
pub struct RR2 {
    /// First byte, `0x80`: driving forwards, the position counter went above
    /// COMP+ while the forward software limit was on.
    pub software_limit_plus: bool,
    /// First byte, `0x40`: driving backwards, the position counter went below
    /// COMP- while the backward software limit was on.
    pub software_limit_minus: bool,
    /// First byte, `0x20`: the forward limit signal is active.
    pub hardware_limit_plus: bool,
    /// First byte, `0x10`: the backward limit signal is active.
    pub hardware_limit_minus: bool,
    /// First byte, `0x08`: the servo alarm signal is enabled and active.
    pub servo_alarm: bool,
    /// First byte, `0x04`: the emergency stop signal is low.
    pub emergency: bool,
    /// First byte, `0x02`: the encoder's Z phase failed during a home search.
    pub home_error: bool,
    /// The last bit of the first byte, `0x01`, and the high half of the
    /// second, `0xf0`: the step of the home search. The low half of the
    /// second byte, `0x0f`, is reserved.
    pub home_step: AutoHomeSearchStep,
}

impl RR2 {
    /// The id of the home search step that two bytes hold: five bits that
    /// start in the first byte and go on in the second.
    pub open spec fn spec_step_id(first: u8, second: u8) -> u8 {
        (16 * spec_field(first, 0x01, 2) + spec_field(second, 0x10, 16)) as u8
    }

    /// The bits of the field at which a buffer that is too short ends: the
    /// five bits of the step where one byte is there, the one bit of the
    /// first flag where none is.
    pub open spec fn spec_missing(len: nat) -> usize {
        if len == 1 {
            5
        } else {
            1
        }
    }

    /// The register that two bytes hold, if they hold a declared step.
    pub open spec fn spec_from_bytes(first: u8, second: u8) -> Result<RR2, DecodeError> {
        match AutoHomeSearchStep::spec_from_id(RR2::spec_step_id(first, second)) {
            Some(home_step) => Ok(
                RR2 {
                    software_limit_plus: spec_flag(first, 0x80),
                    software_limit_minus: spec_flag(first, 0x40),
                    hardware_limit_plus: spec_flag(first, 0x20),
                    hardware_limit_minus: spec_flag(first, 0x10),
                    servo_alarm: spec_flag(first, 0x08),
                    emergency: spec_flag(first, 0x04),
                    home_error: spec_flag(first, 0x02),
                    home_step,
                },
            ),
            None => Err(DecodeError::UnknownId(
                Enumerated::AutoHomeSearchStep,
                RR2::spec_step_id(first, second),
            )),
        }
    }

    /// The first byte of the wire image.
    pub open spec fn spec_first(&self) -> u8 {
        spec_pack(
            self.software_limit_plus,
            self.software_limit_minus,
            self.hardware_limit_plus,
            self.hardware_limit_minus,
            self.servo_alarm,
            self.emergency,
            self.home_error,
            spec_flag(self.home_step.spec_id(), 0x10),
        )
    }

    /// The second byte of the wire image.
    pub open spec fn spec_second(&self) -> u8 {
        spec_pack(
            spec_flag(self.home_step.spec_id(), 0x08),
            spec_flag(self.home_step.spec_id(), 0x04),
            spec_flag(self.home_step.spec_id(), 0x02),
            spec_flag(self.home_step.spec_id(), 0x01),
            false,
            false,
            false,
            false,
        )
    }

    /// What decoding `bytes` gives.
    pub open spec fn spec_try_from(bytes: Seq<u8>) -> Result<RR2, DecodeError> {
        if bytes.len() < 2 {
            Err(DecodeError::Incomplete(RR2::spec_missing(bytes.len())))
        } else {
            match RR2::spec_from_bytes(bytes[0], bytes[1]) {
                Err(e) => Err(e),
                Ok(v) => if bytes.len() > 2 {
                    Err(DecodeError::TooMuchData)
                } else {
                    Ok(v)
                },
            }
        }
    }

    /// The wire image of the register.
    pub open spec fn spec_to_bytes(&self) -> Seq<u8> {
        seq![self.spec_first(), self.spec_second()]
    }

    /// Reads the register from its two bytes.
    pub fn from_bytes(first: u8, second: u8) -> (r: Result<RR2, DecodeError>)
        ensures
            r == RR2::spec_from_bytes(first, second),
    {
        let id = 16 * field(first, 0x01, 2) + field(second, 0x10, 16);
        match AutoHomeSearchStep::from_id(id) {
            Some(home_step) => Ok(
                RR2 {
                    software_limit_plus: flag(first, 0x80),
                    software_limit_minus: flag(first, 0x40),
                    hardware_limit_plus: flag(first, 0x20),
                    hardware_limit_minus: flag(first, 0x10),
                    servo_alarm: flag(first, 0x08),
                    emergency: flag(first, 0x04),
                    home_error: flag(first, 0x02),
                    home_step,
                },
            ),
            None => Err(DecodeError::UnknownId(Enumerated::AutoHomeSearchStep, id)),
        }
    }

    /// Decodes the register from its two bytes.
    pub fn try_from(bytes: &[u8]) -> (r: Result<RR2, DecodeError>)
        ensures
            r == RR2::spec_try_from(bytes@),
    {
        if bytes.len() < 2 {
            let missing: usize = if bytes.len() == 1 {
                5
            } else {
                1
            };
            return Err(DecodeError::Incomplete(missing));
        }
        match RR2::from_bytes(bytes[0], bytes[1]) {
            Err(e) => Err(e),
            Ok(v) => if bytes.len() > 2 {
                Err(DecodeError::TooMuchData)
            } else {
                Ok(v)
            },
        }
    }

    /// The first byte of the wire image.
    pub fn first(&self) -> (byte: u8)
        ensures
            byte == self.spec_first(),
    {
        pack(
            self.software_limit_plus,
            self.software_limit_minus,
            self.hardware_limit_plus,
            self.hardware_limit_minus,
            self.servo_alarm,
            self.emergency,
            self.home_error,
            flag(self.home_step.id(), 0x10),
        )
    }

    /// The second byte of the wire image.
    pub fn second(&self) -> (byte: u8)
        ensures
            byte == self.spec_second(),
    {
        let id = self.home_step.id();
        pack(flag(id, 0x08), flag(id, 0x04), flag(id, 0x02), flag(id, 0x01), false, false, false, false)
    }

    /// Encodes the register into its two bytes.
    pub fn to_bytes(&self) -> (bytes: Vec<u8>)
        ensures
            bytes@ == self.spec_to_bytes(),
    {
        let first = self.first();
        let second = self.second();
        let bytes = vec![first, second];
        assert(bytes@ =~= self.spec_to_bytes());
        bytes
    }

    /// The five bits of the step id are the last bit of the first byte and the
    /// four high bits of the second.
    pub proof fn flags_of_step_id(first: u8, second: u8)
        ensures
            RR2::spec_step_id(first, second) < 32,
            spec_flag(RR2::spec_step_id(first, second), 0x10) == spec_flag(first, 0x01),
            spec_flag(RR2::spec_step_id(first, second), 0x08) == spec_flag(second, 0x80),
            spec_flag(RR2::spec_step_id(first, second), 0x04) == spec_flag(second, 0x40),
            spec_flag(RR2::spec_step_id(first, second), 0x02) == spec_flag(second, 0x20),
            spec_flag(RR2::spec_step_id(first, second), 0x01) == spec_flag(second, 0x10),
    {
        reveal(spec_flag);
        let id = RR2::spec_step_id(first, second);
        assert(id == 16 * ((first / 0x01) % 2) + ((second / 0x10) % 16) ==> {
            &&& id < 32
            &&& ((id / 0x10) % 2 == 1) == ((first / 0x01) % 2 == 1)
            &&& ((id / 0x08) % 2 == 1) == ((second / 0x80) % 2 == 1)
            &&& ((id / 0x04) % 2 == 1) == ((second / 0x40) % 2 == 1)
            &&& ((id / 0x02) % 2 == 1) == ((second / 0x20) % 2 == 1)
            &&& ((id / 0x01) % 2 == 1) == ((second / 0x10) % 2 == 1)
        }) by (bit_vector);
    }

    /// Reading the two bytes of the wire image gives the register back.
    pub proof fn read_back(v: RR2)
        ensures
            RR2::spec_from_bytes(v.spec_first(), v.spec_second()) == Ok::<RR2, DecodeError>(v),
    {
        RR2::first_read_back(v);
        RR2::step_read_back(v);
    }

    /// What the first byte of the wire image reads as.
    proof fn first_read_back(v: RR2)
        ensures
            spec_flag(v.spec_first(), 0x80) == v.software_limit_plus,
            spec_flag(v.spec_first(), 0x40) == v.software_limit_minus,
            spec_flag(v.spec_first(), 0x20) == v.hardware_limit_plus,
            spec_flag(v.spec_first(), 0x10) == v.hardware_limit_minus,
            spec_flag(v.spec_first(), 0x08) == v.servo_alarm,
            spec_flag(v.spec_first(), 0x04) == v.emergency,
            spec_flag(v.spec_first(), 0x02) == v.home_error,
            spec_flag(v.spec_first(), 0x01) == spec_flag(v.home_step.spec_id(), 0x10),
    {
        flags_of_pack(
            v.software_limit_plus,
            v.software_limit_minus,
            v.hardware_limit_plus,
            v.hardware_limit_minus,
            v.servo_alarm,
            v.emergency,
            v.home_error,
            spec_flag(v.home_step.spec_id(), 0x10),
        );
    }

    /// The step that the two bytes of the wire image read as.
    proof fn step_read_back(v: RR2)
        ensures
            AutoHomeSearchStep::spec_from_id(RR2::spec_step_id(v.spec_first(), v.spec_second()))
                == Some(v.home_step),
    {
        let id = v.home_step.spec_id();
        assert(RR2::spec_step_id(v.spec_first(), v.spec_second()) == id) by {
            RR2::first_read_back(v);
            flags_of_pack(
                spec_flag(id, 0x08),
                spec_flag(id, 0x04),
                spec_flag(id, 0x02),
                spec_flag(id, 0x01),
                false,
                false,
                false,
                false,
            );
            RR2::flags_of_step_id(v.spec_first(), v.spec_second());
            number_of_flags(RR2::spec_step_id(v.spec_first(), v.spec_second()), id, 32);
        }
    }

    /// Writing what two bytes hold gives the bytes back with the reserved
    /// bits cleared.
    pub proof fn write_back(first: u8, second: u8)
        requires
            RR2::spec_from_bytes(first, second) is Ok,
        ensures
            RR2::spec_from_bytes(first, second)->Ok_0.spec_first() == first,
            RR2::spec_from_bytes(first, second)->Ok_0.spec_second() == spec_pack(
                spec_flag(second, 0x80),
                spec_flag(second, 0x40),
                spec_flag(second, 0x20),
                spec_flag(second, 0x10),
                false,
                false,
                false,
                false,
            ),
    {
        let v = RR2::spec_from_bytes(first, second)->Ok_0;
        RR2::flags_of_step_id(first, second);
        assert(v.spec_first() == first) by {
            pack_of_flags(first);
        }
    }

    /// Decoding what was encoded gives the register back.
    pub proof fn decode_encode(v: RR2)
        ensures
            RR2::spec_try_from(v.spec_to_bytes()) == Ok::<RR2, DecodeError>(v),
    {
        RR2::read_back(v);
    }

    /// Encoding what was decoded gives the buffer back with the reserved bits
    /// cleared.
    pub proof fn encode_decode(bytes: Seq<u8>)
        requires
            RR2::spec_try_from(bytes) is Ok,
        ensures
            bytes.len() == 2,
            RR2::spec_try_from(bytes)->Ok_0.spec_to_bytes() == seq![
                bytes[0],
                spec_pack(
                    spec_flag(bytes[1], 0x80),
                    spec_flag(bytes[1], 0x40),
                    spec_flag(bytes[1], 0x20),
                    spec_flag(bytes[1], 0x10),
                    false,
                    false,
                    false,
                    false,
                ),
            ],
    {
        RR2::write_back(bytes[0], bytes[1]);
    }

    /// A buffer of two bytes or more whose step id is not declared is
    /// refused, and the error names the id.
    pub proof fn undeclared_step_refused(bytes: Seq<u8>)
        requires
            bytes.len() >= 2,
            AutoHomeSearchStep::spec_from_id(RR2::spec_step_id(bytes[0], bytes[1])) is None,
        ensures
            RR2::spec_try_from(bytes) == Err::<RR2, DecodeError>(
                DecodeError::UnknownId(
                    Enumerated::AutoHomeSearchStep,
                    RR2::spec_step_id(bytes[0], bytes[1]),
                ),
            ),
    {
    }

    /// The reserved bits play no part in what is decoded: two second bytes
    /// that differ in them alone hold the same register.
    pub proof fn reserved_bits_ignored(first: u8, second: u8, other: u8)
        requires
            second / 16 == other / 16,
        ensures
            RR2::spec_from_bytes(first, second) == RR2::spec_from_bytes(first, other),
    {
    }
}

/// The levels of the external signals of one axis. One byte on the wire.
#[derive(Debug, PartialEq, Eq, Clone, Copy)]
pub struct AxisExternalSignal {
    /// `0x80`: the level of the stop signal IN0.
    pub in0: bool,
    /// `0x40`: the level of the stop signal IN1.
    pub in1: bool,
    /// `0x20`: the level of the stop signal IN2.
    pub in2: bool,
    /// `0x10`: the level of the stop signal IN3.
    pub in3: bool,
    /// `0x08`: the level of the forward jog input EXPP.
    pub p_p: bool,
    /// `0x04`: the level of the backward jog input EXPM.
    pub p_m: bool,
    /// `0x02`: the level of the servo's in-position signal INPOS.
    pub in_position: bool,
    /// `0x01`: the level of the servo's alarm signal ALARM.
    pub servo_alarm: bool,
}

impl AxisExternalSignal {
    /// The signals that a byte holds.
    pub open spec fn spec_from_byte(byte: u8) -> AxisExternalSignal {
        AxisExternalSignal {
            in0: spec_flag(byte, 0x80),
            in1: spec_flag(byte, 0x40),
            in2: spec_flag(byte, 0x20),
            in3: spec_flag(byte, 0x10),
            p_p: spec_flag(byte, 0x08),
            p_m: spec_flag(byte, 0x04),
            in_position: spec_flag(byte, 0x02),
            servo_alarm: spec_flag(byte, 0x01),
        }
    }

    /// The byte that holds the signals.
    pub open spec fn spec_byte(&self) -> u8 {
        spec_pack(
            self.in0,
            self.in1,
            self.in2,
            self.in3,
            self.p_p,
            self.p_m,
            self.in_position,
            self.servo_alarm,
        )
    }

    /// Reads the signals from their byte.
    pub fn from_byte(byte: u8) -> (r: AxisExternalSignal)
        ensures
            r == AxisExternalSignal::spec_from_byte(byte),
    {
        AxisExternalSignal {
            in0: flag(byte, 0x80),
            in1: flag(byte, 0x40),
            in2: flag(byte, 0x20),
            in3: flag(byte, 0x10),
            p_p: flag(byte, 0x08),
            p_m: flag(byte, 0x04),
            in_position: flag(byte, 0x02),
            servo_alarm: flag(byte, 0x01),
        }
    }

    /// The byte that holds the signals.
    pub fn byte(&self) -> (byte: u8)
        ensures
            byte == self.spec_byte(),
    {
        pack(
            self.in0,
            self.in1,
            self.in2,
            self.in3,
            self.p_p,
            self.p_m,
            self.in_position,
            self.servo_alarm,
        )
    }

    /// Reading the byte of the signals gives the signals back.
    pub proof fn read_back(v: AxisExternalSignal)
        ensures
            AxisExternalSignal::spec_from_byte(v.spec_byte()) == v,
    {
        flags_of_pack(v.in0, v.in1, v.in2, v.in3, v.p_p, v.p_m, v.in_position, v.servo_alarm);
    }

    /// Writing what a byte holds gives the byte back.
    pub proof fn write_back(byte: u8)
        ensures
            AxisExternalSignal::spec_from_byte(byte).spec_byte() == byte,
    {
        pack_of_flags(byte);
    }
}

pub type ExternalSignalXY = RR3;

/// RR3, the external signals of the X and Y axes.
#[derive(Debug, PartialEq, Eq, Clone, Copy)]
pub struct RR3 {
    /// First byte: the signals of the X axis.
    pub x: AxisExternalSignal,
    /// Second byte: the signals of the Y axis.
    pub y: AxisExternalSignal,
}

impl RR3 {
    /// The register that two bytes hold.
    pub open spec fn spec_from_bytes(first: u8, second: u8) -> RR3 {
        RR3 {
            x: AxisExternalSignal::spec_from_byte(first),
            y: AxisExternalSignal::spec_from_byte(second),
        }
    }

    /// What decoding `bytes` gives.
    pub open spec fn spec_try_from(bytes: Seq<u8>) -> Result<RR3, DecodeError> {
        if bytes.len() < 2 {
            Err(DecodeError::Incomplete(1))
        } else if bytes.len() > 2 {
            Err(DecodeError::TooMuchData)
        } else {
            Ok(RR3::spec_from_bytes(bytes[0], bytes[1]))
        }
    }

    /// The wire image of the register.
    pub open spec fn spec_to_bytes(&self) -> Seq<u8> {
        seq![self.x.spec_byte(), self.y.spec_byte()]
    }

    /// Decodes the register from its two bytes.
    pub fn try_from(bytes: &[u8]) -> (r: Result<RR3, DecodeError>)
        ensures
            r == RR3::spec_try_from(bytes@),
    {
        if bytes.len() < 2 {
            return Err(DecodeError::Incomplete(1));
        }
        if bytes.len() > 2 {
            return Err(DecodeError::TooMuchData);
        }
        let x = AxisExternalSignal::from_byte(bytes[0]);
        let y = AxisExternalSignal::from_byte(bytes[1]);
        Ok(RR3 { x, y })
    }

    /// Encodes the register into its two bytes.
    pub fn to_bytes(&self) -> (bytes: Vec<u8>)
        ensures
            bytes@ == self.spec_to_bytes(),
    {
        let first = self.x.byte();
        let second = self.y.byte();
        let bytes = vec![first, second];
        assert(bytes@ =~= self.spec_to_bytes());
        bytes
    }

    /// Decoding what was encoded gives the register back.
    pub proof fn decode_encode(v: RR3)
        ensures
            RR3::spec_try_from(v.spec_to_bytes()) == Ok::<RR3, DecodeError>(v),
    {
        AxisExternalSignal::read_back(v.x);
        AxisExternalSignal::read_back(v.y);
    }

    /// Encoding what was decoded gives the buffer back.
    pub proof fn encode_decode(bytes: Seq<u8>)
        requires
            bytes.len() == 2,
        ensures
            RR3::spec_try_from(bytes) is Ok,
            RR3::spec_try_from(bytes)->Ok_0.spec_to_bytes() == bytes,
    {
        AxisExternalSignal::write_back(bytes[0]);
        AxisExternalSignal::write_back(bytes[1]);
    }
}

pub type ExternalSignalZU = RR4;

/// RR4, the external signals of the Z and U axes.
#[derive(Debug, PartialEq, Eq, Clone, Copy)]
pub struct RR4 {
    /// First byte: the signals of the Z axis.
    pub z: AxisExternalSignal,
    /// Second byte: the signals of the U axis.
    pub u: AxisExternalSignal,
}

impl RR4 {
    /// The register that two bytes hold.
    pub open spec fn spec_from_bytes(first: u8, second: u8) -> RR4 {
        RR4 {
            z: AxisExternalSignal::spec_from_byte(first),
            u: AxisExternalSignal::spec_from_byte(second),
        }
    }

    /// What decoding `bytes` gives.
    pub open spec fn spec_try_from(bytes: Seq<u8>) -> Result<RR4, DecodeError> {
        if bytes.len() < 2 {
            Err(DecodeError::Incomplete(1))
        } else if bytes.len() > 2 {
            Err(DecodeError::TooMuchData)
        } else {
            Ok(RR4::spec_from_bytes(bytes[0], bytes[1]))
        }
    }

    /// The wire image of the register.
    pub open spec fn spec_to_bytes(&self) -> Seq<u8> {
        seq![self.z.spec_byte(), self.u.spec_byte()]
    }

    /// Decodes the register from its two bytes.
    pub fn try_from(bytes: &[u8]) -> (r: Result<RR4, DecodeError>)
        ensures
            r == RR4::spec_try_from(bytes@),
    {
        if bytes.len() < 2 {
            return Err(DecodeError::Incomplete(1));
        }
        if bytes.len() > 2 {
            return Err(DecodeError::TooMuchData);
        }
        let z = AxisExternalSignal::from_byte(bytes[0]);
        let u = AxisExternalSignal::from_byte(bytes[1]);
        Ok(RR4 { z, u })
    }

    /// Encodes the register into its two bytes.
    pub fn to_bytes(&self) -> (bytes: Vec<u8>)
        ensures
            bytes@ == self.spec_to_bytes(),
    {
        let first = self.z.byte();
        let second = self.u.byte();
        let bytes = vec![first, second];
        assert(bytes@ =~= self.spec_to_bytes());
        bytes
    }

    /// Decoding what was encoded gives the register back.
    pub proof fn decode_encode(v: RR4)
        ensures
            RR4::spec_try_from(v.spec_to_bytes()) == Ok::<RR4, DecodeError>(v),
    {
        AxisExternalSignal::read_back(v.z);
        AxisExternalSignal::read_back(v.u);
    }

    /// Encoding what was decoded gives the buffer back.
    pub proof fn encode_decode(bytes: Seq<u8>)
        requires
            bytes.len() == 2,
        ensures
            RR4::spec_try_from(bytes) is Ok,
            RR4::spec_try_from(bytes)->Ok_0.spec_to_bytes() == bytes,
    {
        AxisExternalSignal::write_back(bytes[0]);
        AxisExternalSignal::write_back(bytes[1]);
    }
}

pub type InterruptRegister = RR5;

/// RR5, the interrupt register: why the card raised an interrupt. Nine
/// flags, and seven reserved bits after them.
#[derive(Debug, PartialEq, Eq, Clone, Copy)]
pub struct RR5 {
    /// First byte, `0x80`: a drive pulse went out.
    pub pulse: bool,
    /// First byte, `0x40`: the position counter came to or above COMP-.
    pub p_bigger_than_comp_minus: bool,
    /// First byte, `0x20`: the position counter fell below COMP-.
    pub p_s_c_m: bool,
    /// First byte, `0x10`: the position counter fell below COMP+.
    pub p_s_c_p: bool,
    /// First byte, `0x08`: the position counter came to or above COMP+.
    pub p_b_c_p: bool,
    /// First byte, `0x04`: the drive began to slow down.
    pub c_dec: bool,
    /// First byte, `0x02`: the drive began to run at constant speed.
    pub const_start: bool,
    /// First byte, `0x01`: the drive ended.
    pub drive_end: bool,
    /// Second byte, `0x80`: an automatic home search ended. The other seven
    /// bits, `0x7f`, are reserved.
    pub home_end: bool,
}

impl RR5 {
    /// The register that two bytes hold.
    pub open spec fn spec_from_bytes(first: u8, second: u8) -> RR5 {
        RR5 {
            pulse: spec_flag(first, 0x80),
            p_bigger_than_comp_minus: spec_flag(first, 0x40),
            p_s_c_m: spec_flag(first, 0x20),
            p_s_c_p: spec_flag(first, 0x10),
            p_b_c_p: spec_flag(first, 0x08),
            c_dec: spec_flag(first, 0x04),
            const_start: spec_flag(first, 0x02),
            drive_end: spec_flag(first, 0x01),
            home_end: spec_flag(second, 0x80),
        }
    }

    /// The first byte of the wire image.
    pub open spec fn spec_first(&self) -> u8 {
        spec_pack(
            self.pulse,
            self.p_bigger_than_comp_minus,
            self.p_s_c_m,
            self.p_s_c_p,
            self.p_b_c_p,
            self.c_dec,
            self.const_start,
            self.drive_end,
        )
    }

    /// The second byte of the wire image.
    pub open spec fn spec_second(&self) -> u8 {
        spec_pack(self.home_end, false, false, false, false, false, false, false)
    }

    /// What decoding `bytes` gives.
    pub open spec fn spec_try_from(bytes: Seq<u8>) -> Result<RR5, DecodeError> {
        if bytes.len() < 2 {
            Err(DecodeError::Incomplete(1))
        } else if bytes.len() > 2 {
            Err(DecodeError::TooMuchData)
        } else {
            Ok(RR5::spec_from_bytes(bytes[0], bytes[1]))
        }
    }

    /// The wire image of the register.
    pub open spec fn spec_to_bytes(&self) -> Seq<u8> {
        seq![self.spec_first(), self.spec_second()]
    }

    /// Reads the register from its two bytes.
    pub fn from_bytes(first: u8, second: u8) -> (r: RR5)
        ensures
            r == RR5::spec_from_bytes(first, second),
    {
        RR5 {
            pulse: flag(first, 0x80),
            p_bigger_than_comp_minus: flag(first, 0x40),
            p_s_c_m: flag(first, 0x20),
            p_s_c_p: flag(first, 0x10),
            p_b_c_p: flag(first, 0x08),
            c_dec: flag(first, 0x04),
            const_start: flag(first, 0x02),
            drive_end: flag(first, 0x01),
            home_end: flag(second, 0x80),
        }
    }

    /// Decodes the register from its two bytes.
    pub fn try_from(bytes: &[u8]) -> (r: Result<RR5, DecodeError>)
        ensures
            r == RR5::spec_try_from(bytes@),
    {
        if bytes.len() < 2 {
            return Err(DecodeError::Incomplete(1));
        }
        if bytes.len() > 2 {
            return Err(DecodeError::TooMuchData);
        }
        Ok(RR5::from_bytes(bytes[0], bytes[1]))
    }

    /// The first byte of the wire image.
    pub fn first(&self) -> (byte: u8)
        ensures
            byte == self.spec_first(),
    {
        pack(
            self.pulse,
            self.p_bigger_than_comp_minus,
            self.p_s_c_m,
            self.p_s_c_p,
            self.p_b_c_p,
            self.c_dec,
            self.const_start,
            self.drive_end,
        )
    }

    /// The second byte of the wire image.
    pub fn second(&self) -> (byte: u8)
        ensures
            byte == self.spec_second(),
    {
        pack(self.home_end, false, false, false, false, false, false, false)
    }

    /// Encodes the register into its two bytes.
    pub fn to_bytes(&self) -> (bytes: Vec<u8>)
        ensures
            bytes@ == self.spec_to_bytes(),
    {
        let first = self.first();
        let second = self.second();
        let bytes = vec![first, second];
        assert(bytes@ =~= self.spec_to_bytes());
        bytes
    }

    /// Reading the two bytes of the wire image gives the register back.
    pub proof fn read_back(v: RR5)
        ensures
            RR5::spec_from_bytes(v.spec_first(), v.spec_second()) == v,
    {
        flags_of_pack(
            v.pulse,
            v.p_bigger_than_comp_minus,
            v.p_s_c_m,
            v.p_s_c_p,
            v.p_b_c_p,
            v.c_dec,
            v.const_start,
            v.drive_end,
        );
        flags_of_pack(v.home_end, false, false, false, false, false, false, false);
    }

    /// Writing what two bytes hold gives the bytes back with the reserved
    /// bits cleared.
    pub proof fn write_back(first: u8, second: u8)
        ensures
            RR5::spec_from_bytes(first, second).spec_first() == first,
            RR5::spec_from_bytes(first, second).spec_second() == spec_pack(
                spec_flag(second, 0x80),
                false,
                false,
                false,
                false,
                false,
                false,
                false,
            ),
    {
        let v = RR5::spec_from_bytes(first, second);
        assert(v.spec_first() == first) by {
            pack_of_flags(first);
        }
    }

    /// Decoding what was encoded gives the register back.
    pub proof fn decode_encode(v: RR5)
        ensures
            RR5::spec_try_from(v.spec_to_bytes()) == Ok::<RR5, DecodeError>(v),
    {
        RR5::read_back(v);
    }

    /// Encoding what was decoded gives the buffer back with the reserved bits
    /// cleared.
    pub proof fn encode_decode(bytes: Seq<u8>)
        requires
            bytes.len() == 2,
        ensures
            RR5::spec_try_from(bytes) is Ok,
            RR5::spec_try_from(bytes)->Ok_0.spec_to_bytes() == seq![
                bytes[0],
                spec_pack(
                    spec_flag(bytes[1], 0x80),
                    false,
                    false,
                    false,
                    false,
                    false,
                    false,
                    false,
                ),
            ],
    {
        RR5::write_back(bytes[0], bytes[1]);
    }

    /// The reserved bits play no part in what is decoded: two second bytes
    /// that differ in them alone hold the same register.
    pub proof fn reserved_bits_ignored(first: u8, second: u8, other: u8)
        requires
            second / 128 == other / 128,
        ensures
            RR5::spec_from_bytes(first, second) == RR5::spec_from_bytes(first, other),
    {
        reveal(spec_flag);
    }
}

/// The pulse configuration of one axis.
#[derive(Debug, PartialEq, Eq, Clone, Copy)]
pub struct PulseBitFiled {
    /// First byte, `0x80`.
    pub p_dir_sw_lmt: bool,
    /// First byte, `0x40`.
    pub m_dir_sw_lmt: bool,
    /// First byte, `0x20`.
    pub stop_mode: bool,
    /// First byte, `0x10`.
    pub p_log_lever: bool,
    /// First byte, `0x08`.
    pub m_log_lever: bool,
    /// First byte, `0x04`: one of the two position counters.
    pub lp_ep: CounterType,
    /// First byte, `0x02`.
    pub output_mode: bool,
    /// First byte, `0x01`.
    pub _t: bool,
    /// Second byte, `0x80`.
    pub _r: bool,
    /// Second byte, `0x40`: how encoder pulses come in. The next two bits,
    /// `0x30`, are reserved.
    pub input_mode: InputMode,
    /// Second byte, `0x0c`.
    pub alarm: Alarm,
    /// Second byte, `0x03`.
    pub inpos: InPos,
}

impl PulseBitFiled {
    /// The register that two bytes hold, if every enumerated field holds a
    /// declared id. The fields are looked at in wire order, and the first
    /// undeclared id is the error.
    pub open spec fn spec_from_bytes(first: u8, second: u8) -> Result<PulseBitFiled, DecodeError> {
        match CounterType::spec_from_id(spec_field(first, 0x04, 2)) {
            None => Err(DecodeError::UnknownId(Enumerated::CounterType, spec_field(first, 0x04, 2))),
            Some(lp_ep) => match InputMode::spec_from_id(spec_field(second, 0x40, 2)) {
                None => Err(DecodeError::UnknownId(Enumerated::InputMode, spec_field(second, 0x40, 2))),
                Some(input_mode) => match Alarm::spec_from_id(spec_field(second, 0x04, 4)) {
                    None => Err(DecodeError::UnknownId(Enumerated::Alarm, spec_field(second, 0x04, 4))),
                    Some(alarm) => match InPos::spec_from_id(spec_field(second, 0x01, 4)) {
                        None => Err(DecodeError::UnknownId(Enumerated::InPos, spec_field(second, 0x01, 4))),
                        Some(inpos) => Ok(
                            PulseBitFiled {
                                p_dir_sw_lmt: spec_flag(first, 0x80),
                                m_dir_sw_lmt: spec_flag(first, 0x40),
                                stop_mode: spec_flag(first, 0x20),
                                p_log_lever: spec_flag(first, 0x10),
                                m_log_lever: spec_flag(first, 0x08),
                                lp_ep,
                                output_mode: spec_flag(first, 0x02),
                                _t: spec_flag(first, 0x01),
                                _r: spec_flag(second, 0x80),
                                input_mode,
                                alarm,
                                inpos,
                            },
                        ),
                    },
                },
            },
        }
    }

    /// The first byte of the wire image.
    pub open spec fn spec_first(&self) -> u8 {
        spec_pack(
            self.p_dir_sw_lmt,
            self.m_dir_sw_lmt,
            self.stop_mode,
            self.p_log_lever,
            self.m_log_lever,
            spec_flag(self.lp_ep.spec_id(), 0x01),
            self.output_mode,
            self._t,
        )
    }

    /// The second byte of the wire image.
    pub open spec fn spec_second(&self) -> u8 {
        spec_pack(
            self._r,
            spec_flag(self.input_mode.spec_id(), 0x01),
            false,
            false,
            spec_flag(self.alarm.spec_id(), 0x02),
            spec_flag(self.alarm.spec_id(), 0x01),
            spec_flag(self.inpos.spec_id(), 0x02),
            spec_flag(self.inpos.spec_id(), 0x01),
        )
    }

    /// What decoding `bytes` gives.
    pub open spec fn spec_try_from(bytes: Seq<u8>) -> Result<PulseBitFiled, DecodeError> {
        if bytes.len() < 2 {
            Err(DecodeError::Incomplete(1))
        } else {
            match PulseBitFiled::spec_from_bytes(bytes[0], bytes[1]) {
                Err(e) => Err(e),
                Ok(v) => if bytes.len() > 2 {
                    Err(DecodeError::TooMuchData)
                } else {
                    Ok(v)
                },
            }
        }
    }

    /// The wire image of the register.
    pub open spec fn spec_to_bytes(&self) -> Seq<u8> {
        seq![self.spec_first(), self.spec_second()]
    }

    /// Reads the register from its two bytes.
    pub fn from_bytes(first: u8, second: u8) -> (r: Result<PulseBitFiled, DecodeError>)
        ensures
            r == PulseBitFiled::spec_from_bytes(first, second),
    {
        let lp_ep = match CounterType::from_id(field(first, 0x04, 2)) {
            Some(v) => v,
            None => {
                return Err(DecodeError::UnknownId(Enumerated::CounterType, field(first, 0x04, 2)));
            },
        };
        let input_mode = match InputMode::from_id(field(second, 0x40, 2)) {
            Some(v) => v,
            None => {
                return Err(DecodeError::UnknownId(Enumerated::InputMode, field(second, 0x40, 2)));
            },
        };
        let alarm = match Alarm::from_id(field(second, 0x04, 4)) {
            Some(v) => v,
            None => {
                return Err(DecodeError::UnknownId(Enumerated::Alarm, field(second, 0x04, 4)));
            },
        };
        let inpos = match InPos::from_id(field(second, 0x01, 4)) {
            Some(v) => v,
            None => {
                return Err(DecodeError::UnknownId(Enumerated::InPos, field(second, 0x01, 4)));
            },
        };
        Ok(
            PulseBitFiled {
                p_dir_sw_lmt: flag(first, 0x80),
                m_dir_sw_lmt: flag(first, 0x40),
                stop_mode: flag(first, 0x20),
                p_log_lever: flag(first, 0x10),
                m_log_lever: flag(first, 0x08),
                lp_ep,
                output_mode: flag(first, 0x02),
                _t: flag(first, 0x01),
                _r: flag(second, 0x80),
                input_mode,
                alarm,
                inpos,
            },
        )
    }

    /// Decodes the register from its two bytes.
    pub fn try_from(bytes: &[u8]) -> (r: Result<PulseBitFiled, DecodeError>)
        ensures
            r == PulseBitFiled::spec_try_from(bytes@),
    {
        if bytes.len() < 2 {
            return Err(DecodeError::Incomplete(1));
        }
        match PulseBitFiled::from_bytes(bytes[0], bytes[1]) {
            Err(e) => Err(e),
            Ok(v) => if bytes.len() > 2 {
                Err(DecodeError::TooMuchData)
            } else {
                Ok(v)
            },
        }
    }

    /// The first byte of the wire image.
    pub fn first(&self) -> (byte: u8)
        ensures
            byte == self.spec_first(),
    {
        pack(
            self.p_dir_sw_lmt,
            self.m_dir_sw_lmt,
            self.stop_mode,
            self.p_log_lever,
            self.m_log_lever,
            flag(self.lp_ep.id(), 0x01),
            self.output_mode,
            self._t,
        )
    }

    /// The second byte of the wire image.
    pub fn second(&self) -> (byte: u8)
        ensures
            byte == self.spec_second(),
    {
        let alarm = self.alarm.id();
        let inpos = self.inpos.id();
        pack(
            self._r,
            flag(self.input_mode.id(), 0x01),
            false,
            false,
            flag(alarm, 0x02),
            flag(alarm, 0x01),
            flag(inpos, 0x02),
            flag(inpos, 0x01),
        )
    }

    /// Encodes the register into its two bytes.
    pub fn to_bytes(&self) -> (bytes: Vec<u8>)
        ensures
            bytes@ == self.spec_to_bytes(),
    {
        let first = self.first();
        let second = self.second();
        let bytes = vec![first, second];
        assert(bytes@ =~= self.spec_to_bytes());
        bytes
    }

    /// Reading the two bytes of the wire image gives the register back.
    pub proof fn read_back(v: PulseBitFiled)
        ensures
            PulseBitFiled::spec_from_bytes(v.spec_first(), v.spec_second()) == Ok::<
                PulseBitFiled,
                DecodeError,
            >(v),
    {
        PulseBitFiled::first_read_back(v);
        PulseBitFiled::second_read_back(v);
    }

    /// What the first byte of the wire image reads as.
    proof fn first_read_back(v: PulseBitFiled)
        ensures
            spec_flag(v.spec_first(), 0x80) == v.p_dir_sw_lmt,
            spec_flag(v.spec_first(), 0x40) == v.m_dir_sw_lmt,
            spec_flag(v.spec_first(), 0x20) == v.stop_mode,
            spec_flag(v.spec_first(), 0x10) == v.p_log_lever,
            spec_flag(v.spec_first(), 0x08) == v.m_log_lever,
            spec_flag(v.spec_first(), 0x02) == v.output_mode,
            spec_flag(v.spec_first(), 0x01) == v._t,
            CounterType::spec_from_id(spec_field(v.spec_first(), 0x04, 2)) == Some(v.lp_ep),
    {
        let first = v.spec_first();
        flags_of_pack(
            v.p_dir_sw_lmt,
            v.m_dir_sw_lmt,
            v.stop_mode,
            v.p_log_lever,
            v.m_log_lever,
            spec_flag(v.lp_ep.spec_id(), 0x01),
            v.output_mode,
            v._t,
        );
        assert(spec_field(first, 0x04, 2) == v.lp_ep.spec_id()) by {
            flags_of_field(first, 0x04, 2);
            number_of_flags(spec_field(first, 0x04, 2), v.lp_ep.spec_id(), 2);
        }
    }

    /// What the second byte of the wire image reads as.
    proof fn second_read_back(v: PulseBitFiled)
        ensures
            spec_flag(v.spec_second(), 0x80) == v._r,
            InputMode::spec_from_id(spec_field(v.spec_second(), 0x40, 2)) == Some(v.input_mode),
            Alarm::spec_from_id(spec_field(v.spec_second(), 0x04, 4)) == Some(v.alarm),
            InPos::spec_from_id(spec_field(v.spec_second(), 0x01, 4)) == Some(v.inpos),
    {
        let second = v.spec_second();
        flags_of_pack(
            v._r,
            spec_flag(v.input_mode.spec_id(), 0x01),
            false,
            false,
            spec_flag(v.alarm.spec_id(), 0x02),
            spec_flag(v.alarm.spec_id(), 0x01),
            spec_flag(v.inpos.spec_id(), 0x02),
            spec_flag(v.inpos.spec_id(), 0x01),
        );
        assert(spec_field(second, 0x40, 2) == v.input_mode.spec_id()) by {
            flags_of_field(second, 0x40, 2);
            number_of_flags(spec_field(second, 0x40, 2), v.input_mode.spec_id(), 2);
        }
        assert(spec_field(second, 0x04, 4) == v.alarm.spec_id()) by {
            flags_of_field(second, 0x04, 4);
            number_of_flags(spec_field(second, 0x04, 4), v.alarm.spec_id(), 4);
        }
        assert(spec_field(second, 0x01, 4) == v.inpos.spec_id()) by {
            flags_of_field(second, 0x01, 4);
            number_of_flags(spec_field(second, 0x01, 4), v.inpos.spec_id(), 4);
        }
    }

    /// Writing what two bytes hold gives the bytes back with the reserved
    /// bits cleared.
    pub proof fn write_back(first: u8, second: u8)
        requires
            PulseBitFiled::spec_from_bytes(first, second) is Ok,
        ensures
            PulseBitFiled::spec_from_bytes(first, second)->Ok_0.spec_first() == first,
            PulseBitFiled::spec_from_bytes(first, second)->Ok_0.spec_second() == spec_pack(
                spec_flag(second, 0x80),
                spec_flag(second, 0x40),
                false,
                false,
                spec_flag(second, 0x08),
                spec_flag(second, 0x04),
                spec_flag(second, 0x02),
                spec_flag(second, 0x01),
            ),
    {
        let v = PulseBitFiled::spec_from_bytes(first, second)->Ok_0;
        flags_of_field(first, 0x04, 2);
        flags_of_field(second, 0x40, 2);
        flags_of_field(second, 0x04, 4);
        flags_of_field(second, 0x01, 4);
        assert(v.spec_first() == first) by {
            pack_of_flags(first);
        }
    }

    /// Decoding what was encoded gives the register back.
    pub proof fn decode_encode(v: PulseBitFiled)
        ensures
            PulseBitFiled::spec_try_from(v.spec_to_bytes()) == Ok::<PulseBitFiled, DecodeError>(v),
    {
        PulseBitFiled::read_back(v);
    }

    /// Encoding what was decoded gives the buffer back with the reserved bits
    /// cleared.
    pub proof fn encode_decode(bytes: Seq<u8>)
        requires
            PulseBitFiled::spec_try_from(bytes) is Ok,
        ensures
            bytes.len() == 2,
            PulseBitFiled::spec_try_from(bytes)->Ok_0.spec_to_bytes() == seq![
                bytes[0],
                spec_pack(
                    spec_flag(bytes[1], 0x80),
                    spec_flag(bytes[1], 0x40),
                    false,
                    false,
                    spec_flag(bytes[1], 0x08),
                    spec_flag(bytes[1], 0x04),
                    spec_flag(bytes[1], 0x02),
                    spec_flag(bytes[1], 0x01),
                ),
            ],
    {
        PulseBitFiled::write_back(bytes[0], bytes[1]);
    }

    /// A buffer of two bytes or more is decoded, or refused as too long, if
    /// and only if neither the alarm field nor the in-position field holds
    /// the id 1: the two one-bit fields hold a declared id whatever their
    /// bit. Of the two, the alarm field comes first on the wire and is
    /// refused first.
    pub proof fn undeclared_ids_refused(bytes: Seq<u8>)
        requires
            bytes.len() >= 2,
        ensures
            PulseBitFiled::spec_from_bytes(bytes[0], bytes[1]) is Err <==> (spec_field(
                bytes[1],
                0x04,
                4,
            ) == 1 || spec_field(bytes[1], 0x01, 4) == 1),
            spec_field(bytes[1], 0x04, 4) == 1 ==> PulseBitFiled::spec_try_from(bytes) == Err::<
                PulseBitFiled,
                DecodeError,
            >(DecodeError::UnknownId(Enumerated::Alarm, 1)),
            (spec_field(bytes[1], 0x04, 4) != 1 && spec_field(bytes[1], 0x01, 4) == 1)
                ==> PulseBitFiled::spec_try_from(bytes) == Err::<PulseBitFiled, DecodeError>(
                DecodeError::UnknownId(Enumerated::InPos, 1),
            ),
    {
    }

    /// The reserved bits play no part in what is decoded: two second bytes
    /// that differ in them alone hold the same register.
    pub proof fn reserved_bits_ignored(first: u8, second: u8, other: u8)
        requires
            second / 64 == other / 64,
            second % 16 == other % 16,
        ensures
            PulseBitFiled::spec_from_bytes(first, second) == PulseBitFiled::spec_from_bytes(
                first,
                other,
            ),
    {
        reveal(spec_flag);
        assert((second / 64 == other / 64 && second % 16 == other % 16) ==> {
            &&& (second / 0x80) % 2 == (other / 0x80) % 2
            &&& (second / 0x40) % 2 == (other / 0x40) % 2
            &&& (second / 0x04) % 4 == (other / 0x04) % 4
            &&& (second / 0x01) % 4 == (other / 0x01) % 4
        }) by (bit_vector);
    }
}

/// The alarm setting of the pulse configuration. Two bits on the wire.
#[derive(Debug, PartialEq, Eq, Clone, Copy)]
pub enum Alarm {
    /// Switched off (id 0).
    Disable,
    /// Switched on (id 2).
    Enable,
    /// Switched on, in the card's second way (id 3).
    EnableWithLog,
}

impl Alarm {
    /// The id that stands for the value on the wire.
    pub open spec fn spec_id(&self) -> u8 {
        match self {
            Alarm::Disable => 0,
            Alarm::Enable => 2,
            Alarm::EnableWithLog => 3,
        }
    }

    /// The value that an id stands for, if the id is declared.
    pub open spec fn spec_from_id(id: u8) -> Option<Alarm> {
        if id == 0 {
            Some(Alarm::Disable)
        } else if id == 2 {
            Some(Alarm::Enable)
        } else if id == 3 {
            Some(Alarm::EnableWithLog)
        } else {
            None
        }
    }

    /// The id that stands for the value on the wire.
    pub fn id(&self) -> (r: u8)
        ensures
            r == self.spec_id(),
            r < 4,
            Alarm::spec_from_id(r) == Some(*self),
    {
        match self {
            Alarm::Disable => 0,
            Alarm::Enable => 2,
            Alarm::EnableWithLog => 3,
        }
    }

    /// The value that an id stands for; `None` for any id but 0, 2 and 3.
    pub fn from_id(id: u8) -> (r: Option<Alarm>)
        ensures
            r == Alarm::spec_from_id(id),
            r is Some <==> (id == 0 || id == 2 || id == 3),
            r matches Some(v) ==> v.spec_id() == id,
    {
        if id == 0 {
            Some(Alarm::Disable)
        } else if id == 2 {
            Some(Alarm::Enable)
        } else if id == 3 {
            Some(Alarm::EnableWithLog)
        } else {
            None
        }
    }
}

/// The in-position setting of the pulse configuration. Two bits on the wire.
#[derive(Debug, PartialEq, Eq, Clone, Copy)]
pub enum InPos {
    /// Switched off (id 0).
    Disable,
    /// Switched on (id 2).
    Enable,
    /// Switched on, in the card's second way (id 3).
    EnableWithLog,
}

impl InPos {
    /// The id that stands for the value on the wire.
    pub open spec fn spec_id(&self) -> u8 {
        match self {
            InPos::Disable => 0,
            InPos::Enable => 2,
            InPos::EnableWithLog => 3,
        }
    }

    /// The value that an id stands for, if the id is declared.
    pub open spec fn spec_from_id(id: u8) -> Option<InPos> {
        if id == 0 {
            Some(InPos::Disable)
        } else if id == 2 {
            Some(InPos::Enable)
        } else if id == 3 {
            Some(InPos::EnableWithLog)
        } else {
            None
        }
    }

    /// The id that stands for the value on the wire.
    pub fn id(&self) -> (r: u8)
        ensures
            r == self.spec_id(),
            r < 4,
            InPos::spec_from_id(r) == Some(*self),
    {
        match self {
            InPos::Disable => 0,
            InPos::Enable => 2,
            InPos::EnableWithLog => 3,
        }
    }

    /// The value that an id stands for; `None` for any id but 0, 2 and 3.
    pub fn from_id(id: u8) -> (r: Option<InPos>)
        ensures
            r == InPos::spec_from_id(id),
            r is Some <==> (id == 0 || id == 2 || id == 3),
            r matches Some(v) ==> v.spec_id() == id,
    {
        if id == 0 {
            Some(InPos::Disable)
        } else if id == 2 {
            Some(InPos::Enable)
        } else if id == 3 {
            Some(InPos::EnableWithLog)
        } else {
            None
        }
    }
}

} // verus!
