//! Axes, selectors and the card's small option types.
//!
//! A selector is the 16-bit value written to pipe 0 to say which axes and
//! which command family the next transfers address. Its high byte is a mask
//! of axes, one bit each, and its low byte is the family's code.

use vstd::prelude::*;

verus! {

/// One of the four motion axes.
#[derive(Debug, PartialEq, Eq, Clone, Copy)]
pub enum Axis {
    X,
    Y,
    Z,
    U,
}

/// One axis, or all four at once.
#[derive(Debug, PartialEq, Eq, Clone, Copy)]
pub enum OneOrAllAxis {
    One(Axis),
    All,
}

/// The families of commands that a selector can address.
#[derive(Debug, PartialEq, Eq, Clone, Copy)]
pub enum CommandFamily {
    /// The per-axis status, error and interrupt registers (`0x0f`).
    AxisStatus,
    /// Reading the logical position, LP (`0x10`).
    ReadLogicalPosition,
    /// Reading the electronic position, EP (`0x11`).
    ReadElectronicPosition,
    /// Reading the command velocity, CV (`0x12`).
    ReadVelocity,
    /// Reading the command acceleration, CA (`0x13`).
    ReadAcceleration,
    /// Reading the position counter, BR (`0x14`).
    ReadPositionCounter,
    /// Writing the logical position (`0x09`).
    WriteLogicalPosition,
    /// Writing the electronic position (`0x0a`).
    WriteElectronicPosition,
    /// Writing the acceleration rate (`0x0e`).
    WriteAccelerationRate,
}

impl Axis {
    /// The axis's bit in the high byte of a selector.
    pub open spec fn spec_mask(&self) -> u8 {
        match self {
            Axis::X => 0x01,
            Axis::Y => 0x02,
            Axis::Z => 0x04,
            Axis::U => 0x08,
        }
    }

    /// The axis's bit in the high byte of a selector.
    pub fn mask(&self) -> (r: u8)
        ensures
            r == self.spec_mask(),
    {
        match self {
            Axis::X => 0x01,
            Axis::Y => 0x02,
            Axis::Z => 0x04,
            Axis::U => 0x08,
        }
    }

    /// The selector of the axis-status family for this axis: `0x010f` for X,
    /// `0x020f` for Y, `0x040f` for Z, `0x080f` for U.
    pub fn as_data(&self) -> (r: u16)
        ensures
            r == spec_selector(OneOrAllAxis::One(*self), CommandFamily::AxisStatus),
            r == match self {
                Axis::X => 0x010fu16,
                Axis::Y => 0x020fu16,
                Axis::Z => 0x040fu16,
                Axis::U => 0x080fu16,
            },
    {
        match self {
            Axis::X => 0x010f,
            Axis::Y => 0x020f,
            Axis::Z => 0x040f,
            Axis::U => 0x080f,
        }
    }
}

impl OneOrAllAxis {
    /// The bits of the selected axes in the high byte of a selector: one bit
    /// for one axis, `0x0f` for all.
    pub open spec fn spec_mask(&self) -> u8 {
        match self {
            OneOrAllAxis::One(axis) => axis.spec_mask(),
            OneOrAllAxis::All => 0x0f,
        }
    }

    /// The bits of the selected axes in the high byte of a selector.
    pub fn mask(&self) -> (r: u8)
        ensures
            r == self.spec_mask(),
    {
        match self {
            OneOrAllAxis::One(axis) => axis.mask(),
            OneOrAllAxis::All => 0x0f,
        }
    }
}

impl CommandFamily {
    /// The family's code, the low byte of a selector.
    pub open spec fn spec_low_byte(&self) -> u8 {
        match self {
            CommandFamily::AxisStatus => 0x0f,
            CommandFamily::ReadLogicalPosition => 0x10,
            CommandFamily::ReadElectronicPosition => 0x11,
            CommandFamily::ReadVelocity => 0x12,
            CommandFamily::ReadAcceleration => 0x13,
            CommandFamily::ReadPositionCounter => 0x14,
            CommandFamily::WriteLogicalPosition => 0x09,
            CommandFamily::WriteElectronicPosition => 0x0a,
            CommandFamily::WriteAccelerationRate => 0x0e,
        }
    }

    /// The family's code, the low byte of a selector.
    pub fn low_byte(&self) -> (r: u8)
        ensures
            r == self.spec_low_byte(),
    {
        match self {
            CommandFamily::AxisStatus => 0x0f,
            CommandFamily::ReadLogicalPosition => 0x10,
            CommandFamily::ReadElectronicPosition => 0x11,
            CommandFamily::ReadVelocity => 0x12,
            CommandFamily::ReadAcceleration => 0x13,
            CommandFamily::ReadPositionCounter => 0x14,
            CommandFamily::WriteLogicalPosition => 0x09,
            CommandFamily::WriteElectronicPosition => 0x0a,
            CommandFamily::WriteAccelerationRate => 0x0e,
        }
    }
}

/// The selector of a command family for one axis or for all: the axis mask in
/// the high byte, the family's code in the low byte.
pub open spec fn spec_selector(axis: OneOrAllAxis, family: CommandFamily) -> u16 {
    (axis.spec_mask() * 0x100 + family.spec_low_byte()) as u16
}

/// The selector of a command family for one axis or for all.
pub fn selector(axis: OneOrAllAxis, family: CommandFamily) -> (r: u16)
    ensures
        r == spec_selector(axis, family),
{
    let mask = axis.mask();
    let low = family.low_byte();
    assert(((mask as u16) << 8) | (low as u16) == mask as u16 * 0x100 + low as u16)
        by (bit_vector);
    ((mask as u16) << 8) | (low as u16)
}

/// The two bytes of a selector are the axis mask and the family's code; with
/// all axes selected the high byte is `0x0f`, whatever the family.
pub proof fn selector_bytes(axis: OneOrAllAxis, family: CommandFamily)
    ensures
        spec_selector(axis, family) / 0x100 == axis.spec_mask(),
        spec_selector(axis, family) % 0x100 == family.spec_low_byte(),
        spec_selector(OneOrAllAxis::All, family) / 0x100 == 0x0f,
{
}

/// The sense of rotation.
#[derive(Debug, PartialEq, Eq, Clone, Copy)]
pub enum Clockwise {
    /// Clockwise, CW.
    Clockwise,
    /// Counter-clockwise, CCW.
    CounterClockwise,
}

/// Who decides where a drive starts to slow down.
#[derive(Debug, PartialEq, Eq, Clone, Copy)]
pub enum DecelerationMode {
    Auto,
    Manual,
}

/// Whether a drive ends after a fixed number of pulses.
#[derive(Debug, PartialEq, Eq, Clone, Copy)]
pub enum LvDv {
    /// A drive of fixed length.
    DV,
    /// A continuous drive.
    LV,
}

/// The shape of the velocity profile.
#[derive(Debug, PartialEq, Eq, Clone, Copy)]
pub enum LineOrCurve {
    /// A straight ramp.
    Line,
    /// An S curve.
    SCurve,
}

/// The direction of a drive.
#[derive(Debug, PartialEq, Eq, Clone, Copy)]
pub enum Direction {
    /// Backwards.
    Minus,
    /// Forwards.
    Plus,
}

/// Which position counter an operation works on. One bit on the wire.
#[derive(Debug, PartialEq, Eq, Clone, Copy)]
pub enum CounterType {
    /// The logical position counter (id 0).
    Logic,
    /// The real position counter (id 1).
    Fact,
}

impl CounterType {
    /// The id that stands for the value on the wire.
    pub open spec fn spec_id(&self) -> u8 {
        match self {
            CounterType::Logic => 0,
            CounterType::Fact => 1,
        }
    }

    /// The value that an id stands for, if the id is declared.
    pub open spec fn spec_from_id(id: u8) -> Option<CounterType> {
        if id == 0 {
            Some(CounterType::Logic)
        } else if id == 1 {
            Some(CounterType::Fact)
        } else {
            None
        }
    }

    /// The id that stands for the value on the wire.
    pub fn id(&self) -> (r: u8)
        ensures
            r == self.spec_id(),
            CounterType::spec_from_id(r) == Some(*self),
    {
        match self {
            CounterType::Logic => 0,
            CounterType::Fact => 1,
        }
    }

    /// The value that an id stands for; `None` for any id but 0 and 1.
    pub fn from_id(id: u8) -> (r: Option<CounterType>)
        ensures
            r == CounterType::spec_from_id(id),
            r is Some <==> id <= 1,
            r matches Some(v) ==> v.spec_id() == id,
    {
        if id == 0 {
            Some(CounterType::Logic)
        } else if id == 1 {
            Some(CounterType::Fact)
        } else {
            None
        }
    }
}

/// How encoder pulses come in. One bit on the wire.
#[derive(Debug, PartialEq, Eq, Clone, Copy)]
pub enum InputMode {
    /// Two-phase A/B input (id 0).
    ABPhase,
    /// Separate up and down pulses (id 1).
    UpDownPulse,
}

impl InputMode {
    /// The id that stands for the value on the wire.
    pub open spec fn spec_id(&self) -> u8 {
        match self {
            InputMode::ABPhase => 0,
            InputMode::UpDownPulse => 1,
        }
    }

    /// The value that an id stands for, if the id is declared.
    pub open spec fn spec_from_id(id: u8) -> Option<InputMode> {
        if id == 0 {
            Some(InputMode::ABPhase)
        } else if id == 1 {
            Some(InputMode::UpDownPulse)
        } else {
            None
        }
    }

    /// The id that stands for the value on the wire.
    pub fn id(&self) -> (r: u8)
        ensures
            r == self.spec_id(),
            InputMode::spec_from_id(r) == Some(*self),
    {
        match self {
            InputMode::ABPhase => 0,
            InputMode::UpDownPulse => 1,
        }
    }

    /// The value that an id stands for; `None` for any id but 0 and 1.
    pub fn from_id(id: u8) -> (r: Option<InputMode>)
        ensures
            r == InputMode::spec_from_id(id),
            r is Some <==> id <= 1,
            r matches Some(v) ==> v.spec_id() == id,
    {
        if id == 0 {
            Some(InputMode::ABPhase)
        } else if id == 1 {
            Some(InputMode::UpDownPulse)
        } else {
            None
        }
    }
}

} // verus!
