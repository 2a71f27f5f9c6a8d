//! Interrupt sources, priority levels and harts of the device, with their numbers.
use vstd::prelude::*;

verus! {

/// Priority levels in the device.
#[derive(Debug, Clone, Copy, PartialEq, Eq, Structural)]
pub enum Priority {
    /// 0 - Priority 0 (disabled)
    P0,
    /// 1 - Priority 1 (lowest)
    P1,
    /// 2 - Priority 2
    P2,
    /// 3 - Priority 3
    P3,
    /// 4 - Priority 4
    P4,
    /// 5 - Priority 5
    P5,
    /// 6 - Priority 6
    P6,
    /// 7 - Priority 7 (highest)
    P7,
}

/// Number of a priority level.
pub open spec fn priority_number(p: Priority) -> usize {
    match p {
        Priority::P0 => 0,
        Priority::P1 => 1,
        Priority::P2 => 2,
        Priority::P3 => 3,
        Priority::P4 => 4,
        Priority::P5 => 5,
        Priority::P6 => 6,
        Priority::P7 => 7,
    }
}

/// The priority level with a given number, if there is one.
pub open spec fn priority_from_number(value: usize) -> Option<Priority> {
    if value == 0 {
        Some(Priority::P0)
    } else if value == 1 {
        Some(Priority::P1)
    } else if value == 2 {
        Some(Priority::P2)
    } else if value == 3 {
        Some(Priority::P3)
    } else if value == 4 {
        Some(Priority::P4)
    } else if value == 5 {
        Some(Priority::P5)
    } else if value == 6 {
        Some(Priority::P6)
    } else if value == 7 {
        Some(Priority::P7)
    } else {
        None
    }
}

/// Number assigned to the highest priority level.
pub const MAX_PRIORITY_NUMBER: usize = 7;

impl Priority {
    /// Converts a priority level to its number.
    pub fn number(self) -> (n: usize)
        ensures
            n == priority_number(self),
            n <= MAX_PRIORITY_NUMBER,
    {
        match self {
            Priority::P0 => 0,
            Priority::P1 => 1,
            Priority::P2 => 2,
            Priority::P3 => 3,
            Priority::P4 => 4,
            Priority::P5 => 5,
            Priority::P6 => 6,
            Priority::P7 => 7,
        }
    }

    /// The priority level with number `value`, if there is one.
    pub fn from_number(value: usize) -> (p: Option<Priority>)
        ensures
            p == priority_from_number(value),
            p is Some <==> value <= MAX_PRIORITY_NUMBER,
    {
        match value {
            0 => Some(Priority::P0),
            1 => Some(Priority::P1),
            2 => Some(Priority::P2),
            3 => Some(Priority::P3),
            4 => Some(Priority::P4),
            5 => Some(Priority::P5),
            6 => Some(Priority::P6),
            7 => Some(Priority::P7),
            _ => None,
        }
    }
}

/// HARTs in the device.
#[derive(Debug, Clone, Copy, PartialEq, Eq, Structural)]
pub enum Hart {
    /// 0 - Hart 0
    H0,
}

/// Number assigned to the highest HART.
pub const MAX_HART_ID_NUMBER: usize = 0;

impl Hart {
    /// Converts a HART to its number.
    pub fn number(self) -> (n: usize)
        ensures
            n == 0,
    {
        match self {
            Hart::H0 => 0,
        }
    }

    /// The HART with number `value`, if there is one.
    pub fn from_number(value: usize) -> (h: Option<Hart>)
        ensures
            h is Some <==> value == 0,
            h matches Some(k) ==> k == Hart::H0,
    {
        if value == 0 {
            Some(Hart::H0)
        } else {
            None
        }
    }
}

/// External interrupts. These interrupts are handled by the external peripherals.
#[derive(Debug, Clone, Copy, PartialEq, Eq, Structural)]
#[allow(non_camel_case_types)]
pub enum ExternalInterrupt {
    /// 1 - UART0 interrupt (PLIC source 1)
    UART0,
    /// 2 - I2C0 controller interrupt (PLIC source 2)
    I2C0,
    /// 3 - I2C target interrupt (PLIC source 3)
    I2C_TARGET,
}

/// The external interrupt with a given PLIC source number, if there is one.
pub open spec fn external_interrupt_from_number(value: usize) -> Option<ExternalInterrupt> {
    if value == 1 {
        Some(ExternalInterrupt::UART0)
    } else if value == 2 {
        Some(ExternalInterrupt::I2C0)
    } else if value == 3 {
        Some(ExternalInterrupt::I2C_TARGET)
    } else {
        None
    }
}

/// PLIC source number of an external interrupt.
pub open spec fn external_interrupt_number(i: ExternalInterrupt) -> usize {
    match i {
        ExternalInterrupt::UART0 => 1,
        ExternalInterrupt::I2C0 => 2,
        ExternalInterrupt::I2C_TARGET => 3,
    }
}

/// Highest number assigned to an external interrupt source.
pub const MAX_INTERRUPT_NUMBER: usize = 3;

impl ExternalInterrupt {
    /// Converts an external interrupt to its PLIC source number.
    pub fn number(self) -> (n: usize)
        ensures
            n == external_interrupt_number(self),
            1 <= n <= MAX_INTERRUPT_NUMBER,
    {
        match self {
            ExternalInterrupt::UART0 => 1,
            ExternalInterrupt::I2C0 => 2,
            ExternalInterrupt::I2C_TARGET => 3,
        }
    }

    /// The external interrupt with PLIC source number `value`, if there is one.
    pub fn from_number(value: usize) -> (i: Option<ExternalInterrupt>)
        ensures
            i == external_interrupt_from_number(value),
            i is Some <==> 1 <= value <= MAX_INTERRUPT_NUMBER,
    {
        match value {
            1 => Some(ExternalInterrupt::UART0),
            2 => Some(ExternalInterrupt::I2C0),
            3 => Some(ExternalInterrupt::I2C_TARGET),
            _ => None,
        }
    }
}

/// A priority level's number converts back to that level, and a number that converts
/// to a level is that level's number.
pub proof fn lemma_priority_number_round_trip(p: Priority, value: usize)
    ensures
        priority_from_number(priority_number(p)) == Some(p),
        priority_from_number(value) matches Some(q) ==> priority_number(q) == value,
{
}

/// An external interrupt's number converts back to that interrupt, and a number that
/// converts to an interrupt is that interrupt's number.
pub proof fn lemma_external_interrupt_number_round_trip(i: ExternalInterrupt, value: usize)
    ensures
        external_interrupt_from_number(external_interrupt_number(i)) == Some(i),
        external_interrupt_from_number(value) matches Some(j) ==> external_interrupt_number(j)
            == value,
{
}

} // verus!
