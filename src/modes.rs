//! The enumerated field values, and the error for a bit pattern that names
//! none of them.
use vstd::prelude::*;

verus! {

/// A bit pattern read from an enumerated field that the datasheet leaves
/// reserved. It carries the raw bits.
#[derive(Debug, Clone, Copy, PartialEq, Eq, Structural)]
pub struct ReservedFieldValue(pub u8);

/// Whether 8-bit companding is enabled, and with which law.
#[derive(Debug, Clone, Copy, PartialEq, Eq, Structural)]
pub enum CompandingMode {
    /// Companding is off (normal linear operation)
    Off,
    /// Companding is on, and using µ-law
    ULaw,
    /// Companding is on, and using A-law
    ALaw,
}

impl CompandingMode {
    /// The two-bit pattern of the mode; pattern 1 is reserved.
    pub open spec fn spec_bits(self) -> u8 {
        match self {
            CompandingMode::Off => 0,
            CompandingMode::ULaw => 2,
            CompandingMode::ALaw => 3,
        }
    }

    /// The mode that `raw` encodes, or the reserved pattern itself.
    pub open spec fn spec_from_bits(raw: u8) -> Result<CompandingMode, ReservedFieldValue> {
        match raw {
            0 => Ok(CompandingMode::Off),
            2 => Ok(CompandingMode::ULaw),
            3 => Ok(CompandingMode::ALaw),
            _ => Err(ReservedFieldValue(raw)),
        }
    }

    /// The two-bit pattern of the mode.
    pub fn bits(self) -> (r: u8)
        ensures
            r == self.spec_bits(),
    {
        match self {
            CompandingMode::Off => 0,
            CompandingMode::ULaw => 2,
            CompandingMode::ALaw => 3,
        }
    }

    /// Decodes a field pattern; a pattern that names no mode is returned as
    /// `ReservedFieldValue`.
    pub fn from_bits(raw: u8) -> (r: Result<CompandingMode, ReservedFieldValue>)
        ensures
            r == Self::spec_from_bits(raw),
            r matches Ok(m) ==> m.spec_bits() == raw,
            r is Err <==> (raw == 1 || raw > 3),
    {
        match raw {
            0 => Ok(CompandingMode::Off),
            2 => Ok(CompandingMode::ULaw),
            3 => Ok(CompandingMode::ALaw),
            _ => Err(ReservedFieldValue(raw)),
        }
    }
}

/// The operating modes CSB/GPIO1 can be in.
#[derive(Debug, Clone, Copy, PartialEq, Eq, Structural)]
pub enum Gpio1Selection {
    /// use as input subject to MODE pin#18 input logic level
    Input,
    /// Temperature OK status output (logic 0 = thermal shutdown)
    TemperatureOk,
    /// DAC automute condition (logic 1 = one or both DACs automuted)
    DacIsAutomute,
    /// output divided PLL clock
    PllClock,
    /// PLL locked condition (logic 1 = PLL locked)
    PllLocked,
    /// output set to logic 1 condition
    LogicHigh,
    /// output set to logic 0 condition
    LogicLow,
}

impl Gpio1Selection {
    /// The three-bit pattern of the selection; pattern 1 is reserved.
    pub open spec fn spec_bits(self) -> u8 {
        match self {
            Gpio1Selection::Input => 0,
            Gpio1Selection::TemperatureOk => 2,
            Gpio1Selection::DacIsAutomute => 3,
            Gpio1Selection::PllClock => 4,
            Gpio1Selection::PllLocked => 5,
            Gpio1Selection::LogicHigh => 6,
            Gpio1Selection::LogicLow => 7,
        }
    }

    /// The selection that `raw` encodes, or the reserved pattern itself.
    pub open spec fn spec_from_bits(raw: u8) -> Result<Gpio1Selection, ReservedFieldValue> {
        match raw {
            0 => Ok(Gpio1Selection::Input),
            2 => Ok(Gpio1Selection::TemperatureOk),
            3 => Ok(Gpio1Selection::DacIsAutomute),
            4 => Ok(Gpio1Selection::PllClock),
            5 => Ok(Gpio1Selection::PllLocked),
            6 => Ok(Gpio1Selection::LogicHigh),
            7 => Ok(Gpio1Selection::LogicLow),
            _ => Err(ReservedFieldValue(raw)),
        }
    }

    /// The three-bit pattern of the selection.
    pub fn bits(self) -> (r: u8)
        ensures
            r == self.spec_bits(),
    {
        match self {
            Gpio1Selection::Input => 0,
            Gpio1Selection::TemperatureOk => 2,
            Gpio1Selection::DacIsAutomute => 3,
            Gpio1Selection::PllClock => 4,
            Gpio1Selection::PllLocked => 5,
            Gpio1Selection::LogicHigh => 6,
            Gpio1Selection::LogicLow => 7,
        }
    }

    /// Decodes a field pattern; a pattern that names no selection is returned
    /// as `ReservedFieldValue`.
    pub fn from_bits(raw: u8) -> (r: Result<Gpio1Selection, ReservedFieldValue>)
        ensures
            r == Self::spec_from_bits(raw),
            r matches Ok(s) ==> s.spec_bits() == raw,
            r is Err <==> (raw == 1 || raw > 7),
    {
        match raw {
            0 => Ok(Gpio1Selection::Input),
            2 => Ok(Gpio1Selection::TemperatureOk),
            3 => Ok(Gpio1Selection::DacIsAutomute),
            4 => Ok(Gpio1Selection::PllClock),
            5 => Ok(Gpio1Selection::PllLocked),
            6 => Ok(Gpio1Selection::LogicHigh),
            7 => Ok(Gpio1Selection::LogicLow),
            _ => Err(ReservedFieldValue(raw)),
        }
    }
}

/// Every pattern of the two-bit companding field decodes either to the mode
/// whose pattern it is, or to `ReservedFieldValue` carrying the pattern; only
/// pattern 1 is reserved. Encoding a mode and decoding the pattern gives the
/// mode back.
pub proof fn lemma_companding_decode_total(raw: u8, mode: CompandingMode)
    requires
        raw <= 3,
    ensures
        match CompandingMode::spec_from_bits(raw) {
            Ok(m) => m.spec_bits() == raw,
            Err(e) => e == ReservedFieldValue(raw) && raw == 1,
        },
        CompandingMode::spec_from_bits(mode.spec_bits()) == Ok::<CompandingMode, ReservedFieldValue>(mode),
        mode.spec_bits() <= 3,
{
}

/// Every pattern of the three-bit GPIO1 function field decodes either to the
/// selection whose pattern it is, or to `ReservedFieldValue` carrying the
/// pattern; only pattern 1 is reserved. Encoding a selection and decoding the
/// pattern gives the selection back.
pub proof fn lemma_gpio1_decode_total(raw: u8, sel: Gpio1Selection)
    requires
        raw <= 7,
    ensures
        match Gpio1Selection::spec_from_bits(raw) {
            Ok(s) => s.spec_bits() == raw,
            Err(e) => e == ReservedFieldValue(raw) && raw == 1,
        },
        Gpio1Selection::spec_from_bits(sel.spec_bits()) == Ok::<Gpio1Selection, ReservedFieldValue>(sel),
        sel.spec_bits() <= 7,
{
}

} // verus!
