//! The register address table: every control register and its bus address.
use vstd::prelude::*;

verus! {

/// A control register of the codec. Each one has a fixed 7-bit bus address;
/// reserved addresses have no variant, so none can be named.
#[derive(Debug, Clone, Copy, PartialEq, Eq, Structural)]
pub enum Register {
    /// Software Reset RESET (SOFTWARE)
    SoftwareReset,
    /// Power Management 1
    PowerManagement1,
    /// Power Management 2
    PowerManagement2,
    /// Power Management 3
    PowerManagement3,
    /// Audio Interface
    AudioInterface,
    /// Companding
    Companding,
    /// Clock Control 1
    ClockControl1,
    /// Clock Control 2
    ClockControl2,
    /// GPIO
    GPIO,
    /// Jack Detect 1
    JackDetect1,
    /// DAC Control
    DACControl,
    /// Left DAC Volume
    LeftDACVolume,
    /// Right DAC Volume
    RightDACVolume,
    /// Jack Detect 2
    JackDetect2,
    /// ADC Control
    ADCControl,
    /// Left ADC Volume
    LeftADCVolume,
    /// Right ADC Volume
    RightADCVolume,
    /// EQ1-high cutoff
    EQ1HighCutoff,
    /// EQ2-peak 1
    EQ2Peak1,
    /// EQ3-peak 2
    EQ3Peak2,
    /// EQ4-peak 3
    EQ4Peak3,
    /// EQ5-low cutoff
    EQ5LowCutoff,
    /// DAC Limiter 1
    DACLimiter1,
    /// DAC Limiter 2
    DACLimiter2,
    /// Notch Filter 1
    NotchFilter1,
    /// Notch Filter 2
    NotchFilter2,
    /// Notch Filter 3
    NotchFilter3,
    /// Notch Filter 4
    NotchFilter4,
    /// ALC Control 1
    ALCControl1,
    /// ALC Control 2
    ALCControl2,
    /// ALC Control 3
    ALCControl3,
    /// Noise Gate
    NoiseGate,
    /// PLL N
    PllN,
    /// PLL K 1
    PllK1,
    /// PLL K 2
    PllK2,
    /// PLL K 3
    PllK3,
    /// 3D control
    ThreeDControl,
    /// Right Speaker Submix
    RightSpeakerSubmix,
    /// Input Control
    InputControl,
    /// Left Input PGA Gain
    LeftInputPGAGain,
    /// Right Input PGA Gain
    RightInputPGAGain,
    /// Left ADC Boost
    LeftADCBoost,
    /// Right ADC Boost
    RightADCBoost,
    /// Output Control
    OutputControl,
    /// Left Mixer
    LeftMixer,
    /// Right Mixer
    RightMixer,
    /// LHP Volume
    LHPVolume,
    /// RHP Volume
    RHPVolume,
    /// LSPKOUT Volume
    LSPKOUTVolume,
    /// RSPKOUT Volume
    RSPKOUTVolume,
    /// AUX2 Mixer
    AUX2Mixer,
    /// AUX1 Mixer
    AUX1Mixer,
    /// Power Management
    PowerManagement,
    /// Left Time Slot
    LeftTimeSlot,
    /// Misc
    Misc,
    /// Right Time Slot
    RightTimeSlot,
    /// Device Revision #
    DeviceRevisionNo,
    /// Device ID
    DeviceId,
    /// ALC Enhancements 1
    AlcEnhancements1,
    /// ALC Enhancements 2
    AlcEnhancements2,
    /// Misc Controls
    MiscControls,
    /// Tie-Off Overrides
    TieOffOverrides,
    /// Power/Tie-off Ctrl
    PowerTieOffCtrl,
    /// P2P Detector Read
    P2PDetectorRead,
    /// Peak Detector Read
    PeakDetectorRead,
    /// Control and Status
    ControlAndStatus,
    /// Output tie-off control
    OutputTieOffControl,
}

/// A bus address that names no register of the codec.
#[derive(Debug, Clone, Copy, PartialEq, Eq, Structural)]
pub struct UnknownRegisterAddress(pub u8);

impl Register {
    /// The bus address of the register.
    pub open spec fn spec_address(self) -> u8 {
        match self {
            Register::SoftwareReset => 0x00,
            Register::PowerManagement1 => 0x01,
            Register::PowerManagement2 => 0x02,
            Register::PowerManagement3 => 0x03,
            Register::AudioInterface => 0x04,
            Register::Companding => 0x05,
            Register::ClockControl1 => 0x06,
            Register::ClockControl2 => 0x07,
            Register::GPIO => 0x08,
            Register::JackDetect1 => 0x09,
            Register::DACControl => 0x0A,
            Register::LeftDACVolume => 0x0B,
            Register::RightDACVolume => 0x0C,
            Register::JackDetect2 => 0x0D,
            Register::ADCControl => 0x0E,
            Register::LeftADCVolume => 0x0F,
            Register::RightADCVolume => 0x10,
            Register::EQ1HighCutoff => 0x12,
            Register::EQ2Peak1 => 0x13,
            Register::EQ3Peak2 => 0x14,
            Register::EQ4Peak3 => 0x15,
            Register::EQ5LowCutoff => 0x16,
            Register::DACLimiter1 => 0x18,
            Register::DACLimiter2 => 0x19,
            Register::NotchFilter1 => 0x1B,
            Register::NotchFilter2 => 0x1C,
            Register::NotchFilter3 => 0x1D,
            Register::NotchFilter4 => 0x1E,
            Register::ALCControl1 => 0x20,
            Register::ALCControl2 => 0x21,
            Register::ALCControl3 => 0x22,
            Register::NoiseGate => 0x23,
            Register::PllN => 0x24,
            Register::PllK1 => 0x25,
            Register::PllK2 => 0x26,
            Register::PllK3 => 0x27,
            Register::ThreeDControl => 0x29,
            Register::RightSpeakerSubmix => 0x2B,
            Register::InputControl => 0x2C,
            Register::LeftInputPGAGain => 0x2D,
            Register::RightInputPGAGain => 0x2E,
            Register::LeftADCBoost => 0x2F,
            Register::RightADCBoost => 0x30,
            Register::OutputControl => 0x31,
            Register::LeftMixer => 0x32,
            Register::RightMixer => 0x33,
            Register::LHPVolume => 0x34,
            Register::RHPVolume => 0x35,
            Register::LSPKOUTVolume => 0x36,
            Register::RSPKOUTVolume => 0x37,
            Register::AUX2Mixer => 0x38,
            Register::AUX1Mixer => 0x39,
            Register::PowerManagement => 0x3A,
            Register::LeftTimeSlot => 0x3B,
            Register::Misc => 0x3C,
            Register::RightTimeSlot => 0x3D,
            Register::DeviceRevisionNo => 0x3E,
            Register::DeviceId => 0x3F,
            Register::AlcEnhancements1 => 0x46,
            Register::AlcEnhancements2 => 0x47,
            Register::MiscControls => 0x49,
            Register::TieOffOverrides => 0x4A,
            Register::PowerTieOffCtrl => 0x4B,
            Register::P2PDetectorRead => 0x4C,
            Register::PeakDetectorRead => 0x4D,
            Register::ControlAndStatus => 0x4E,
            Register::OutputTieOffControl => 0x4F,
        }
    }

    /// The register at bus address `address`, if one is there.
    pub open spec fn spec_from_address(address: u8) -> Option<Register> {
        match address {
            0x00 => Some(Register::SoftwareReset),
            0x01 => Some(Register::PowerManagement1),
            0x02 => Some(Register::PowerManagement2),
            0x03 => Some(Register::PowerManagement3),
            0x04 => Some(Register::AudioInterface),
            0x05 => Some(Register::Companding),
            0x06 => Some(Register::ClockControl1),
            0x07 => Some(Register::ClockControl2),
            0x08 => Some(Register::GPIO),
            0x09 => Some(Register::JackDetect1),
            0x0A => Some(Register::DACControl),
            0x0B => Some(Register::LeftDACVolume),
            0x0C => Some(Register::RightDACVolume),
            0x0D => Some(Register::JackDetect2),
            0x0E => Some(Register::ADCControl),
            0x0F => Some(Register::LeftADCVolume),
            0x10 => Some(Register::RightADCVolume),
            0x12 => Some(Register::EQ1HighCutoff),
            0x13 => Some(Register::EQ2Peak1),
            0x14 => Some(Register::EQ3Peak2),
            0x15 => Some(Register::EQ4Peak3),
            0x16 => Some(Register::EQ5LowCutoff),
            0x18 => Some(Register::DACLimiter1),
            0x19 => Some(Register::DACLimiter2),
            0x1B => Some(Register::NotchFilter1),
            0x1C => Some(Register::NotchFilter2),
            0x1D => Some(Register::NotchFilter3),
            0x1E => Some(Register::NotchFilter4),
            0x20 => Some(Register::ALCControl1),
            0x21 => Some(Register::ALCControl2),
            0x22 => Some(Register::ALCControl3),
            0x23 => Some(Register::NoiseGate),
            0x24 => Some(Register::PllN),
            0x25 => Some(Register::PllK1),
            0x26 => Some(Register::PllK2),
            0x27 => Some(Register::PllK3),
            0x29 => Some(Register::ThreeDControl),
            0x2B => Some(Register::RightSpeakerSubmix),
            0x2C => Some(Register::InputControl),
            0x2D => Some(Register::LeftInputPGAGain),
            0x2E => Some(Register::RightInputPGAGain),
            0x2F => Some(Register::LeftADCBoost),
            0x30 => Some(Register::RightADCBoost),
            0x31 => Some(Register::OutputControl),
            0x32 => Some(Register::LeftMixer),
            0x33 => Some(Register::RightMixer),
            0x34 => Some(Register::LHPVolume),
            0x35 => Some(Register::RHPVolume),
            0x36 => Some(Register::LSPKOUTVolume),
            0x37 => Some(Register::RSPKOUTVolume),
            0x38 => Some(Register::AUX2Mixer),
            0x39 => Some(Register::AUX1Mixer),
            0x3A => Some(Register::PowerManagement),
            0x3B => Some(Register::LeftTimeSlot),
            0x3C => Some(Register::Misc),
            0x3D => Some(Register::RightTimeSlot),
            0x3E => Some(Register::DeviceRevisionNo),
            0x3F => Some(Register::DeviceId),
            0x46 => Some(Register::AlcEnhancements1),
            0x47 => Some(Register::AlcEnhancements2),
            0x49 => Some(Register::MiscControls),
            0x4A => Some(Register::TieOffOverrides),
            0x4B => Some(Register::PowerTieOffCtrl),
            0x4C => Some(Register::P2PDetectorRead),
            0x4D => Some(Register::PeakDetectorRead),
            0x4E => Some(Register::ControlAndStatus),
            0x4F => Some(Register::OutputTieOffControl),
            _ => None,
        }
    }

    /// The bus address of the register.
    pub fn address(self) -> (r: u8)
        ensures
            r == self.spec_address(),
    {
        match self {
            Register::SoftwareReset => 0x00,
            Register::PowerManagement1 => 0x01,
            Register::PowerManagement2 => 0x02,
            Register::PowerManagement3 => 0x03,
            Register::AudioInterface => 0x04,
            Register::Companding => 0x05,
            Register::ClockControl1 => 0x06,
            Register::ClockControl2 => 0x07,
            Register::GPIO => 0x08,
            Register::JackDetect1 => 0x09,
            Register::DACControl => 0x0A,
            Register::LeftDACVolume => 0x0B,
            Register::RightDACVolume => 0x0C,
            Register::JackDetect2 => 0x0D,
            Register::ADCControl => 0x0E,
            Register::LeftADCVolume => 0x0F,
            Register::RightADCVolume => 0x10,
            Register::EQ1HighCutoff => 0x12,
            Register::EQ2Peak1 => 0x13,
            Register::EQ3Peak2 => 0x14,
            Register::EQ4Peak3 => 0x15,
            Register::EQ5LowCutoff => 0x16,
            Register::DACLimiter1 => 0x18,
            Register::DACLimiter2 => 0x19,
            Register::NotchFilter1 => 0x1B,
            Register::NotchFilter2 => 0x1C,
            Register::NotchFilter3 => 0x1D,
            Register::NotchFilter4 => 0x1E,
            Register::ALCControl1 => 0x20,
            Register::ALCControl2 => 0x21,
            Register::ALCControl3 => 0x22,
            Register::NoiseGate => 0x23,
            Register::PllN => 0x24,
            Register::PllK1 => 0x25,
            Register::PllK2 => 0x26,
            Register::PllK3 => 0x27,
            Register::ThreeDControl => 0x29,
            Register::RightSpeakerSubmix => 0x2B,
            Register::InputControl => 0x2C,
            Register::LeftInputPGAGain => 0x2D,
            Register::RightInputPGAGain => 0x2E,
            Register::LeftADCBoost => 0x2F,
            Register::RightADCBoost => 0x30,
            Register::OutputControl => 0x31,
            Register::LeftMixer => 0x32,
            Register::RightMixer => 0x33,
            Register::LHPVolume => 0x34,
            Register::RHPVolume => 0x35,
            Register::LSPKOUTVolume => 0x36,
            Register::RSPKOUTVolume => 0x37,
            Register::AUX2Mixer => 0x38,
            Register::AUX1Mixer => 0x39,
            Register::PowerManagement => 0x3A,
            Register::LeftTimeSlot => 0x3B,
            Register::Misc => 0x3C,
            Register::RightTimeSlot => 0x3D,
            Register::DeviceRevisionNo => 0x3E,
            Register::DeviceId => 0x3F,
            Register::AlcEnhancements1 => 0x46,
            Register::AlcEnhancements2 => 0x47,
            Register::MiscControls => 0x49,
            Register::TieOffOverrides => 0x4A,
            Register::PowerTieOffCtrl => 0x4B,
            Register::P2PDetectorRead => 0x4C,
            Register::PeakDetectorRead => 0x4D,
            Register::ControlAndStatus => 0x4E,
            Register::OutputTieOffControl => 0x4F,
        }
    }

    /// The register at bus address `address`, or `UnknownRegisterAddress`
    /// when no register has that address.
    pub fn from_address(address: u8) -> (r: Result<Register, UnknownRegisterAddress>)
        ensures
            r == (match Self::spec_from_address(address) {
                Some(reg) => Ok(reg),
                None => Err(UnknownRegisterAddress(address)),
            }),
            r matches Ok(reg) ==> reg.spec_address() == address,
            r is Err <==> forall|reg: Register| #[trigger] reg.spec_address() != address,
    {
        let r = match address {
            0x00 => Ok(Register::SoftwareReset),
            0x01 => Ok(Register::PowerManagement1),
            0x02 => Ok(Register::PowerManagement2),
            0x03 => Ok(Register::PowerManagement3),
            0x04 => Ok(Register::AudioInterface),
            0x05 => Ok(Register::Companding),
            0x06 => Ok(Register::ClockControl1),
            0x07 => Ok(Register::ClockControl2),
            0x08 => Ok(Register::GPIO),
            0x09 => Ok(Register::JackDetect1),
            0x0A => Ok(Register::DACControl),
            0x0B => Ok(Register::LeftDACVolume),
            0x0C => Ok(Register::RightDACVolume),
            0x0D => Ok(Register::JackDetect2),
            0x0E => Ok(Register::ADCControl),
            0x0F => Ok(Register::LeftADCVolume),
            0x10 => Ok(Register::RightADCVolume),
            0x12 => Ok(Register::EQ1HighCutoff),
            0x13 => Ok(Register::EQ2Peak1),
            0x14 => Ok(Register::EQ3Peak2),
            0x15 => Ok(Register::EQ4Peak3),
            0x16 => Ok(Register::EQ5LowCutoff),
            0x18 => Ok(Register::DACLimiter1),
            0x19 => Ok(Register::DACLimiter2),
            0x1B => Ok(Register::NotchFilter1),
            0x1C => Ok(Register::NotchFilter2),
            0x1D => Ok(Register::NotchFilter3),
            0x1E => Ok(Register::NotchFilter4),
            0x20 => Ok(Register::ALCControl1),
            0x21 => Ok(Register::ALCControl2),
            0x22 => Ok(Register::ALCControl3),
            0x23 => Ok(Register::NoiseGate),
            0x24 => Ok(Register::PllN),
            0x25 => Ok(Register::PllK1),
            0x26 => Ok(Register::PllK2),
            0x27 => Ok(Register::PllK3),
            0x29 => Ok(Register::ThreeDControl),
            0x2B => Ok(Register::RightSpeakerSubmix),
            0x2C => Ok(Register::InputControl),
            0x2D => Ok(Register::LeftInputPGAGain),
            0x2E => Ok(Register::RightInputPGAGain),
            0x2F => Ok(Register::LeftADCBoost),
            0x30 => Ok(Register::RightADCBoost),
            0x31 => Ok(Register::OutputControl),
            0x32 => Ok(Register::LeftMixer),
            0x33 => Ok(Register::RightMixer),
            0x34 => Ok(Register::LHPVolume),
            0x35 => Ok(Register::RHPVolume),
            0x36 => Ok(Register::LSPKOUTVolume),
            0x37 => Ok(Register::RSPKOUTVolume),
            0x38 => Ok(Register::AUX2Mixer),
            0x39 => Ok(Register::AUX1Mixer),
            0x3A => Ok(Register::PowerManagement),
            0x3B => Ok(Register::LeftTimeSlot),
            0x3C => Ok(Register::Misc),
            0x3D => Ok(Register::RightTimeSlot),
            0x3E => Ok(Register::DeviceRevisionNo),
            0x3F => Ok(Register::DeviceId),
            0x46 => Ok(Register::AlcEnhancements1),
            0x47 => Ok(Register::AlcEnhancements2),
            0x49 => Ok(Register::MiscControls),
            0x4A => Ok(Register::TieOffOverrides),
            0x4B => Ok(Register::PowerTieOffCtrl),
            0x4C => Ok(Register::P2PDetectorRead),
            0x4D => Ok(Register::PeakDetectorRead),
            0x4E => Ok(Register::ControlAndStatus),
            0x4F => Ok(Register::OutputTieOffControl),
            _ => Err(UnknownRegisterAddress(address)),
        };
        proof {
            assert forall|reg: Register| #[trigger] reg.spec_address() == address
                implies Self::spec_from_address(address) == Some(reg) by {
                lemma_address_round_trip(reg);
            }
            if let Ok(reg) = r {
                assert(reg.spec_address() == address);
            }
        }
        r
    }
}

/// Looking up the address of a register gives back that register, and every
/// address lies in `0x00..=0x4F`.
pub proof fn lemma_address_round_trip(reg: Register)
    ensures
        Register::spec_from_address(reg.spec_address()) == Some(reg),
        reg.spec_address() <= 0x4f,
{
    match reg {
        Register::SoftwareReset => {},
        Register::PowerManagement1 => {},
        Register::PowerManagement2 => {},
        Register::PowerManagement3 => {},
        Register::AudioInterface => {},
        Register::Companding => {},
        Register::ClockControl1 => {},
        Register::ClockControl2 => {},
        Register::GPIO => {},
        Register::JackDetect1 => {},
        Register::DACControl => {},
        Register::LeftDACVolume => {},
        Register::RightDACVolume => {},
        Register::JackDetect2 => {},
        Register::ADCControl => {},
        Register::LeftADCVolume => {},
        Register::RightADCVolume => {},
        Register::EQ1HighCutoff => {},
        Register::EQ2Peak1 => {},
        Register::EQ3Peak2 => {},
        Register::EQ4Peak3 => {},
        Register::EQ5LowCutoff => {},
        Register::DACLimiter1 => {},
        Register::DACLimiter2 => {},
        Register::NotchFilter1 => {},
        Register::NotchFilter2 => {},
        Register::NotchFilter3 => {},
        Register::NotchFilter4 => {},
        Register::ALCControl1 => {},
        Register::ALCControl2 => {},
        Register::ALCControl3 => {},
        Register::NoiseGate => {},
        Register::PllN => {},
        Register::PllK1 => {},
        Register::PllK2 => {},
        Register::PllK3 => {},
        Register::ThreeDControl => {},
        Register::RightSpeakerSubmix => {},
        Register::InputControl => {},
        Register::LeftInputPGAGain => {},
        Register::RightInputPGAGain => {},
        Register::LeftADCBoost => {},
        Register::RightADCBoost => {},
        Register::OutputControl => {},
        Register::LeftMixer => {},
        Register::RightMixer => {},
        Register::LHPVolume => {},
        Register::RHPVolume => {},
        Register::LSPKOUTVolume => {},
        Register::RSPKOUTVolume => {},
        Register::AUX2Mixer => {},
        Register::AUX1Mixer => {},
        Register::PowerManagement => {},
        Register::LeftTimeSlot => {},
        Register::Misc => {},
        Register::RightTimeSlot => {},
        Register::DeviceRevisionNo => {},
        Register::DeviceId => {},
        Register::AlcEnhancements1 => {},
        Register::AlcEnhancements2 => {},
        Register::MiscControls => {},
        Register::TieOffOverrides => {},
        Register::PowerTieOffCtrl => {},
        Register::P2PDetectorRead => {},
        Register::PeakDetectorRead => {},
        Register::ControlAndStatus => {},
        Register::OutputTieOffControl => {},
    }
}

/// No two registers share a bus address.
pub proof fn lemma_address_unique(a: Register, b: Register)
    requires
        a.spec_address() == b.spec_address(),
    ensures
        a == b,
{
    lemma_address_round_trip(a);
    lemma_address_round_trip(b);
}

} // verus!
