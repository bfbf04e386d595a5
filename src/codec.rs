//! Typed register words: for each register, its word and one accessor pair
//! per field.
//!
//! Each getter is stated with [`field_value`] or [`flag`] and each setter
//! with [`with_field`] or [`with_flag`], at the field's bit positions. A setter
//! therefore replaces the bits of its field and nothing else; a raw field's
//! setter keeps only as many low bits of the value as the field is wide.
//! A register whose fields are not broken out holds its word as it is.
use vstd::prelude::*;

use crate::bits::{
    field_max, field_value, flag, get_bit, get_bits, put_bit, put_bits, with_field, with_flag,
};
use crate::bits::{lemma_disjoint_fields, lemma_field_non_interference, lemma_field_round_trip};
use crate::modes::{lemma_companding_decode_total, lemma_gpio1_decode_total};
use crate::modes::{CompandingMode, Gpio1Selection, ReservedFieldValue};

verus! {

/// Power Management 1 register contents.
#[derive(Debug, Clone, Copy, PartialEq, Eq, Structural)]
pub struct PowerManagement1(pub u16);

impl PowerManagement1 {
    /// Power control for internal tie-off buffer used in 1.5X boost conditions
    ///
    /// * `false` - internal buffer unpowered
    /// * `true` - enabled
    pub fn dcbufen(&self) -> (r: bool)
        ensures
            r == flag(self.0, 8),
    {
        get_bit(self.0, 8)
    }

    /// Sets [`Self::dcbufen`]; every other bit of the word is kept.
    pub fn set_dcbufen(&mut self, value: bool)
        ensures
            final(self).0 == with_flag(old(self).0, 8, value),
    {
        self.0 = put_bit(self.0, 8, value);
    }

    /// Power control for AUX1 MIXER supporting AUXOUT1 analog output
    ///
    /// * `false` - unpowered
    /// * `true` - enabled
    pub fn aux1mxen(&self) -> (r: bool)
        ensures
            r == flag(self.0, 7),
    {
        get_bit(self.0, 7)
    }

    /// Sets [`Self::aux1mxen`]; every other bit of the word is kept.
    pub fn set_aux1mxen(&mut self, value: bool)
        ensures
            final(self).0 == with_flag(old(self).0, 7, value),
    {
        self.0 = put_bit(self.0, 7, value);
    }

    /// Power control for AUX2 MIXER supporting AUXOUT2 analog output
    ///
    /// * `false` - unpowered
    /// * `true` - enabled
    pub fn aux2mxen(&self) -> (r: bool)
        ensures
            r == flag(self.0, 6),
    {
        get_bit(self.0, 6)
    }

    /// Sets [`Self::aux2mxen`]; every other bit of the word is kept.
    pub fn set_aux2mxen(&mut self, value: bool)
        ensures
            final(self).0 == with_flag(old(self).0, 6, value),
    {
        self.0 = put_bit(self.0, 6, value);
    }

    /// Power control for internal PLL
    ///
    /// * `false` - unpowered
    /// * `true` - enabled
    pub fn pllen(&self) -> (r: bool)
        ensures
            r == flag(self.0, 5),
    {
        get_bit(self.0, 5)
    }

    /// Sets [`Self::pllen`]; every other bit of the word is kept.
    pub fn set_pllen(&mut self, value: bool)
        ensures
            final(self).0 == with_flag(old(self).0, 5, value),
    {
        self.0 = put_bit(self.0, 5, value);
    }

    /// Power control for microphone bias buffer amplifier (MICBIAS output, pin#32)
    ///
    /// * `false` - unpowered and MICBIAS pin in high-Z condition
    /// * `true` - enabled
    pub fn micbiasen(&self) -> (r: bool)
        ensures
            r == flag(self.0, 4),
    {
        get_bit(self.0, 4)
    }

    /// Sets [`Self::micbiasen`]; every other bit of the word is kept.
    pub fn set_micbiasen(&mut self, value: bool)
        ensures
            final(self).0 == with_flag(old(self).0, 4, value),
    {
        self.0 = put_bit(self.0, 4, value);
    }

    /// Power control for internal analog bias buffers
    ///
    /// * `false` - unpowered
    /// * `true` - enabled
    pub fn abiasen(&self) -> (r: bool)
        ensures
            r == flag(self.0, 3),
    {
        get_bit(self.0, 3)
    }

    /// Sets [`Self::abiasen`]; every other bit of the word is kept.
    pub fn set_abiasen(&mut self, value: bool)
        ensures
            final(self).0 == with_flag(old(self).0, 3, value),
    {
        self.0 = put_bit(self.0, 3, value);
    }

    /// Power control for internal tie-off buffer used in non-boost mode (-1.0x gain) conditions
    ///
    /// * `false` - internal buffer unpowered
    /// * `true` - enabled
    pub fn iobufen(&self) -> (r: bool)
        ensures
            r == flag(self.0, 2),
    {
        get_bit(self.0, 2)
    }

    /// Sets [`Self::iobufen`]; every other bit of the word is kept.
    pub fn set_iobufen(&mut self, value: bool)
        ensures
            final(self).0 == with_flag(old(self).0, 2, value),
    {
        self.0 = put_bit(self.0, 2, value);
    }

    /// Select impedance of reference string used to establish VREF for internal bias buffers
    ///
    /// * `0` = off (input to internal bias buffer in high-Z floating condition)
    /// * `1` = 80kΩ nominal impedance at VREF pin
    /// * `2` = 300kΩ nominal impedance at VREF pin
    /// * `3` = 3kΩ nominal impedance at VREF pin
    pub fn refimp(&self) -> (r: u8)
        ensures
            r as u16 == field_value(self.0, 1, 0),
    {
        get_bits(self.0, 1, 0)
    }

    /// Sets [`Self::refimp`] to the low bits of `value` that fit the field;
    /// every other bit of the word is kept.
    pub fn set_refimp(&mut self, value: u8)
        ensures
            final(self).0 == with_field(old(self).0, 1, 0, value as u16),
    {
        self.0 = put_bits(self.0, 1, 0, value);
    }
}

/// Power Management 2 register contents.
#[derive(Debug, Clone, Copy, PartialEq, Eq, Structural)]
pub struct PowerManagement2(pub u16);

impl PowerManagement2 {
    /// Right Headphone driver enable, RHP analog output, pin#29
    ///
    /// * `false` = RHP pin in high-Z condition
    /// * `true` = enabled
    pub fn rhpen(&self) -> (r: bool)
        ensures
            r == flag(self.0, 8),
    {
        get_bit(self.0, 8)
    }

    /// Sets [`Self::rhpen`]; every other bit of the word is kept.
    pub fn set_rhpen(&mut self, value: bool)
        ensures
            final(self).0 == with_flag(old(self).0, 8, value),
    {
        self.0 = put_bit(self.0, 8, value);
    }

    /// Left Headphone driver enabled, LHP analog output pin#30
    ///
    /// * `false` = LHP pin in high-Z condition
    /// * `true` = enabled
    pub fn lhpen(&self) -> (r: bool)
        ensures
            r == flag(self.0, 7),
    {
        get_bit(self.0, 7)
    }

    /// Sets [`Self::lhpen`]; every other bit of the word is kept.
    pub fn set_lhpen(&mut self, value: bool)
        ensures
            final(self).0 == with_flag(old(self).0, 7, value),
    {
        self.0 = put_bit(self.0, 7, value);
    }

    /// Sleep enable
    ///
    /// * `false` = device in normal operating mode
    /// * `true` = device in low-power sleep condition
    pub fn sleep(&self) -> (r: bool)
        ensures
            r == flag(self.0, 6),
    {
        get_bit(self.0, 6)
    }

    /// Sets [`Self::sleep`]; every other bit of the word is kept.
    pub fn set_sleep(&mut self, value: bool)
        ensures
            final(self).0 == with_flag(old(self).0, 6, value),
    {
        self.0 = put_bit(self.0, 6, value);
    }

    /// Right channel input mixer, RADC Mix/Boost stage power control
    ///
    /// * `false` = RADC Mix/Boost stage OFF
    /// * `true` = RADC Mix/Boost stage ON
    pub fn rbsten(&self) -> (r: bool)
        ensures
            r == flag(self.0, 5),
    {
        get_bit(self.0, 5)
    }

    /// Sets [`Self::rbsten`]; every other bit of the word is kept.
    pub fn set_rbsten(&mut self, value: bool)
        ensures
            final(self).0 == with_flag(old(self).0, 5, value),
    {
        self.0 = put_bit(self.0, 5, value);
    }

    /// Left channel input mixer, LADC Mix/Boost stage power control
    ///
    /// * `false` = LADC Mix/Boost stage OFF
    /// * `true` = LADC Mix/Boost stage ON
    pub fn lbsten(&self) -> (r: bool)
        ensures
            r == flag(self.0, 4),
    {
        get_bit(self.0, 4)
    }

    /// Sets [`Self::lbsten`]; every other bit of the word is kept.
    pub fn set_lbsten(&mut self, value: bool)
        ensures
            final(self).0 == with_flag(old(self).0, 4, value),
    {
        self.0 = put_bit(self.0, 4, value);
    }

    /// Right channel input programmable amplifier (PGA) power control
    ///
    /// * `false` = Right PGA input stage OFF
    /// * `true` = enabled
    pub fn rpgaen(&self) -> (r: bool)
        ensures
            r == flag(self.0, 3),
    {
        get_bit(self.0, 3)
    }

    /// Sets [`Self::rpgaen`]; every other bit of the word is kept.
    pub fn set_rpgaen(&mut self, value: bool)
        ensures
            final(self).0 == with_flag(old(self).0, 3, value),
    {
        self.0 = put_bit(self.0, 3, value);
    }

    /// Left channel input programmable amplifier power control
    ///
    /// * `false` = Left PGA input stage OFF
    /// * `true` = enabled
    pub fn lpgaen(&self) -> (r: bool)
        ensures
            r == flag(self.0, 2),
    {
        get_bit(self.0, 2)
    }

    /// Sets [`Self::lpgaen`]; every other bit of the word is kept.
    pub fn set_lpgaen(&mut self, value: bool)
        ensures
            final(self).0 == with_flag(old(self).0, 2, value),
    {
        self.0 = put_bit(self.0, 2, value);
    }

    /// Right channel analog-to-digital converter power control
    ///
    /// * `false` = Right ADC stage OFF
    /// * `true` = enabled
    pub fn radcen(&self) -> (r: bool)
        ensures
            r == flag(self.0, 1),
    {
        get_bit(self.0, 1)
    }

    /// Sets [`Self::radcen`]; every other bit of the word is kept.
    pub fn set_radcen(&mut self, value: bool)
        ensures
            final(self).0 == with_flag(old(self).0, 1, value),
    {
        self.0 = put_bit(self.0, 1, value);
    }

    /// Left channel analog-to-digital converter power control
    ///
    /// * `false` = Left ADC stage OFF
    /// * `true` = enable
    pub fn ladcen(&self) -> (r: bool)
        ensures
            r == flag(self.0, 0),
    {
        get_bit(self.0, 0)
    }

    /// Sets [`Self::ladcen`]; every other bit of the word is kept.
    pub fn set_ladcen(&mut self, value: bool)
        ensures
            final(self).0 == with_flag(old(self).0, 0, value),
    {
        self.0 = put_bit(self.0, 0, value);
    }
}

/// Power Management 3 register contents.
#[derive(Debug, Clone, Copy, PartialEq, Eq, Structural)]
pub struct PowerManagement3(pub u16);

impl PowerManagement3 {
    /// AUXOUT1 analog output power control, pin#21
    ///
    /// * `false` = AUXOUT1 output driver OFF
    /// * `true` = enabled
    pub fn auxout1en(&self) -> (r: bool)
        ensures
            r == flag(self.0, 8),
    {
        get_bit(self.0, 8)
    }

    /// Sets [`Self::auxout1en`]; every other bit of the word is kept.
    pub fn set_auxout1en(&mut self, value: bool)
        ensures
            final(self).0 == with_flag(old(self).0, 8, value),
    {
        self.0 = put_bit(self.0, 8, value);
    }

    /// AUXOUT2 analog output power control, pin#22
    ///
    /// * `false` = AUXOUT2 output driver OFF
    /// * `true` = enabled
    pub fn auxout2en(&self) -> (r: bool)
        ensures
            r == flag(self.0, 7),
    {
        get_bit(self.0, 7)
    }

    /// Sets [`Self::auxout2en`]; every other bit of the word is kept.
    pub fn set_auxout2en(&mut self, value: bool)
        ensures
            final(self).0 == with_flag(old(self).0, 7, value),
    {
        self.0 = put_bit(self.0, 7, value);
    }

    /// LSPKOUT left speaker driver power control, pin#25
    ///
    /// * `false` = LSPKOUT output driver OFF
    /// * `true` = enabled
    pub fn lspken(&self) -> (r: bool)
        ensures
            r == flag(self.0, 6),
    {
        get_bit(self.0, 6)
    }

    /// Sets [`Self::lspken`]; every other bit of the word is kept.
    pub fn set_lspken(&mut self, value: bool)
        ensures
            final(self).0 == with_flag(old(self).0, 6, value),
    {
        self.0 = put_bit(self.0, 6, value);
    }

    /// RSPKOUT left speaker driver power control, pin#23
    ///
    /// * `false` = RSPKOUT output driver OFF
    /// * `true` = enabled
    pub fn rspken(&self) -> (r: bool)
        ensures
            r == flag(self.0, 5),
    {
        get_bit(self.0, 5)
    }

    /// Sets [`Self::rspken`]; every other bit of the word is kept.
    pub fn set_rspken(&mut self, value: bool)
        ensures
            final(self).0 == with_flag(old(self).0, 5, value),
    {
        self.0 = put_bit(self.0, 5, value);
    }

    /// Right main mixer power control, RMAIN MIXER internal stage
    ///
    /// * `false` = RMAIN MIXER stage OFF
    /// * `true` = enabled
    pub fn rmixen(&self) -> (r: bool)
        ensures
            r == flag(self.0, 3),
    {
        get_bit(self.0, 3)
    }

    /// Sets [`Self::rmixen`]; every other bit of the word is kept.
    pub fn set_rmixen(&mut self, value: bool)
        ensures
            final(self).0 == with_flag(old(self).0, 3, value),
    {
        self.0 = put_bit(self.0, 3, value);
    }

    /// Left main mixer power control, LMAIN MIXER internal stage
    ///
    /// * `false` = LMAIN MIXER stage OFF
    /// * `true` = enabled
    pub fn lmixen(&self) -> (r: bool)
        ensures
            r == flag(self.0, 2),
    {
        get_bit(self.0, 2)
    }

    /// Sets [`Self::lmixen`]; every other bit of the word is kept.
    pub fn set_lmixen(&mut self, value: bool)
        ensures
            final(self).0 == with_flag(old(self).0, 2, value),
    {
        self.0 = put_bit(self.0, 2, value);
    }

    /// Right channel digital-to-analog converter, RDAC, power control
    ///
    /// * `false` = RDAC stage OFF
    /// * `true` = enabled
    pub fn rdacen(&self) -> (r: bool)
        ensures
            r == flag(self.0, 1),
    {
        get_bit(self.0, 1)
    }

    /// Sets [`Self::rdacen`]; every other bit of the word is kept.
    pub fn set_rdacen(&mut self, value: bool)
        ensures
            final(self).0 == with_flag(old(self).0, 1, value),
    {
        self.0 = put_bit(self.0, 1, value);
    }

    /// Left channel digital-to-analog converter, LDAC, power control
    ///
    /// * `false` = LDAC stage OFF
    /// * `true` = enabled
    pub fn ldacen(&self) -> (r: bool)
        ensures
            r == flag(self.0, 0),
    {
        get_bit(self.0, 0)
    }

    /// Sets [`Self::ldacen`]; every other bit of the word is kept.
    pub fn set_ldacen(&mut self, value: bool)
        ensures
            final(self).0 == with_flag(old(self).0, 0, value),
    {
        self.0 = put_bit(self.0, 0, value);
    }
}

/// Audio Interface register contents.
#[derive(Debug, Clone, Copy, PartialEq, Eq, Structural)]
pub struct AudioInterface(pub u16);

impl AudioInterface {
    /// Bit clock phase inversion option for BCLK, pin#8
    ///
    /// * `false` = normal phase
    /// * `true` = input logic sense inverted
    pub fn bclkp(&self) -> (r: bool)
        ensures
            r == flag(self.0, 8),
    {
        get_bit(self.0, 8)
    }

    /// Sets [`Self::bclkp`]; every other bit of the word is kept.
    pub fn set_bclkp(&mut self, value: bool)
        ensures
            final(self).0 == with_flag(old(self).0, 8, value),
    {
        self.0 = put_bit(self.0, 8, value);
    }

    /// Phase control for I2S audio data bus interface, or PCMA and PCMB
    /// left/right word order control
    ///
    /// * `false` = normal phase operation, or MSB is valid on 2nd rising edge
    /// of BCLK after rising edge of FS
    /// * `true` = inverted phase operation, or MSB is valid on 1st rising edge
    /// of BCLK after rising edge of FS
    pub fn lrp(&self) -> (r: bool)
        ensures
            r == flag(self.0, 7),
    {
        get_bit(self.0, 7)
    }

    /// Sets [`Self::lrp`]; every other bit of the word is kept.
    pub fn set_lrp(&mut self, value: bool)
        ensures
            final(self).0 == with_flag(old(self).0, 7, value),
    {
        self.0 = put_bit(self.0, 7, value);
    }

    /// Word length (24-bits default) of audio data stream
    ///
    /// * `0` = 16-bit word length
    /// * `1` = 20-bit word length
    /// * `2` = 24-bit word length
    /// * `3` = 32-bit word length
    pub fn wlen(&self) -> (r: u8)
        ensures
            r as u16 == field_value(self.0, 6, 5),
    {
        get_bits(self.0, 6, 5)
    }

    /// Sets [`Self::wlen`] to the low bits of `value` that fit the field;
    /// every other bit of the word is kept.
    pub fn set_wlen(&mut self, value: u8)
        ensures
            final(self).0 == with_field(old(self).0, 6, 5, value as u16),
    {
        self.0 = put_bits(self.0, 6, 5, value);
    }

    /// Audio interface data format (default setting is I2S)
    ///
    /// * `0` = right justified
    /// * `1` = left justified
    /// * `2` = standard I2S format
    /// * `3` = PCMA or PCMB audio data format option
    pub fn aifmt(&self) -> (r: u8)
        ensures
            r as u16 == field_value(self.0, 4, 3),
    {
        get_bits(self.0, 4, 3)
    }

    /// Sets [`Self::aifmt`] to the low bits of `value` that fit the field;
    /// every other bit of the word is kept.
    pub fn set_aifmt(&mut self, value: u8)
        ensures
            final(self).0 == with_field(old(self).0, 4, 3, value as u16),
    {
        self.0 = put_bits(self.0, 4, 3, value);
    }

    /// DAC audio data left-right ordering
    ///
    /// * `false` = left DAC data in left phase of LRP
    /// * `true` = left DAC data in right phase of LRP (left-right reversed)
    pub fn dacphs(&self) -> (r: bool)
        ensures
            r == flag(self.0, 2),
    {
        get_bit(self.0, 2)
    }

    /// Sets [`Self::dacphs`]; every other bit of the word is kept.
    pub fn set_dacphs(&mut self, value: bool)
        ensures
            final(self).0 == with_flag(old(self).0, 2, value),
    {
        self.0 = put_bit(self.0, 2, value);
    }

    /// ADC audio data left-right ordering
    ///
    /// * `false` = left ADC data is output in left phase of LRP
    /// * `true` = left ADC data is output in right phase of LRP (left-right reversed)
    pub fn adcphs(&self) -> (r: bool)
        ensures
            r == flag(self.0, 1),
    {
        get_bit(self.0, 1)
    }

    /// Sets [`Self::adcphs`]; every other bit of the word is kept.
    pub fn set_adcphs(&mut self, value: bool)
        ensures
            final(self).0 == with_flag(old(self).0, 1, value),
    {
        self.0 = put_bit(self.0, 1, value);
    }

    /// Mono operation enable
    ///
    /// * `false` = normal stereo mode of operation
    /// * `true` = mono mode with audio data in left phase of LRP
    pub fn mono(&self) -> (r: bool)
        ensures
            r == flag(self.0, 0),
    {
        get_bit(self.0, 0)
    }

    /// Sets [`Self::mono`]; every other bit of the word is kept.
    pub fn set_mono(&mut self, value: bool)
        ensures
            final(self).0 == with_flag(old(self).0, 0, value),
    {
        self.0 = put_bit(self.0, 0, value);
    }
}

/// Companding register contents.
#[derive(Debug, Clone, Copy, PartialEq, Eq, Structural)]
pub struct Companding(pub u16);

impl Companding {
    /// 8-bit word enable for companding mode of operation
    ///
    /// * `false` = normal operation (no companding)
    /// * `true` = 8-bit operation for companding mode
    pub fn cmb8(&self) -> (r: bool)
        ensures
            r == flag(self.0, 5),
    {
        get_bit(self.0, 5)
    }

    /// Sets [`Self::cmb8`]; every other bit of the word is kept.
    pub fn set_cmb8(&mut self, value: bool)
        ensures
            final(self).0 == with_flag(old(self).0, 5, value),
    {
        self.0 = put_bit(self.0, 5, value);
    }

    /// DAC companding mode control
    ///
    /// * `0` = off (normal linear operation)
    /// * `1` = reserved
    /// * `2` = u-law companding
    /// * `3` = A-law companding
    ///
    /// A reserved pattern is returned as `ReservedFieldValue`.
    pub fn daccm(&self) -> (r: Result<CompandingMode, ReservedFieldValue>)
        ensures
            r == CompandingMode::spec_from_bits(field_value(self.0, 4, 3) as u8),
    {
        CompandingMode::from_bits(get_bits(self.0, 4, 3))
    }

    /// Sets [`Self::daccm`]; every other bit of the word is kept.
    pub fn set_daccm(&mut self, value: CompandingMode)
        ensures
            final(self).0 == with_field(old(self).0, 4, 3, value.spec_bits() as u16),
    {
        self.0 = put_bits(self.0, 4, 3, value.bits());
    }

    /// ADC companding mode control
    ///
    /// * `0` = off (normal linear operation)
    /// * `1` = reserved
    /// * `2` = u-law companding
    /// * `3` = A-law companding
    ///
    /// A reserved pattern is returned as `ReservedFieldValue`.
    pub fn adccm(&self) -> (r: Result<CompandingMode, ReservedFieldValue>)
        ensures
            r == CompandingMode::spec_from_bits(field_value(self.0, 2, 1) as u8),
    {
        CompandingMode::from_bits(get_bits(self.0, 2, 1))
    }

    /// Sets [`Self::adccm`]; every other bit of the word is kept.
    pub fn set_adccm(&mut self, value: CompandingMode)
        ensures
            final(self).0 == with_field(old(self).0, 2, 1, value.spec_bits() as u16),
    {
        self.0 = put_bits(self.0, 2, 1, value.bits());
    }

    /// DAC audio data input option to route directly to ADC data stream
    ///
    /// * `false` = no passthrough, normal operation
    /// * `true` = ADC output data stream routed to DAC input data path
    pub fn addap(&self) -> (r: bool)
        ensures
            r == flag(self.0, 0),
    {
        get_bit(self.0, 0)
    }

    /// Sets [`Self::addap`]; every other bit of the word is kept.
    pub fn set_addap(&mut self, value: bool)
        ensures
            final(self).0 == with_flag(old(self).0, 0, value),
    {
        self.0 = put_bit(self.0, 0, value);
    }
}

/// Clock Control 1 register contents.
#[derive(Debug, Clone, Copy, PartialEq, Eq, Structural)]
pub struct ClockControl1(pub u16);

impl ClockControl1 {
    /// Master clock source selection control
    ///
    /// * `false` = MCLK, pin#11 used as master clock
    /// * `true` = internal PLL oscillator output used as master clock
    pub fn clkm(&self) -> (r: bool)
        ensures
            r == flag(self.0, 8),
    {
        get_bit(self.0, 8)
    }

    /// Sets [`Self::clkm`]; every other bit of the word is kept.
    pub fn set_clkm(&mut self, value: bool)
        ensures
            final(self).0 == with_flag(old(self).0, 8, value),
    {
        self.0 = put_bit(self.0, 8, value);
    }

    /// Scaling of master clock source for internal 256fs rate (divide by 2 = default)
    ///
    /// * `0` = divide by 1
    /// * `1` = divide by 1.5
    /// * `2` = divide by 2
    /// * `3` = divide by 3
    /// * `4` = divide by 4
    /// * `5` = divide by 6
    /// * `6` = divide by 8
    /// * `7` = divide by 12
    pub fn mclksel(&self) -> (r: u8)
        ensures
            r as u16 == field_value(self.0, 7, 5),
    {
        get_bits(self.0, 7, 5)
    }

    /// Sets [`Self::mclksel`] to the low bits of `value` that fit the field;
    /// every other bit of the word is kept.
    pub fn set_mclksel(&mut self, value: u8)
        ensures
            final(self).0 == with_field(old(self).0, 7, 5, value as u16),
    {
        self.0 = put_bits(self.0, 7, 5, value);
    }

    /// Scaling of output frequency at BCLK pin#8 when chip is in master mode
    ///
    /// * `0` = divide by 1
    /// * `1` = divide by 2
    /// * `2` = divide by 4
    /// * `3` = divide by 8
    /// * `4` = divide by 16
    /// * `5` = divide by 32
    pub fn bclksel(&self) -> (r: u8)
        ensures
            r as u16 == field_value(self.0, 4, 2),
    {
        get_bits(self.0, 4, 2)
    }

    /// Sets [`Self::bclksel`] to the low bits of `value` that fit the field;
    /// every other bit of the word is kept.
    pub fn set_bclksel(&mut self, value: u8)
        ensures
            final(self).0 == with_field(old(self).0, 4, 2, value as u16),
    {
        self.0 = put_bits(self.0, 4, 2, value);
    }

    /// Enables chip master mode to drive FS and BCLK outputs
    ///
    /// * `false` = FS and BCLK are inputs
    /// * `true` = FS and BCLK are driven as outputs by internally generated clocks
    pub fn clkioen(&self) -> (r: bool)
        ensures
            r == flag(self.0, 0),
    {
        get_bit(self.0, 0)
    }

    /// Sets [`Self::clkioen`]; every other bit of the word is kept.
    pub fn set_clkioen(&mut self, value: bool)
        ensures
            final(self).0 == with_flag(old(self).0, 0, value),
    {
        self.0 = put_bit(self.0, 0, value);
    }
}

/// Clock Control 2 register contents.
#[derive(Debug, Clone, Copy, PartialEq, Eq, Structural)]
pub struct ClockControl2(pub u16);

impl ClockControl2 {
    /// 4-wire control interface enable
    ///
    /// * `false` = disabled
    /// * `true` = enabled
    pub fn fourwirecie(&self) -> (r: bool)
        ensures
            r == flag(self.0, 8),
    {
        get_bit(self.0, 8)
    }

    /// Sets [`Self::fourwirecie`]; every other bit of the word is kept.
    pub fn set_fourwirecie(&mut self, value: bool)
        ensures
            final(self).0 == with_flag(old(self).0, 8, value),
    {
        self.0 = put_bit(self.0, 8, value);
    }

    /// Audio data sample rate indication (48kHz default). Sets up scaling for
    /// internal filter coefficients, but does not affect in any way the actual
    /// device sample rate. Should be set to value most closely matching the
    /// actual sample rate determined by 256fs internal node.
    ///
    /// * `0` = 48kHz
    /// * `1` = 32kHz
    /// * `2` = 24kHz
    /// * `3` = 16kHz
    /// * `4` = 12kHz
    /// * `5` = 8kHz
    /// * `6` = reserved
    /// * `7` = reserved
    pub fn smplr(&self) -> (r: u8)
        ensures
            r as u16 == field_value(self.0, 3, 1),
    {
        get_bits(self.0, 3, 1)
    }

    /// Sets [`Self::smplr`] to the low bits of `value` that fit the field;
    /// every other bit of the word is kept.
    pub fn set_smplr(&mut self, value: u8)
        ensures
            final(self).0 == with_field(old(self).0, 3, 1, value as u16),
    {
        self.0 = put_bits(self.0, 3, 1, value);
    }

    /// Slow timer clock enable. Starts internal timer clock derived by dividing
    /// master clock.
    ///
    /// * `false` = disabled
    /// * `true` = enabled
    pub fn sclken(&self) -> (r: bool)
        ensures
            r == flag(self.0, 0),
    {
        get_bit(self.0, 0)
    }

    /// Sets [`Self::sclken`]; every other bit of the word is kept.
    pub fn set_sclken(&mut self, value: bool)
        ensures
            final(self).0 == with_flag(old(self).0, 0, value),
    {
        self.0 = put_bit(self.0, 0, value);
    }
}

/// GPIO register contents.
#[derive(Debug, Clone, Copy, PartialEq, Eq, Structural)]
pub struct GPIO(pub u16);

impl GPIO {
    /// Clock divisor applied to PLL clock for output from a GPIO pin
    ///
    /// * `0` = divide by 1
    /// * `1` = divide by 2
    /// * `2` = divide by 3
    /// * `3` = divide by 4
    pub fn gpio1pll(&self) -> (r: u8)
        ensures
            r as u16 == field_value(self.0, 5, 4),
    {
        get_bits(self.0, 5, 4)
    }

    /// Sets [`Self::gpio1pll`] to the low bits of `value` that fit the field;
    /// every other bit of the word is kept.
    pub fn set_gpio1pll(&mut self, value: u8)
        ensures
            final(self).0 == with_field(old(self).0, 5, 4, value as u16),
    {
        self.0 = put_bits(self.0, 5, 4, value);
    }

    /// GPIO1 polarity inversion control
    ///
    /// * `false` = normal logic sense of GPIO signal
    /// * `true` = inverted logic sense of GPIO signal
    pub fn gpio1pl(&self) -> (r: bool)
        ensures
            r == flag(self.0, 3),
    {
        get_bit(self.0, 3)
    }

    /// Sets [`Self::gpio1pl`]; every other bit of the word is kept.
    pub fn set_gpio1pl(&mut self, value: bool)
        ensures
            final(self).0 == with_flag(old(self).0, 3, value),
    {
        self.0 = put_bit(self.0, 3, value);
    }

    /// CSB/GPIO1 function select (input default)
    ///
    /// * `0` = use as input subject to MODE pin#18 input logic level
    /// * `1` = reserved
    /// * `2` = Temperature OK status output (logic 0 = thermal shutdown)
    /// * `3` = DAC automute condition (logic 1 = one or both DACs automuted)
    /// * `4` = output divided PLL clock
    /// * `5` = PLL locked condition (logic 1 = PLL locked)
    /// * `6` = output set to logic 1 condition
    /// * `7` = output set to logic 0 condition
    ///
    /// A reserved pattern is returned as `ReservedFieldValue`.
    pub fn gpio1sel(&self) -> (r: Result<Gpio1Selection, ReservedFieldValue>)
        ensures
            r == Gpio1Selection::spec_from_bits(field_value(self.0, 2, 0) as u8),
    {
        Gpio1Selection::from_bits(get_bits(self.0, 2, 0))
    }

    /// Sets [`Self::gpio1sel`]; every other bit of the word is kept.
    pub fn set_gpio1sel(&mut self, value: Gpio1Selection)
        ensures
            final(self).0 == with_field(old(self).0, 2, 0, value.spec_bits() as u16),
    {
        self.0 = put_bits(self.0, 2, 0, value.bits());
    }
}

/// Jack Detect 1 register contents.
#[derive(Debug, Clone, Copy, PartialEq, Eq, Structural)]
pub struct JackDetect1(pub u16);

impl JackDetect1 {
    /// Automatically enable internal bias amplifiers on jack detection state as
    /// sensed through GPIO pin associated to jack detection function
    ///
    /// * `0` = disabled
    /// * `1` = enable bias amplifiers on jack at logic 0 level
    /// * `2` = enable bias amplifiers on jack at logic 1 level
    /// * `3` = reserved
    pub fn jckmiden(&self) -> (r: u8)
        ensures
            r as u16 == field_value(self.0, 8, 7),
    {
        get_bits(self.0, 8, 7)
    }

    /// Sets [`Self::jckmiden`] to the low bits of `value` that fit the field;
    /// every other bit of the word is kept.
    pub fn set_jckmiden(&mut self, value: u8)
        ensures
            final(self).0 == with_field(old(self).0, 8, 7, value as u16),
    {
        self.0 = put_bits(self.0, 8, 7, value);
    }

    /// Jack detection feature enable
    ///
    /// * `false` = disabled
    /// * `true` = enable jack detection associated functionality
    pub fn jacden(&self) -> (r: bool)
        ensures
            r == flag(self.0, 6),
    {
        get_bit(self.0, 6)
    }

    /// Sets [`Self::jacden`]; every other bit of the word is kept.
    pub fn set_jacden(&mut self, value: bool)
        ensures
            final(self).0 == with_flag(old(self).0, 6, value),
    {
        self.0 = put_bit(self.0, 6, value);
    }

    /// Select jack detect pin (GPIO1 default)
    ///
    /// * `0` = GPIO1 is used for jack detection feature
    /// * `1` = GPIO2 is used for jack detection feature
    /// * `2` = GPIO3 is used for jack detection feature
    /// * `3` = reserved
    pub fn jckdio(&self) -> (r: u8)
        ensures
            r as u16 == field_value(self.0, 5, 4),
    {
        get_bits(self.0, 5, 4)
    }

    /// Sets [`Self::jckdio`] to the low bits of `value` that fit the field;
    /// every other bit of the word is kept.
    pub fn set_jckdio(&mut self, value: u8)
        ensures
            final(self).0 == with_field(old(self).0, 5, 4, value as u16),
    {
        self.0 = put_bits(self.0, 5, 4, value);
    }
}

/// DAC Control register contents.
#[derive(Debug, Clone, Copy, PartialEq, Eq, Structural)]
pub struct DACControl(pub u16);

impl DACControl {
    /// Softmute feature control for DACs
    ///
    /// * `false` = disabled
    /// * `true` = enabled
    pub fn softmt(&self) -> (r: bool)
        ensures
            r == flag(self.0, 6),
    {
        get_bit(self.0, 6)
    }

    /// Sets [`Self::softmt`]; every other bit of the word is kept.
    pub fn set_softmt(&mut self, value: bool)
        ensures
            final(self).0 == with_flag(old(self).0, 6, value),
    {
        self.0 = put_bit(self.0, 6, value);
    }

    /// DAC oversampling rate selection (64X default)
    ///
    /// * `false` = 64x oversampling
    /// * `true` = 128x oversampling
    pub fn dacos(&self) -> (r: bool)
        ensures
            r == flag(self.0, 3),
    {
        get_bit(self.0, 3)
    }

    /// Sets [`Self::dacos`]; every other bit of the word is kept.
    pub fn set_dacos(&mut self, value: bool)
        ensures
            final(self).0 == with_flag(old(self).0, 3, value),
    {
        self.0 = put_bit(self.0, 3, value);
    }

    /// DAC automute function enable
    ///
    /// * `false` = disabled
    /// * `true` = enabled
    pub fn automt(&self) -> (r: bool)
        ensures
            r == flag(self.0, 2),
    {
        get_bit(self.0, 2)
    }

    /// Sets [`Self::automt`]; every other bit of the word is kept.
    pub fn set_automt(&mut self, value: bool)
        ensures
            final(self).0 == with_flag(old(self).0, 2, value),
    {
        self.0 = put_bit(self.0, 2, value);
    }

    /// DAC right channel output polarity control
    ///
    /// * `false` = normal polarity
    /// * `true` = inverted polarity
    pub fn rdacpl(&self) -> (r: bool)
        ensures
            r == flag(self.0, 1),
    {
        get_bit(self.0, 1)
    }

    /// Sets [`Self::rdacpl`]; every other bit of the word is kept.
    pub fn set_rdacpl(&mut self, value: bool)
        ensures
            final(self).0 == with_flag(old(self).0, 1, value),
    {
        self.0 = put_bit(self.0, 1, value);
    }

    /// DAC left channel output polarity control
    ///
    /// * `false` = normal polarity
    /// * `true` = inverted polarity
    pub fn ldacpl(&self) -> (r: bool)
        ensures
            r == flag(self.0, 0),
    {
        get_bit(self.0, 0)
    }

    /// Sets [`Self::ldacpl`]; every other bit of the word is kept.
    pub fn set_ldacpl(&mut self, value: bool)
        ensures
            final(self).0 == with_flag(old(self).0, 0, value),
    {
        self.0 = put_bit(self.0, 0, value);
    }
}

/// Left DAC Volume register contents.
#[derive(Debug, Clone, Copy, PartialEq, Eq, Structural)]
pub struct LeftDACVolume(pub u16);

impl LeftDACVolume {
    /// DAC volume update bit feature. Write-only bit for synchronized L/R DAC
    /// changes
    ///
    /// * `false` = on R11 write, new R11 value stored in temporary register
    /// * `true` = on R11 write, new R11 and pending R12 values become active
    ///
    /// The bit is write-only: the device never reports it back, so it has
    /// no getter. Every other bit of the word is kept.
    pub fn set_ldacvu(&mut self, value: bool)
        ensures
            final(self).0 == with_flag(old(self).0, 8, value),
    {
        self.0 = put_bit(self.0, 8, value);
    }

    /// DAC left digital volume control (0dB default attenuation value).
    /// Expressed as an attenuation value in 0.5dB steps as follows:
    ///
    /// * `0` = digital mute condition
    /// * `1` = -127.0dB (highly attenuated)
    /// * `2` = -126.5dB attenuation
    /// * all intermediate 0.5 step values through to maximum
    /// * `254` = -0.5dB attenuation
    /// * `255` = 0.0dB attenuation (no attenuation
    pub fn ldacgain(&self) -> (r: u8)
        ensures
            r as u16 == field_value(self.0, 7, 0),
    {
        get_bits(self.0, 7, 0)
    }

    /// Sets [`Self::ldacgain`] to the low bits of `value` that fit the field;
    /// every other bit of the word is kept.
    pub fn set_ldacgain(&mut self, value: u8)
        ensures
            final(self).0 == with_field(old(self).0, 7, 0, value as u16),
    {
        self.0 = put_bits(self.0, 7, 0, value);
    }
}

/// Right DAC Volume register contents.
#[derive(Debug, Clone, Copy, PartialEq, Eq, Structural)]
pub struct RightDACVolume(pub u16);

impl RightDACVolume {
    /// DAC volume update bit feature. Write-only bit for synchronized L/R DAC
    /// changes
    ///
    /// * `false` = on R12 write, new R12 value stored in temporary register
    /// * `true` = on R12 write, new R12 and pending R11 values become active
    ///
    /// The bit is write-only: the device never reports it back, so it has
    /// no getter. Every other bit of the word is kept.
    pub fn set_rdacvu(&mut self, value: bool)
        ensures
            final(self).0 == with_flag(old(self).0, 8, value),
    {
        self.0 = put_bit(self.0, 8, value);
    }

    /// DAC right digital volume control (0dB default attenuation value).
    /// Expressed as an attenuation value in 0.5dB steps as follows:
    ///
    /// * `0` = digital mute condition
    /// * `1` = -127.0dB (highly attenuated)
    /// * `2` = -126.5dB attenuation
    /// * all intermediate 0.5 step values through to maximum
    /// * `254` = -0.5dB attenuation
    /// * `255` = 0.0dB attenuation (no attenuation
    pub fn rdacgain(&self) -> (r: u8)
        ensures
            r as u16 == field_value(self.0, 7, 0),
    {
        get_bits(self.0, 7, 0)
    }

    /// Sets [`Self::rdacgain`] to the low bits of `value` that fit the field;
    /// every other bit of the word is kept.
    pub fn set_rdacgain(&mut self, value: u8)
        ensures
            final(self).0 == with_field(old(self).0, 7, 0, value as u16),
    {
        self.0 = put_bits(self.0, 7, 0, value);
    }
}

/// Jack Detect 2 register contents.
#[derive(Debug, Clone, Copy, PartialEq, Eq, Structural)]
pub struct JackDetect2(pub u16);

/// ADC Control register contents.
#[derive(Debug, Clone, Copy, PartialEq, Eq, Structural)]
pub struct ADCControl(pub u16);

/// Left ADC Volume register contents.
#[derive(Debug, Clone, Copy, PartialEq, Eq, Structural)]
pub struct LeftADCVolume(pub u16);

/// Right ADC Volume register contents.
#[derive(Debug, Clone, Copy, PartialEq, Eq, Structural)]
pub struct RightADCVolume(pub u16);

/// EQ1-high cutoff register contents.
#[derive(Debug, Clone, Copy, PartialEq, Eq, Structural)]
pub struct EQ1HighCutoff(pub u16);

/// EQ2-peak 1 register contents.
#[derive(Debug, Clone, Copy, PartialEq, Eq, Structural)]
pub struct EQ2Peak1(pub u16);

/// EQ3-peak 2 register contents.
#[derive(Debug, Clone, Copy, PartialEq, Eq, Structural)]
pub struct EQ3Peak2(pub u16);

/// EQ4-peak 3 register contents.
#[derive(Debug, Clone, Copy, PartialEq, Eq, Structural)]
pub struct EQ4Peak3(pub u16);

/// EQ5-low cutoff register contents.
#[derive(Debug, Clone, Copy, PartialEq, Eq, Structural)]
pub struct EQ5LowCutoff(pub u16);

/// DAC Limiter 1 register contents.
#[derive(Debug, Clone, Copy, PartialEq, Eq, Structural)]
pub struct DACLimiter1(pub u16);

/// DAC Limiter 2 register contents.
#[derive(Debug, Clone, Copy, PartialEq, Eq, Structural)]
pub struct DACLimiter2(pub u16);

/// Notch Filter 1 register contents.
#[derive(Debug, Clone, Copy, PartialEq, Eq, Structural)]
pub struct NotchFilter1(pub u16);

/// Notch Filter 2 register contents.
#[derive(Debug, Clone, Copy, PartialEq, Eq, Structural)]
pub struct NotchFilter2(pub u16);

/// Notch Filter 3 register contents.
#[derive(Debug, Clone, Copy, PartialEq, Eq, Structural)]
pub struct NotchFilter3(pub u16);

/// Notch Filter 4 register contents.
#[derive(Debug, Clone, Copy, PartialEq, Eq, Structural)]
pub struct NotchFilter4(pub u16);

/// ALC Control 1 register contents.
#[derive(Debug, Clone, Copy, PartialEq, Eq, Structural)]
pub struct ALCControl1(pub u16);

/// ALC Control 2 register contents.
#[derive(Debug, Clone, Copy, PartialEq, Eq, Structural)]
pub struct ALCControl2(pub u16);

/// ALC Control 3 register contents.
#[derive(Debug, Clone, Copy, PartialEq, Eq, Structural)]
pub struct ALCControl3(pub u16);

/// Noise Gate register contents.
#[derive(Debug, Clone, Copy, PartialEq, Eq, Structural)]
pub struct NoiseGate(pub u16);

/// PLL N register contents.
#[derive(Debug, Clone, Copy, PartialEq, Eq, Structural)]
pub struct PllN(pub u16);

/// PLL K 1 register contents.
#[derive(Debug, Clone, Copy, PartialEq, Eq, Structural)]
pub struct PllK1(pub u16);

/// PLL K 2 register contents.
#[derive(Debug, Clone, Copy, PartialEq, Eq, Structural)]
pub struct PllK2(pub u16);

/// PLL K 3 register contents.
#[derive(Debug, Clone, Copy, PartialEq, Eq, Structural)]
pub struct PllK3(pub u16);

/// 3D control register contents.
#[derive(Debug, Clone, Copy, PartialEq, Eq, Structural)]
pub struct ThreeDControl(pub u16);

/// Right Speaker Submix register contents.
#[derive(Debug, Clone, Copy, PartialEq, Eq, Structural)]
pub struct RightSpeakerSubmix(pub u16);

/// Input Control register contents.
#[derive(Debug, Clone, Copy, PartialEq, Eq, Structural)]
pub struct InputControl(pub u16);

/// Left Input PGA Gain register contents.
#[derive(Debug, Clone, Copy, PartialEq, Eq, Structural)]
pub struct LeftInputPGAGain(pub u16);

/// Right Input PGA Gain register contents.
#[derive(Debug, Clone, Copy, PartialEq, Eq, Structural)]
pub struct RightInputPGAGain(pub u16);

/// Left ADC Boost register contents.
#[derive(Debug, Clone, Copy, PartialEq, Eq, Structural)]
pub struct LeftADCBoost(pub u16);

/// Right ADC Boost register contents.
#[derive(Debug, Clone, Copy, PartialEq, Eq, Structural)]
pub struct RightADCBoost(pub u16);

/// Output Control register contents.
#[derive(Debug, Clone, Copy, PartialEq, Eq, Structural)]
pub struct OutputControl(pub u16);

/// Left Mixer register contents.
#[derive(Debug, Clone, Copy, PartialEq, Eq, Structural)]
pub struct LeftMixer(pub u16);

/// Right Mixer register contents.
#[derive(Debug, Clone, Copy, PartialEq, Eq, Structural)]
pub struct RightMixer(pub u16);

/// LHP Volume register contents.
#[derive(Debug, Clone, Copy, PartialEq, Eq, Structural)]
pub struct LHPVolume(pub u16);

/// RHP Volume register contents.
#[derive(Debug, Clone, Copy, PartialEq, Eq, Structural)]
pub struct RHPVolume(pub u16);

/// LSPKOUT Volume register contents.
#[derive(Debug, Clone, Copy, PartialEq, Eq, Structural)]
pub struct LSPKOUTVolume(pub u16);

/// RSPKOUT Volume register contents.
#[derive(Debug, Clone, Copy, PartialEq, Eq, Structural)]
pub struct RSPKOUTVolume(pub u16);

/// AUX2 Mixer register contents.
#[derive(Debug, Clone, Copy, PartialEq, Eq, Structural)]
pub struct AUX2Mixer(pub u16);

/// AUX1 Mixer register contents.
#[derive(Debug, Clone, Copy, PartialEq, Eq, Structural)]
pub struct AUX1Mixer(pub u16);

/// Power Management register contents.
#[derive(Debug, Clone, Copy, PartialEq, Eq, Structural)]
pub struct PowerManagement(pub u16);

/// Left Time Slot register contents.
#[derive(Debug, Clone, Copy, PartialEq, Eq, Structural)]
pub struct LeftTimeSlot(pub u16);

/// Misc register contents.
#[derive(Debug, Clone, Copy, PartialEq, Eq, Structural)]
pub struct Misc(pub u16);

/// Right Time Slot register contents.
#[derive(Debug, Clone, Copy, PartialEq, Eq, Structural)]
pub struct RightTimeSlot(pub u16);

/// Device Revision # register contents.
#[derive(Debug, Clone, Copy, PartialEq, Eq, Structural)]
pub struct DeviceRevisionNo(pub u16);

/// Device ID register contents.
#[derive(Debug, Clone, Copy, PartialEq, Eq, Structural)]
pub struct DeviceId(pub u16);

/// ALC Enhancements 1 register contents.
#[derive(Debug, Clone, Copy, PartialEq, Eq, Structural)]
pub struct AlcEnhancements1(pub u16);

/// ALC Enhancements 2 register contents.
#[derive(Debug, Clone, Copy, PartialEq, Eq, Structural)]
pub struct AlcEnhancements2(pub u16);

/// Misc Controls register contents.
#[derive(Debug, Clone, Copy, PartialEq, Eq, Structural)]
pub struct MiscControls(pub u16);

/// Tie-Off Overrides register contents.
#[derive(Debug, Clone, Copy, PartialEq, Eq, Structural)]
pub struct TieOffOverrides(pub u16);

/// Power/Tie-off Ctrl register contents.
#[derive(Debug, Clone, Copy, PartialEq, Eq, Structural)]
pub struct PowerTieOffCtrl(pub u16);

/// P2P Detector Read register contents.
#[derive(Debug, Clone, Copy, PartialEq, Eq, Structural)]
pub struct P2PDetectorRead(pub u16);

/// Peak Detector Read register contents.
#[derive(Debug, Clone, Copy, PartialEq, Eq, Structural)]
pub struct PeakDetectorRead(pub u16);

/// Control and Status register contents.
#[derive(Debug, Clone, Copy, PartialEq, Eq, Structural)]
pub struct ControlAndStatus(pub u16);

/// Output tie-off control register contents.
#[derive(Debug, Clone, Copy, PartialEq, Eq, Structural)]
pub struct OutputTieOffControl(pub u16);


/// Writing a companding mode into either two-bit companding field (bits 4..=3
/// or 2..=1) and decoding that field gives the mode back.
pub proof fn lemma_companding_field_round_trip(word: u16, msb: u16, lsb: u16, mode: CompandingMode)
    requires
        (msb == 4 && lsb == 3) || (msb == 2 && lsb == 1),
    ensures
        CompandingMode::spec_from_bits(
            field_value(with_field(word, msb, lsb, mode.spec_bits() as u16), msb, lsb) as u8,
        ) == Ok::<CompandingMode, ReservedFieldValue>(mode),
{
    lemma_companding_decode_total(0, mode);
    assert(field_max(msb, lsb) == 3) by (bit_vector)
        requires
            (msb == 4 && lsb == 3) || (msb == 2 && lsb == 1),
    ;
    lemma_field_round_trip(word, msb, lsb, mode.spec_bits() as u16);
}

/// Writing a GPIO1 function into its field and decoding the field gives the
/// function back.
pub proof fn lemma_gpio1sel_round_trip(word: u16, sel: Gpio1Selection)
    ensures
        Gpio1Selection::spec_from_bits(
            field_value(with_field(word, 2, 0, sel.spec_bits() as u16), 2, 0) as u8,
        ) == Ok::<Gpio1Selection, ReservedFieldValue>(sel),
{
    lemma_gpio1_decode_total(0, sel);
    assert(field_max(2, 0) == 7) by (bit_vector);
    lemma_field_round_trip(word, 2, 0, sel.spec_bits() as u16);
}

/// Writing only the DAC companding mode of a Companding word keeps the 8-bit
/// enable, the ADC companding mode, the passthrough bit and every undefined
/// bit as they were.
pub proof fn lemma_dac_companding_keeps_others(word: u16, mode: CompandingMode)
    ensures
        flag(with_field(word, 4, 3, mode.spec_bits() as u16), 5) == flag(word, 5),
        field_value(with_field(word, 4, 3, mode.spec_bits() as u16), 2, 1) == field_value(word, 2, 1),
        flag(with_field(word, 4, 3, mode.spec_bits() as u16), 0) == flag(word, 0),
        forall|pos: u16|
            pos < 16 && (pos < 3 || 4 < pos) ==> #[trigger] flag(
                with_field(word, 4, 3, mode.spec_bits() as u16),
                pos,
            ) == flag(word, pos),
{
    let v = mode.spec_bits() as u16;
    lemma_disjoint_fields(word, 4, 3, v, 2, 1);
    lemma_field_non_interference(word, 4, 3, v, 5);
    lemma_field_non_interference(word, 4, 3, v, 0);
    assert forall|pos: u16| pos < 16 && (pos < 3 || 4 < pos) implies #[trigger] flag(
        with_field(word, 4, 3, v),
        pos,
    ) == flag(word, pos) by {
        lemma_field_non_interference(word, 4, 3, v, pos);
    }
}

} // verus!
