//! The synchronised update of the paired DAC volume registers.
//!
//! Writing a gain to the Left or Right DAC Volume register stores it; the
//! gain takes effect only when a write to either register of the pair has its
//! volume-update bit set, and that write applies the stored gains of both
//! channels at once. To change both gains together, write one register with
//! the bit clear and then the other with the bit set.
use vstd::prelude::*;

use crate::bits::{field_value, flag, get_bit, get_bits};
use crate::codec::{LeftDACVolume, RightDACVolume};

verus! {

/// The DAC gains of both channels: those in effect, and those last written.
#[derive(Debug, Clone, Copy, PartialEq, Eq, Structural)]
pub struct DacVolumeLatch {
    /// The left gain in effect.
    pub left_active: u8,
    /// The right gain in effect.
    pub right_active: u8,
    /// The left gain last written to the Left DAC Volume register.
    pub left_staged: u8,
    /// The right gain last written to the Right DAC Volume register.
    pub right_staged: u8,
}

impl DacVolumeLatch {
    /// The state after `word` is written to the Left DAC Volume register.
    pub open spec fn after_left_write(self, word: u16) -> DacVolumeLatch {
        let gain = field_value(word, 7, 0) as u8;
        if flag(word, 8) {
            DacVolumeLatch { left_active: gain, right_active: self.right_staged, left_staged: gain, ..self }
        } else {
            DacVolumeLatch { left_staged: gain, ..self }
        }
    }

    /// The state after `word` is written to the Right DAC Volume register.
    pub open spec fn after_right_write(self, word: u16) -> DacVolumeLatch {
        let gain = field_value(word, 7, 0) as u8;
        if flag(word, 8) {
            DacVolumeLatch { left_active: self.left_staged, right_active: gain, right_staged: gain, ..self }
        } else {
            DacVolumeLatch { right_staged: gain, ..self }
        }
    }

    /// A pair whose gains are in effect, with nothing pending.
    pub fn new(left: u8, right: u8) -> (r: DacVolumeLatch)
        ensures
            r == (DacVolumeLatch { left_active: left, right_active: right, left_staged: left, right_staged: right }),
    {
        DacVolumeLatch { left_active: left, right_active: right, left_staged: left, right_staged: right }
    }

    /// Applies a write of `word` to the Left DAC Volume register.
    pub fn write_left(&mut self, word: LeftDACVolume)
        ensures
            *final(self) == old(self).after_left_write(word.0),
    {
        let gain = get_bits(word.0, 7, 0);
        if get_bit(word.0, 8) {
            self.left_active = gain;
            self.right_active = self.right_staged;
        }
        self.left_staged = gain;
    }

    /// Applies a write of `word` to the Right DAC Volume register.
    pub fn write_right(&mut self, word: RightDACVolume)
        ensures
            *final(self) == old(self).after_right_write(word.0),
    {
        let gain = get_bits(word.0, 7, 0);
        if get_bit(word.0, 8) {
            self.right_active = gain;
            self.left_active = self.left_staged;
        }
        self.right_staged = gain;
    }
}

/// Writing the left gain with the update bit clear stages it and changes no
/// gain in effect; writing the right gain afterwards with the update bit set
/// puts both new gains into effect together.
pub proof fn lemma_paired_commit(s: DacVolumeLatch, left: u16, right: u16)
    requires
        !flag(left, 8),
        flag(right, 8),
    ensures
        s.after_left_write(left).left_active == s.left_active,
        s.after_left_write(left).right_active == s.right_active,
        s.after_left_write(left).left_staged == field_value(left, 7, 0) as u8,
        s.after_left_write(left).after_right_write(right).left_active == field_value(left, 7, 0) as u8,
        s.after_left_write(left).after_right_write(right).right_active == field_value(right, 7, 0) as u8,
{
}

} // verus!
