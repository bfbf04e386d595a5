use nau88c22::codec::{
    AudioInterface, ClockControl1, ClockControl2, Companding, DACControl, JackDetect1, LeftDACVolume,
    PowerManagement1, PowerManagement2, PowerManagement3, RightDACVolume, GPIO,
};
use nau88c22::latch::DacVolumeLatch;
use nau88c22::transaction::{modify, RegisterWrite, TransportError};
use nau88c22::{CompandingMode, Gpio1Selection, Register, ReservedFieldValue, UnknownRegisterAddress};

const ALL: [(Register, u8); 67] = [
    (Register::SoftwareReset, 0x00),
    (Register::PowerManagement1, 0x01),
    (Register::PowerManagement2, 0x02),
    (Register::PowerManagement3, 0x03),
    (Register::AudioInterface, 0x04),
    (Register::Companding, 0x05),
    (Register::ClockControl1, 0x06),
    (Register::ClockControl2, 0x07),
    (Register::GPIO, 0x08),
    (Register::JackDetect1, 0x09),
    (Register::DACControl, 0x0A),
    (Register::LeftDACVolume, 0x0B),
    (Register::RightDACVolume, 0x0C),
    (Register::JackDetect2, 0x0D),
    (Register::ADCControl, 0x0E),
    (Register::LeftADCVolume, 0x0F),
    (Register::RightADCVolume, 0x10),
    (Register::EQ1HighCutoff, 0x12),
    (Register::EQ2Peak1, 0x13),
    (Register::EQ3Peak2, 0x14),
    (Register::EQ4Peak3, 0x15),
    (Register::EQ5LowCutoff, 0x16),
    (Register::DACLimiter1, 0x18),
    (Register::DACLimiter2, 0x19),
    (Register::NotchFilter1, 0x1B),
    (Register::NotchFilter2, 0x1C),
    (Register::NotchFilter3, 0x1D),
    (Register::NotchFilter4, 0x1E),
    (Register::ALCControl1, 0x20),
    (Register::ALCControl2, 0x21),
    (Register::ALCControl3, 0x22),
    (Register::NoiseGate, 0x23),
    (Register::PllN, 0x24),
    (Register::PllK1, 0x25),
    (Register::PllK2, 0x26),
    (Register::PllK3, 0x27),
    (Register::ThreeDControl, 0x29),
    (Register::RightSpeakerSubmix, 0x2B),
    (Register::InputControl, 0x2C),
    (Register::LeftInputPGAGain, 0x2D),
    (Register::RightInputPGAGain, 0x2E),
    (Register::LeftADCBoost, 0x2F),
    (Register::RightADCBoost, 0x30),
    (Register::OutputControl, 0x31),
    (Register::LeftMixer, 0x32),
    (Register::RightMixer, 0x33),
    (Register::LHPVolume, 0x34),
    (Register::RHPVolume, 0x35),
    (Register::LSPKOUTVolume, 0x36),
    (Register::RSPKOUTVolume, 0x37),
    (Register::AUX2Mixer, 0x38),
    (Register::AUX1Mixer, 0x39),
    (Register::PowerManagement, 0x3A),
    (Register::LeftTimeSlot, 0x3B),
    (Register::Misc, 0x3C),
    (Register::RightTimeSlot, 0x3D),
    (Register::DeviceRevisionNo, 0x3E),
    (Register::DeviceId, 0x3F),
    (Register::AlcEnhancements1, 0x46),
    (Register::AlcEnhancements2, 0x47),
    (Register::MiscControls, 0x49),
    (Register::TieOffOverrides, 0x4A),
    (Register::PowerTieOffCtrl, 0x4B),
    (Register::P2PDetectorRead, 0x4C),
    (Register::PeakDetectorRead, 0x4D),
    (Register::ControlAndStatus, 0x4E),
    (Register::OutputTieOffControl, 0x4F),
];

#[test]
fn register_addresses_match_datasheet() {
    for (reg, addr) in ALL {
        assert_eq!(reg.address(), addr);
        assert_eq!(Register::from_address(addr), Ok(reg));
    }
}

#[test]
fn register_addresses_unique_and_in_range() {
    for (i, (a, _)) in ALL.iter().enumerate() {
        assert!(a.address() <= 0x4F);
        for (b, _) in ALL.iter().skip(i + 1) {
            assert_ne!(a.address(), b.address());
        }
    }
}

#[test]
fn unknown_addresses_are_rejected() {
    let mut known = 0;
    for addr in 0..=255u8 {
        match Register::from_address(addr) {
            Ok(reg) => {
                assert_eq!(reg.address(), addr);
                known += 1;
            }
            Err(e) => {
                assert_eq!(e, UnknownRegisterAddress(addr));
                assert!(ALL.iter().all(|(_, a)| *a != addr));
            }
        }
    }
    assert_eq!(known, 67);
    for addr in [0x11u8, 0x17, 0x1A, 0x1F, 0x28, 0x2A, 0x40, 0x45, 0x48, 0x50, 0x7F, 0xFF] {
        assert_eq!(Register::from_address(addr), Err(UnknownRegisterAddress(addr)));
    }
}

#[test]
fn raw_field_round_trip_every_word() {
    for w in 0..=u16::MAX {
        for v in 0..4u8 {
            let mut p = PowerManagement1(w);
            p.set_refimp(v);
            assert_eq!(p.refimp(), v);
            assert_eq!(p.0 & !0b11, w & !0b11);
        }
        let mut d = LeftDACVolume(w);
        d.set_ldacgain(0xA5);
        assert_eq!(d.ldacgain(), 0xA5);
        assert_eq!(d.0 & !0xFF, w & !0xFF);
    }
}

#[test]
fn flag_round_trip_every_word() {
    for w in 0..=u16::MAX {
        for v in [false, true] {
            let mut p = PowerManagement2(w);
            p.set_sleep(v);
            assert_eq!(p.sleep(), v);
            assert_eq!(p.0 & !(1 << 6), w & !(1 << 6));
        }
    }
}

#[test]
fn setting_a_field_leaves_other_fields() {
    let mut a = AudioInterface(0x050);
    assert_eq!(a.wlen(), 2);
    assert_eq!(a.aifmt(), 2);
    a.set_mono(true);
    a.set_bclkp(true);
    assert_eq!(a.wlen(), 2);
    assert_eq!(a.aifmt(), 2);
    assert_eq!(a.0, 0x151);
    a.set_wlen(0);
    assert_eq!(a.0, 0x111);
    assert_eq!(a.aifmt(), 2);
    assert!(a.mono());
    assert!(a.bclkp());
    assert!(!a.lrp());
}

#[test]
fn oversized_raw_value_keeps_low_bits() {
    let mut c = ClockControl1(0x140);
    c.set_bclksel(0xFF);
    assert_eq!(c.bclksel(), 7);
    assert_eq!(c.mclksel(), 2);
    assert!(c.clkm());
    assert_eq!(c.0, 0x15C);
}

#[test]
fn getters_read_datasheet_positions() {
    let p = PowerManagement1(0x1AB);
    assert!(p.dcbufen());
    assert!(p.aux1mxen());
    assert!(!p.aux2mxen());
    assert!(p.pllen());
    assert!(!p.micbiasen());
    assert!(p.abiasen());
    assert!(!p.iobufen());
    assert_eq!(p.refimp(), 3);

    let p3 = PowerManagement3(0x00D);
    assert!(p3.rmixen());
    assert!(p3.lmixen());
    assert!(!p3.rdacen());
    assert!(p3.ldacen());

    let c2 = ClockControl2(0x10A);
    assert!(c2.fourwirecie());
    assert_eq!(c2.smplr(), 5);
    assert!(!c2.sclken());

    let j = JackDetect1(0x1D0);
    assert_eq!(j.jckmiden(), 3);
    assert!(j.jacden());
    assert_eq!(j.jckdio(), 1);

    let d = DACControl(0x04C);
    assert!(d.softmt());
    assert!(d.dacos());
    assert!(d.automt());
    assert!(!d.rdacpl());
    assert!(!d.ldacpl());

    let r = RightDACVolume(0x1B4);
    assert_eq!(r.rdacgain(), 0xB4);
}

#[test]
fn companding_decodes_every_pattern() {
    assert_eq!(CompandingMode::from_bits(0), Ok(CompandingMode::Off));
    assert_eq!(CompandingMode::from_bits(1), Err(ReservedFieldValue(1)));
    assert_eq!(CompandingMode::from_bits(2), Ok(CompandingMode::ULaw));
    assert_eq!(CompandingMode::from_bits(3), Ok(CompandingMode::ALaw));
    assert_eq!(CompandingMode::from_bits(4), Err(ReservedFieldValue(4)));
    for m in [CompandingMode::Off, CompandingMode::ULaw, CompandingMode::ALaw] {
        assert_eq!(CompandingMode::from_bits(m.bits()), Ok(m));
    }
    assert_eq!(Companding(0b00010).adccm(), Err(ReservedFieldValue(1)));
    assert_eq!(Companding(0b01000).daccm(), Err(ReservedFieldValue(1)));
    assert_eq!(Companding(0b11110).daccm(), Ok(CompandingMode::ALaw));
    assert_eq!(Companding(0b11110).adccm(), Ok(CompandingMode::ALaw));
}

#[test]
fn gpio1_selection_decodes_every_pattern() {
    let expected = [
        Ok(Gpio1Selection::Input),
        Err(ReservedFieldValue(1)),
        Ok(Gpio1Selection::TemperatureOk),
        Ok(Gpio1Selection::DacIsAutomute),
        Ok(Gpio1Selection::PllClock),
        Ok(Gpio1Selection::PllLocked),
        Ok(Gpio1Selection::LogicHigh),
        Ok(Gpio1Selection::LogicLow),
    ];
    for raw in 0..8u8 {
        assert_eq!(Gpio1Selection::from_bits(raw), expected[raw as usize]);
        assert_eq!(GPIO(0x1F8 | raw as u16).gpio1sel(), expected[raw as usize]);
    }
    assert_eq!(Gpio1Selection::from_bits(8), Err(ReservedFieldValue(8)));
    let mut g = GPIO(0x03F);
    g.set_gpio1sel(Gpio1Selection::TemperatureOk);
    assert_eq!(g.0, 0x03A);
    assert_eq!(g.gpio1sel(), Ok(Gpio1Selection::TemperatureOk));
    assert_eq!(g.gpio1pll(), 3);
    assert!(g.gpio1pl());
}

#[test]
fn enumerated_field_round_trip_every_word() {
    let modes = [CompandingMode::Off, CompandingMode::ULaw, CompandingMode::ALaw];
    for w in 0..=0x3FFu16 {
        for m in modes {
            let mut c = Companding(w);
            c.set_adccm(m);
            assert_eq!(c.adccm(), Ok(m));
            assert_eq!(c.0 & !0b110, w & !0b110);
            let mut c = Companding(w);
            c.set_daccm(m);
            assert_eq!(c.daccm(), Ok(m));
            assert_eq!(c.0 & !0b11000, w & !0b11000);
        }
    }
}

#[test]
fn modify_dac_companding_keeps_other_fields() {
    // 8-bit enable on, ADC and DAC companding both A-law, passthrough on.
    let mut c = Companding(0);
    c.set_cmb8(true);
    c.set_adccm(CompandingMode::ALaw);
    c.set_daccm(CompandingMode::ALaw);
    c.set_addap(true);
    let before = c;
    c.set_daccm(CompandingMode::ULaw);
    assert_eq!(c.daccm(), Ok(CompandingMode::ULaw));
    assert!(c.cmb8());
    assert_eq!(c.adccm(), before.adccm());
    assert_eq!(c.adccm(), Ok(CompandingMode::ALaw));
    assert!(c.addap());
    assert_eq!(c.0, 0b110111);
}

#[test]
fn paired_dac_volume_commits_together() {
    let mut latch = DacVolumeLatch::new(100, 120);

    let mut left = LeftDACVolume(0);
    left.set_ldacgain(200);
    left.set_ldacvu(false);
    latch.write_left(left);
    assert_eq!(latch.left_active, 100);
    assert_eq!(latch.right_active, 120);
    assert_eq!(latch.left_staged, 200);

    let mut right = RightDACVolume(0);
    right.set_rdacgain(180);
    right.set_rdacvu(true);
    assert_eq!(right.0, 0x100 | 180);
    latch.write_right(right);
    assert_eq!(latch.left_active, 200);
    assert_eq!(latch.right_active, 180);
    assert_eq!(latch.right_staged, 180);
}

#[test]
fn dac_volume_without_update_bit_never_applies() {
    let mut latch = DacVolumeLatch::new(10, 20);
    latch.write_right(RightDACVolume(55));
    latch.write_left(LeftDACVolume(66));
    assert_eq!(latch, DacVolumeLatch { left_active: 10, right_active: 20, left_staged: 66, right_staged: 55 });
    latch.write_left(LeftDACVolume(0x100 | 77));
    assert_eq!(latch, DacVolumeLatch { left_active: 77, right_active: 55, left_staged: 77, right_staged: 55 });
}

#[test]
fn update_bit_is_separate_from_gain() {
    let mut left = LeftDACVolume(0x0C8);
    left.set_ldacvu(true);
    assert_eq!(left.0, 0x1C8);
    assert_eq!(left.ldacgain(), 200);
    left.set_ldacvu(false);
    assert_eq!(left.0, 0x0C8);
}

#[test]
fn modify_applies_edit_to_word_read() {
    let r: Result<RegisterWrite, TransportError<&str>> = modify(Register::Companding, Ok(0b101110), |w| {
        let mut c = Companding(w);
        c.set_daccm(CompandingMode::ULaw);
        c.0
    });
    assert_eq!(r, Ok(RegisterWrite { register: Register::Companding, word: 0b110110 }));
}

#[test]
fn modify_after_failed_read_issues_no_write() {
    let r = modify(Register::PowerManagement2, Err("bus fault"), |w: u16| w | 1);
    assert_eq!(r, Err(TransportError("bus fault")));
}

#[test]
fn power_management2_fields() {
    let mut p = PowerManagement2(0);
    p.set_rhpen(true);
    p.set_lhpen(true);
    p.set_rbsten(true);
    p.set_lbsten(true);
    p.set_rpgaen(true);
    p.set_lpgaen(true);
    p.set_radcen(true);
    p.set_ladcen(true);
    assert_eq!(p.0, 0x1BF);
    assert!(!p.sleep());
    assert!(p.rhpen() && p.lhpen() && p.rbsten() && p.lbsten());
    assert!(p.rpgaen() && p.lpgaen() && p.radcen() && p.ladcen());
}
