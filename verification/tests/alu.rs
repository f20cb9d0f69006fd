use rusty_sms::vm::cpu::alu;
use rusty_sms::vm::cpu::flags::Flag;
use rusty_sms::vm::cpu::operation::Operation;
use rusty_sms::vm::cpu::state::State;

#[test]
fn alu_nibbles() {
    for iteration in 0..256 {
        let i = iteration as u8;
        let r = alu::add_octets(i, 1);
        assert_eq!(i.wrapping_add(1), r.value, "At {}.", i);
        assert_eq!(i == 0xFF, r.carry, "At {}.", i);
        assert_eq!((i & 0x0F) == 0x0F, r.half_carry, "At {}.", i);
        assert_eq!(i == 0x7F, r.overflow, "At {}.", i);
    }
}

#[test]
fn alu_words() {
    for iteration in 0..65536 {
        let i = iteration as u16;
        let r = alu::add_words(i, 1);
        assert_eq!(i.wrapping_add(1), r.value, "At {}.", i);
        assert_eq!(i == 0xFFFF, r.carry, "At {}.", i);
        assert_eq!((i & 0x0FFF) == 0x0FFF, r.half_carry, "At {}.", i);
        assert_eq!(i == 0x7FFF, r.overflow, "At {}.", i);
    }
}

#[test]
fn add_octets_matches_the_wide_sum_for_every_pair() {
    for a in 0..256u32 {
        for b in 0..256u32 {
            let r = alu::add_octets(a as u8, b as u8);
            assert_eq!(((a + b) % 256) as u8, r.value);
            assert_eq!(a + b > 0xFF, r.carry);
            assert_eq!((a & 0x0F) + (b & 0x0F) > 0x0F, r.half_carry);
            let signed = (a as u8 as i8 as i32) + (b as u8 as i8 as i32);
            assert_eq!(signed < -128 || signed > 127, r.overflow, "{} + {}", a, b);
            let same_sign = (a >= 0x80) == (b >= 0x80);
            assert_eq!(same_sign && ((r.value >= 0x80) != (a >= 0x80)), r.overflow);
        }
    }
}

#[test]
fn add_octets_exact_values() {
    let r = alu::add_octets(0x7F, 0x01);
    assert_eq!((r.value, r.carry, r.half_carry, r.overflow), (0x80, false, true, true));
    let r = alu::add_octets(0x80, 0x80);
    assert_eq!((r.value, r.carry, r.half_carry, r.overflow), (0x00, true, false, true));
    let r = alu::add_octets(0xFF, 0xFF);
    assert_eq!((r.value, r.carry, r.half_carry, r.overflow), (0xFE, true, true, false));
    let r = alu::add_octets(0x12, 0x34);
    assert_eq!((r.value, r.carry, r.half_carry, r.overflow), (0x46, false, false, false));
}

#[test]
fn add_words_exact_values() {
    let r = alu::add_words(0x0FFF, 0x0001);
    assert_eq!((r.value, r.carry, r.half_carry, r.overflow), (0x1000, false, true, false));
    let r = alu::add_words(0x7FFF, 0x0001);
    assert_eq!((r.value, r.carry, r.half_carry, r.overflow), (0x8000, false, true, true));
    let r = alu::add_words(0xFFFF, 0x0001);
    assert_eq!((r.value, r.carry, r.half_carry, r.overflow), (0x0000, true, true, false));
    let r = alu::add_words(0x8000, 0x8000);
    assert_eq!((r.value, r.carry, r.half_carry, r.overflow), (0x0000, true, false, true));
    let r = alu::add_words(0x00FF, 0x0001);
    assert_eq!((r.value, r.carry, r.half_carry, r.overflow), (0x0100, false, false, false));
}

#[test]
fn add_words_matches_the_wide_sum_on_a_grid() {
    let mut a: u32 = 0;
    while a < 0x1_0000 {
        let mut b: u32 = 0;
        while b < 0x1_0000 {
            let r = alu::add_words(a as u16, b as u16);
            assert_eq!(((a + b) % 0x1_0000) as u16, r.value);
            assert_eq!(a + b > 0xFFFF, r.carry);
            assert_eq!((a & 0x0FFF) + (b & 0x0FFF) > 0x0FFF, r.half_carry);
            let signed = (a as u16 as i16 as i32) + (b as u16 as i16 as i32);
            assert_eq!(signed < -32768 || signed > 32767, r.overflow);
            b += 251;
        }
        a += 257;
    }
}

#[test]
fn parity_is_even_popcount() {
    for x in 0..256u32 {
        let x = x as u8;
        assert_eq!(x.count_ones() % 2 == 0, alu::parity(x), "At {}.", x);
    }
    assert!(alu::parity(0x00));
    assert!(!alu::parity(0x01));
    assert!(alu::parity(0x03));
    assert!(alu::parity(0xFF));
    assert!(!alu::parity(0x80));
}

#[test]
fn octets_and_words_round_trip() {
    for h in 0..256u32 {
        for l in 0..256u32 {
            let pair = (h as u8, l as u8);
            assert_eq!(pair, alu::get_octets(alu::get_word(pair)));
        }
    }
    for w in 0..65536u32 {
        assert_eq!(w as u16, alu::get_word(alu::get_octets(w as u16)));
    }
    assert_eq!((0x12, 0x34), alu::get_octets(0x1234));
    assert_eq!(0xABCD, alu::get_word((0xAB, 0xCD)));
}

#[test]
fn get_bit_is_one_or_zero() {
    assert_eq!(1, alu::get_bit(true));
    assert_eq!(0, alu::get_bit(false));
}

#[test]
fn negate_is_the_twos_complement() {
    assert_eq!(0x00, alu::negate(0x00));
    assert_eq!(0xFF, alu::negate(0x01));
    assert_eq!(0x80, alu::negate(0x80));
    assert_eq!(0x01, alu::negate(0xFF));
    assert_eq!(0x0000, alu::negate_word(0x0000));
    assert_eq!(0xFFFF, alu::negate_word(0x0001));
    assert_eq!(0x0001, alu::negate_word(0xFFFF));
    for x in 0..256u32 {
        assert_eq!(0, alu::add_octets(x as u8, alu::negate(x as u8)).value);
    }
}

#[test]
fn complement_inverts_every_bit() {
    assert_eq!(0xFF, alu::complement(0x00));
    assert_eq!(0x00, alu::complement(0xFF));
    assert_eq!(0xA5, alu::complement(0x5A));
}

#[test]
fn sign_extend_copies_bit_seven() {
    assert_eq!(0x0000, alu::sign_extend(0x00));
    assert_eq!(0x007F, alu::sign_extend(0x7F));
    assert_eq!(0xFF80, alu::sign_extend(0x80));
    assert_eq!(0xFFFE, alu::sign_extend(0xFE));
    assert_eq!(0xFFFF, alu::sign_extend(0xFF));
    for x in 0..256u32 {
        assert_eq!(x as u8 as i8 as i16 as u16, alu::sign_extend(x as u8));
    }
}

#[test]
fn operation_negates_only_for_a_subtraction() {
    assert_eq!(0x05, Operation::Add.maybe_negate(0x05));
    assert_eq!(0xFB, Operation::Subtract.maybe_negate(0x05));
    assert_eq!(0x0005, Operation::Add.maybe_negate_word(0x0005));
    assert_eq!(0xFFFB, Operation::Subtract.maybe_negate_word(0x0005));
}

const FLAGS: [(Flag, u8); 8] = [
    (Flag::Carry, 0x01),
    (Flag::AddSubtract, 0x02),
    (Flag::ParityOverflow, 0x04),
    (Flag::Unused1, 0x08),
    (Flag::HalfCarry, 0x10),
    (Flag::Unused2, 0x20),
    (Flag::Zero, 0x40),
    (Flag::Sign, 0x80),
];

#[test]
fn flags_have_their_bits() {
    for (flag, mask) in FLAGS {
        assert_eq!(mask, flag.mask());
        let mut state = State::new();
        flag.set(&mut state, true);
        assert_eq!(mask, state.registers.af.1);
        assert!(flag.get(&state));
        assert_eq!(1, flag.get_bit(&state));
        flag.set(&mut state, false);
        assert_eq!(0, state.registers.af.1);
        assert!(!flag.get(&state));
        assert_eq!(0, flag.get_bit(&state));
    }
}

#[test]
fn setting_a_flag_leaves_the_others() {
    for start in [0x00u8, 0xFF, 0xA5, 0x5A] {
        for (flag, mask) in FLAGS {
            for value in [false, true] {
                let mut state = State::new();
                state.registers.af = (0x77, start);
                flag.set(&mut state, value);
                let expected = if value { start | mask } else { start & !mask };
                assert_eq!(expected, state.registers.af.1);
                assert_eq!(0x77, state.registers.af.0);
                for (other, _) in FLAGS {
                    if other != flag {
                        let mut before = State::new();
                        before.registers.af.1 = start;
                        assert_eq!(other.get(&before), other.get(&state));
                    }
                }
            }
        }
    }
}

#[test]
fn set_values_writes_only_affected_flags_with_a_value() {
    let mut state = State::new();
    state.registers.af.1 = 0b0010_1000;
    Flag::set_values(
        &mut state,
        &[Flag::Zero, Flag::Carry, Flag::Unused1],
        &[(Flag::Zero, true), (Flag::Sign, true), (Flag::Carry, false), (Flag::Carry, true)],
    );
    // Zero is affected and set; Sign has a value but is not affected; Carry
    // takes its last value; Unused1 is affected but has no value.
    assert_eq!(0b0110_1001, state.registers.af.1);
    let mut state = State::new();
    state.registers.af.1 = 0xFF;
    Flag::set_values(&mut state, &[], &[(Flag::Zero, false)]);
    assert_eq!(0xFF, state.registers.af.1);
}
