//! The named bits of the flag octet.

use crate::vm::cpu::state::State;
use vstd::prelude::*;

verus! {

/// One bit of the flag octet F.
#[derive(Copy, Clone, Debug, PartialEq, Eq, Hash, Structural)]
pub enum Flag {
    /// Bit 0: carry.
    Carry,
    /// Bit 1: the last operation was a subtraction.
    AddSubtract,
    /// Bit 2: parity after a bitwise operation, overflow after an arithmetic one.
    ParityOverflow,
    /// Bit 3: unused.
    Unused1,
    /// Bit 4: carry out of the low nibble.
    HalfCarry,
    /// Bit 5: unused.
    Unused2,
    /// Bit 6: the result was zero.
    Zero,
    /// Bit 7: the sign bit of the result.
    Sign,
}

/// The value that a list of (flag, value) entries gives to a flag: that of
/// the last entry for it, if there is one.
pub open spec fn lookup(values: Seq<(Flag, bool)>, flag: Flag) -> Option<bool>
    decreases values.len(),
{
    if values.len() == 0 {
        None
    } else if values.last().0 == flag {
        Some(values.last().1)
    } else {
        lookup(values.drop_last(), flag)
    }
}

/// The flag octet after each flag of `affected`, in turn, took the value that
/// `values` gives it. A flag without a value, or outside `affected`, stays.
pub open spec fn updated(flags: u8, affected: Seq<Flag>, values: Seq<(Flag, bool)>) -> u8
    decreases affected.len(),
{
    if affected.len() == 0 {
        flags
    } else {
        let before = updated(flags, affected.drop_last(), values);
        match lookup(values, affected.last()) {
            Some(value) => affected.last().put(before, value),
            None => before,
        }
    }
}

/// Setting or clearing one bit of an octet leaves the seven others as they
/// were, and the bit itself reads back as written.
proof fn lemma_single_bits(flags: u8, mask: u8, other: u8)
    by (bit_vector)
    requires
        mask == 1 || mask == 2 || mask == 4 || mask == 8 || mask == 16 || mask == 32 || mask == 64
            || mask == 128,
        other == 1 || other == 2 || other == 4 || other == 8 || other == 16 || other == 32 || other
            == 64 || other == 128,
    ensures
        (flags | mask) & mask != 0,
        (flags & !mask) & mask == 0,
        other != mask ==> (flags | mask) & other == flags & other,
        other != mask ==> (flags & !mask) & other == flags & other,
        flags & mask == 0 || flags & mask == mask,
{
}

/// Two octets with the same eight bits are equal.
proof fn lemma_bits_determine_octet(a: u8, b: u8)
    by (bit_vector)
    requires
        a & 1 == b & 1,
        a & 2 == b & 2,
        a & 4 == b & 4,
        a & 8 == b & 8,
        a & 16 == b & 16,
        a & 32 == b & 32,
        a & 64 == b & 64,
        a & 128 == b & 128,
    ensures
        a == b,
{
}

impl Flag {
    /// The octet with only this flag's bit set.
    pub open spec fn mask_of(self) -> u8 {
        match self {
            Flag::Carry => 1,
            Flag::AddSubtract => 2,
            Flag::ParityOverflow => 4,
            Flag::Unused1 => 8,
            Flag::HalfCarry => 16,
            Flag::Unused2 => 32,
            Flag::Zero => 64,
            Flag::Sign => 128,
        }
    }

    /// Whether this flag is set in a flag octet.
    pub open spec fn is_set(self, flags: u8) -> bool {
        flags & self.mask_of() != 0
    }

    /// The flag octet with this flag set or cleared.
    pub open spec fn put(self, flags: u8, value: bool) -> u8 {
        if value {
            flags | self.mask_of()
        } else {
            flags & !self.mask_of()
        }
    }

    /// The octet with only this flag's bit set.
    pub fn mask(self) -> (mask: u8)
        ensures
            mask == self.mask_of(),
    {
        match self {
            Flag::Carry => 1,
            Flag::AddSubtract => 2,
            Flag::ParityOverflow => 4,
            Flag::Unused1 => 8,
            Flag::HalfCarry => 16,
            Flag::Unused2 => 32,
            Flag::Zero => 64,
            Flag::Sign => 128,
        }
    }

    /// Writes this flag into F. Nothing else changes.
    pub fn set(self, state: &mut State, value: bool)
        ensures
            *final(state) == old(state).with_flags(self.put(old(state).flags(), value)),
            self.is_set(final(state).flags()) == value,
            forall|other: Flag|
                other != self ==> #[trigger] other.is_set(final(state).flags()) == other.is_set(
                    old(state).flags(),
                ),
    {
        let mask: u8 = self.mask();
        proof {
            Flag::lemma_put(state.flags(), self, value);
        }
        if value {
            state.registers.af.1 = state.registers.af.1 | mask;
        } else {
            state.registers.af.1 = state.registers.af.1 & !mask;
        }
    }

    /// Reads this flag from F.
    pub fn get(self, state: &State) -> (value: bool)
        ensures
            value == self.is_set(state.flags()),
    {
        self.get_bit(state) > 0
    }

    /// This flag as a number: 1 if it is set in F, else 0.
    pub fn get_bit(self, state: &State) -> (bit: u8)
        ensures
            bit == if self.is_set(state.flags()) { 1u8 } else { 0u8 },
    {
        let mask: u8 = self.mask();
        proof {
            lemma_single_bits(state.flags(), mask, mask);
        }
        if state.registers.af.1 & mask == mask {
            1
        } else {
            0
        }
    }

    /// Looks a flag up in a list of (flag, value) entries; the last entry for
    /// the flag decides.
    fn find(values: &[(Flag, bool)], flag: Flag) -> (found: Option<bool>)
        ensures
            found == lookup(values@, flag),
    {
        let mut found: Option<bool> = None;
        let mut i: usize = 0;
        while i < values.len()
            invariant
                i <= values@.len(),
                found == lookup(values@.take(i as int), flag),
            decreases values@.len() - i,
        {
            proof {
                assert(values@.take(i + 1).drop_last() =~= values@.take(i as int));
            }
            if values[i].0 == flag {
                found = Some(values[i].1);
            }
            i = i + 1;
        }
        proof {
            assert(values@.take(i as int) =~= values@);
        }
        found
    }

    /// Writes into F, for each flag of `affected`, the value that `values`
    /// gives it. A flag outside `affected`, or without a value, stays.
    pub fn set_values(state: &mut State, affected: &[Flag], values: &[(Flag, bool)])
        ensures
            *final(state) == old(state).with_flags(updated(old(state).flags(), affected@, values@)),
            forall|flag: Flag|
                #[trigger] flag.is_set(final(state).flags()) == (if affected@.contains(flag)
                    && lookup(values@, flag) is Some {
                    lookup(values@, flag)->0
                } else {
                    flag.is_set(old(state).flags())
                }),
    {
        let mut i: usize = 0;
        while i < affected.len()
            invariant
                i <= affected@.len(),
                *state == old(state).with_flags(
                    updated(old(state).flags(), affected@.take(i as int), values@),
                ),
            decreases affected@.len() - i,
        {
            proof {
                assert(affected@.take(i + 1).drop_last() =~= affected@.take(i as int));
            }
            let flag: Flag = affected[i];
            match Flag::find(values, flag) {
                Some(value) => flag.set(state, value),
                None => {},
            }
            i = i + 1;
        }
        proof {
            assert(affected@.take(i as int) =~= affected@);
            assert forall|flag: Flag|
                #[trigger] flag.is_set(state.flags()) == (if affected@.contains(flag) && lookup(
                    values@,
                    flag,
                ) is Some {
                    lookup(values@, flag)->0
                } else {
                    flag.is_set(old(state).flags())
                }) by {
                Flag::lemma_updated(old(state).flags(), affected@, values@, flag);
            }
        }
    }

    /// A flag reads back as it was written, and writing one flag leaves every
    /// other flag as it was.
    pub proof fn lemma_put(flags: u8, flag: Flag, value: bool)
        ensures
            flag.is_set(flag.put(flags, value)) == value,
            forall|other: Flag|
                other != flag ==> #[trigger] other.is_set(flag.put(flags, value)) == other.is_set(
                    flags,
                ),
    {
        lemma_single_bits(flags, flag.mask_of(), flag.mask_of());
        assert forall|other: Flag| other != flag implies #[trigger] other.is_set(
            flag.put(flags, value),
        ) == other.is_set(flags) by {
            lemma_single_bits(flags, flag.mask_of(), other.mask_of());
        }
    }

    /// Two flag octets in which every flag reads the same are equal.
    pub proof fn lemma_flags_determine_octet(a: u8, b: u8)
        requires
            forall|flag: Flag| flag.is_set(a) == flag.is_set(b),
        ensures
            a == b,
    {
        assert(Flag::Carry.is_set(a) == Flag::Carry.is_set(b));
        assert(Flag::AddSubtract.is_set(a) == Flag::AddSubtract.is_set(b));
        assert(Flag::ParityOverflow.is_set(a) == Flag::ParityOverflow.is_set(b));
        assert(Flag::Unused1.is_set(a) == Flag::Unused1.is_set(b));
        assert(Flag::HalfCarry.is_set(a) == Flag::HalfCarry.is_set(b));
        assert(Flag::Unused2.is_set(a) == Flag::Unused2.is_set(b));
        assert(Flag::Zero.is_set(a) == Flag::Zero.is_set(b));
        assert(Flag::Sign.is_set(a) == Flag::Sign.is_set(b));
        lemma_single_bits(a, 1, 1);
        lemma_single_bits(a, 2, 2);
        lemma_single_bits(a, 4, 4);
        lemma_single_bits(a, 8, 8);
        lemma_single_bits(a, 16, 16);
        lemma_single_bits(a, 32, 32);
        lemma_single_bits(a, 64, 64);
        lemma_single_bits(a, 128, 128);
        lemma_single_bits(b, 1, 1);
        lemma_single_bits(b, 2, 2);
        lemma_single_bits(b, 4, 4);
        lemma_single_bits(b, 8, 8);
        lemma_single_bits(b, 16, 16);
        lemma_single_bits(b, 32, 32);
        lemma_single_bits(b, 64, 64);
        lemma_single_bits(b, 128, 128);
        lemma_bits_determine_octet(a, b);
    }

    /// After an update, a flag that is in `affected` and has a value in
    /// `values` reads as that value; every other flag reads as before.
    pub proof fn lemma_updated(
        flags: u8,
        affected: Seq<Flag>,
        values: Seq<(Flag, bool)>,
        flag: Flag,
    )
        ensures
            flag.is_set(updated(flags, affected, values)) == (if affected.contains(flag) && lookup(
                values,
                flag,
            ) is Some {
                lookup(values, flag)->0
            } else {
                flag.is_set(flags)
            }),
        decreases affected.len(),
    {
        if affected.len() > 0 {
            let rest = affected.drop_last();
            let last = affected.last();
            let before = updated(flags, rest, values);
            Flag::lemma_updated(flags, rest, values, flag);
            assert(affected.contains(flag) <==> rest.contains(flag) || last == flag) by {
                if rest.contains(flag) {
                    let k = choose|k: int| 0 <= k < rest.len() && rest[k] == flag;
                    assert(affected[k] == flag);
                }
                if last == flag {
                    assert(affected[affected.len() - 1] == flag);
                }
                if affected.contains(flag) {
                    let k = choose|k: int| 0 <= k < affected.len() && affected[k] == flag;
                    if k < rest.len() {
                        assert(rest[k] == flag);
                    }
                }
            }
            match lookup(values, last) {
                Some(value) => {
                    Flag::lemma_put(before, last, value);
                },
                None => {},
            }
        }
    }
}

} // verus!
