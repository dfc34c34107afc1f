use vstd::prelude::*;

verus! {

/// The status effects of a player: eight independent flags, none of which any
/// operation reads. They are kept so that a stored byte comes back unchanged.
#[derive(Clone, Copy, Debug, PartialEq, Eq, Structural)]
pub struct StatusFlags {
    pub frozen: bool,
    pub poisoned: bool,
    pub burning: bool,
    pub blessed: bool,
    pub cursed: bool,
    pub stunned: bool,
    pub slowed: bool,
    pub bleeding: bool,
}

/// The weight of a flag in the stored byte: `weight` if it is set, else 0.
pub open spec fn flag_weight(set: bool, weight: int) -> int {
    if set {
        weight
    } else {
        0
    }
}

/// Whether the stored byte `bits` has the flag of weight `weight` set.
pub open spec fn has_flag(bits: u8, weight: int) -> bool {
    (bits as int / weight) % 2 == 1
}

impl StatusFlags {
    /// The stored byte: frozen is bit 0, poisoned bit 1, burning bit 2, blessed
    /// bit 3, cursed bit 4, stunned bit 5, slowed bit 6, bleeding bit 7.
    pub open spec fn spec_bits(self) -> int {
        flag_weight(self.frozen, 1) + flag_weight(self.poisoned, 2) + flag_weight(self.burning, 4)
            + flag_weight(self.blessed, 8) + flag_weight(self.cursed, 16) + flag_weight(
            self.stunned,
            32,
        ) + flag_weight(self.slowed, 64) + flag_weight(self.bleeding, 128)
    }

    /// The flags that a stored byte stands for.
    pub open spec fn spec_from_bits(bits: u8) -> StatusFlags {
        StatusFlags {
            frozen: has_flag(bits, 1),
            poisoned: has_flag(bits, 2),
            burning: has_flag(bits, 4),
            blessed: has_flag(bits, 8),
            cursed: has_flag(bits, 16),
            stunned: has_flag(bits, 32),
            slowed: has_flag(bits, 64),
            bleeding: has_flag(bits, 128),
        }
    }

    /// No effect at all: the state of a new player.
    pub open spec fn spec_none() -> StatusFlags {
        StatusFlags {
            frozen: false,
            poisoned: false,
            burning: false,
            blessed: false,
            cursed: false,
            stunned: false,
            slowed: false,
            bleeding: false,
        }
    }

    pub fn none() -> (r: StatusFlags)
        ensures
            r == StatusFlags::spec_none(),
            r.spec_bits() == 0,
    {
        StatusFlags {
            frozen: false,
            poisoned: false,
            burning: false,
            blessed: false,
            cursed: false,
            stunned: false,
            slowed: false,
            bleeding: false,
        }
    }

    pub fn bits(&self) -> (r: u8)
        ensures
            r == self.spec_bits(),
    {
        let mut r: u8 = 0;
        if self.frozen {
            r = r + 1;
        }
        if self.poisoned {
            r = r + 2;
        }
        if self.burning {
            r = r + 4;
        }
        if self.blessed {
            r = r + 8;
        }
        if self.cursed {
            r = r + 16;
        }
        if self.stunned {
            r = r + 32;
        }
        if self.slowed {
            r = r + 64;
        }
        if self.bleeding {
            r = r + 128;
        }
        r
    }

    pub fn from_bits(bits: u8) -> (r: StatusFlags)
        ensures
            r == StatusFlags::spec_from_bits(bits),
    {
        StatusFlags {
            frozen: bits % 2 == 1,
            poisoned: (bits / 2) % 2 == 1,
            burning: (bits / 4) % 2 == 1,
            blessed: (bits / 8) % 2 == 1,
            cursed: (bits / 16) % 2 == 1,
            stunned: (bits / 32) % 2 == 1,
            slowed: (bits / 64) % 2 == 1,
            bleeding: (bits / 128) % 2 == 1,
        }
    }

    /// Every set of flags has a stored byte, and reading that byte gives the
    /// same flags back.
    pub proof fn lemma_flags_round_trip(flags: StatusFlags)
        ensures
            0 <= flags.spec_bits() <= 255,
            StatusFlags::spec_from_bits(flags.spec_bits() as u8) == flags,
    {
    }

    /// Every byte stands for a set of flags whose stored byte it is.
    pub proof fn lemma_bits_round_trip(bits: u8)
        ensures
            StatusFlags::spec_from_bits(bits).spec_bits() == bits,
    {
        let b: u8 = bits;
        assert(b == (b % 2) + 2 * ((b / 2) % 2) + 4 * ((b / 4) % 2) + 8 * ((b / 8) % 2) + 16 * ((b
            / 16) % 2) + 32 * ((b / 32) % 2) + 64 * ((b / 64) % 2) + 128 * ((b / 128) % 2))
            by (bit_vector);
    }
}

} // verus!
