use vstd::prelude::*;

verus! {

/// A 256-bit unsigned integer held as four little-endian 64-bit limbs.
#[derive(Clone, Copy, Debug, PartialEq, Eq, Structural)]
pub struct Word {
    pub limbs0: u64,
    pub limbs1: u64,
    pub limbs2: u64,
    pub limbs3: u64,
}

/// A 20-byte account address.
#[derive(Clone, Copy, Debug)]
pub struct Address {
    pub bytes: [u8; 20],
}

impl Word {
    /// The number that the limbs spell.
    pub open spec fn value(self) -> nat {
        self.limbs0 as nat + self.limbs1 as nat * 0x1_0000_0000_0000_0000 + self.limbs2 as nat
            * 0x1_0000_0000_0000_0000_0000_0000_0000_0000 + self.limbs3 as nat
            * 0x1_0000_0000_0000_0000_0000_0000_0000_0000_0000_0000_0000_0000
    }

    /// The most significant of the 32 big-endian bytes.
    pub open spec fn spec_top_byte(self) -> u8 {
        (self.limbs3 >> 56u64) as u8
    }

    pub fn from_u64(v: u64) -> (r: Word)
        ensures
            r.value() == v as nat,
            r == (Word { limbs0: v, limbs1: 0, limbs2: 0, limbs3: 0 }),
    {
        Word { limbs0: v, limbs1: 0, limbs2: 0, limbs3: 0 }
    }

    pub fn zero() -> (r: Word)
        ensures
            r.value() == 0,
            r == (Word { limbs0: 0, limbs1: 0, limbs2: 0, limbs3: 0 }),
    {
        Word { limbs0: 0, limbs1: 0, limbs2: 0, limbs3: 0 }
    }

    pub fn is_zero(&self) -> (r: bool)
        ensures
            r == (self.value() == 0),
    {
        self.limbs0 == 0 && self.limbs1 == 0 && self.limbs2 == 0 && self.limbs3 == 0
    }

    /// The most significant byte of the big-endian encoding.
    pub fn top_byte(&self) -> (r: u8)
        ensures
            r == self.spec_top_byte(),
    {
        (self.limbs3 >> 56u64) as u8
    }

    pub fn same(&self, other: &Word) -> (r: bool)
        ensures
            r == (*self == *other),
    {
        *self == *other
    }
}

impl Address {
    pub fn same(&self, other: &Address) -> (r: bool)
        ensures
            r == (self.bytes@ == other.bytes@),
    {
        let mut i: usize = 0;
        while i < 20
            invariant
                i <= 20,
                self.bytes@.len() == 20,
                other.bytes@.len() == 20,
                forall|j: int| 0 <= j < i ==> self.bytes@[j] == other.bytes@[j],
            decreases 20 - i,
        {
            if self.bytes[i] != other.bytes[i] {
                return false;
            }
            i = i + 1;
        }
        assert(self.bytes@ =~= other.bytes@);
        true
    }
}

} // verus!
