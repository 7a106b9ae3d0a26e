use vstd::prelude::*;

verus! {

/// Every bit that names a session option.
pub const ALL_BITS: u32 = 0xf;

/// Options for opening a cipher session (`gcry_cipher_flags`): a set of the
/// four named bits (`Flags::SECURE`, ...), built with `from_bits` or
/// `from_bits_truncate` and combined by union and intersection.
#[derive(Debug, Clone, Copy, PartialEq, Eq, Hash)]
pub struct Flags {
    bits: u32,
}

impl View for Flags {
    type V = u32;

    closed spec fn view(&self) -> u32 {
        self.bits
    }
}

impl Flags {
    #[verifier::type_invariant]
    spec fn inv(&self) -> bool {
        self.bits & !ALL_BITS == 0
    }

    /// Bit of no option.
    pub const NONE: u32 = 0;

    /// Keep the session's key material in secure memory.
    pub const SECURE: u32 = 1;

    /// Allow the CFB resynchronisation call.
    pub const ENABLE_SYNC: u32 = 2;

    /// Ciphertext stealing in CBC mode.
    pub const CBC_CTS: u32 = 4;

    /// CBC-MAC: CBC mode that outputs only the last block.
    pub const CBC_MAC: u32 = 8;

    /// The empty set.
    pub fn empty() -> (r: Flags)
        ensures
            r@ == 0,
    {
        assert(0u32 & !ALL_BITS == 0) by (bit_vector);
        Flags { bits: 0 }
    }

    /// The set of all four options.
    pub fn all() -> (r: Flags)
        ensures
            r@ == ALL_BITS,
    {
        assert(ALL_BITS & !ALL_BITS == 0) by (bit_vector);
        Flags { bits: ALL_BITS }
    }

    /// The bits handed to the native library.
    pub fn bits(&self) -> (r: u32)
        ensures
            r == self@,
            r & !ALL_BITS == 0,
    {
        proof {
            use_type_invariant(self);
        }
        self.bits
    }

    /// The set with exactly these bits, or `None` where a bit names no option.
    pub fn from_bits(bits: u32) -> (r: Option<Flags>)
        ensures
            r is Some <==> bits & !ALL_BITS == 0,
            r matches Some(f) ==> f@ == bits,
    {
        if bits & !ALL_BITS == 0 {
            Some(Flags { bits })
        } else {
            None
        }
    }

    /// The set of the options among these bits; other bits are dropped.
    pub fn from_bits_truncate(bits: u32) -> (r: Flags)
        ensures
            r@ == bits & ALL_BITS,
    {
        let b = bits & ALL_BITS;
        assert(b & !ALL_BITS == 0) by (bit_vector)
            requires
                b == bits & ALL_BITS,
        ;
        Flags { bits: b }
    }

    /// Whether no option is set.
    pub fn is_empty(&self) -> (r: bool)
        ensures
            r <==> self@ == 0,
    {
        self.bits == 0
    }

    /// Whether every option of `other` is set here.
    pub fn contains(&self, other: Flags) -> (r: bool)
        ensures
            r <==> self@ & other@ == other@,
    {
        self.bits & other.bits == other.bits
    }

    /// Whether an option is set both here and in `other`.
    pub fn intersects(&self, other: Flags) -> (r: bool)
        ensures
            r <==> self@ & other@ != 0,
    {
        self.bits & other.bits != 0
    }

    /// The options set here or in `other`.
    pub fn union(self, other: Flags) -> (r: Flags)
        ensures
            r@ == self@ | other@,
    {
        proof {
            use_type_invariant(self);
            use_type_invariant(other);
        }
        let a = self.bits;
        let b = other.bits;
        assert((a | b) & !ALL_BITS == 0) by (bit_vector)
            requires
                a & !ALL_BITS == 0,
                b & !ALL_BITS == 0,
        ;
        Flags { bits: a | b }
    }

    /// The options set both here and in `other`.
    pub fn intersection(self, other: Flags) -> (r: Flags)
        ensures
            r@ == self@ & other@,
    {
        proof {
            use_type_invariant(self);
        }
        let a = self.bits;
        let b = other.bits;
        assert((a & b) & !ALL_BITS == 0) by (bit_vector)
            requires
                a & !ALL_BITS == 0,
        ;
        Flags { bits: a & b }
    }

    /// Sets the options of `other`.
    pub fn insert(&mut self, other: Flags)
        ensures
            final(self)@ == old(self)@ | other@,
    {
        *self = self.union(other);
    }

    /// Clears the options of `other`.
    pub fn remove(&mut self, other: Flags)
        ensures
            final(self)@ == old(self)@ & !other@,
    {
        proof {
            use_type_invariant(&*self);
        }
        let a = self.bits;
        let b = other.bits;
        assert((a & !b) & !ALL_BITS == 0) by (bit_vector)
            requires
                a & !ALL_BITS == 0,
        ;
        *self = Flags { bits: a & !b };
    }
}

} // verus!
