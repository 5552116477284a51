//! Attribute flags of an indexed file: ten independent named bits.

use vstd::prelude::*;

verus! {

/// Mask of every bit that has a name.
pub const ALL_BITS: i32 = 1023;

/// True when every bit of `mask` is set in `bits`.
pub open spec fn has_bits(bits: i32, mask: i32) -> bool {
    bits & mask == mask
}

/// File attribute flags. Any combination of the named bits is a valid value;
/// bits without a name are never set.
#[derive(Debug, Clone, Copy, PartialEq, Eq, Structural)]
pub struct FileFlags {
    bits: i32,
}

impl View for FileFlags {
    type V = i32;

    closed spec fn view(&self) -> i32 {
        self.bits
    }
}

impl FileFlags {
    #[verifier::type_invariant]
    spec fn only_named_bits(self) -> bool {
        self.bits & ALL_BITS == self.bits
    }

    /// The single flag: a regular file.
    pub fn regular_file() -> (r: FileFlags)
        ensures
            r@ == 1,
    {
        proof {
            assert(1i32 & 1023i32 == 1i32) by (bit_vector);
        }
        FileFlags { bits: 1 }
    }

    /// The single flag: a directory.
    pub fn directory() -> (r: FileFlags)
        ensures
            r@ == 2,
    {
        proof {
            assert(2i32 & 1023i32 == 2i32) by (bit_vector);
        }
        FileFlags { bits: 2 }
    }

    /// The single flag: a symbolic link.
    pub fn symbolic_link() -> (r: FileFlags)
        ensures
            r@ == 4,
    {
        proof {
            assert(4i32 & 1023i32 == 4i32) by (bit_vector);
        }
        FileFlags { bits: 4 }
    }

    /// The single flag: hidden.
    pub fn hidden() -> (r: FileFlags)
        ensures
            r@ == 8,
    {
        proof {
            assert(8i32 & 1023i32 == 8i32) by (bit_vector);
        }
        FileFlags { bits: 8 }
    }

    /// The single flag: a system file.
    pub fn system() -> (r: FileFlags)
        ensures
            r@ == 16,
    {
        proof {
            assert(16i32 & 1023i32 == 16i32) by (bit_vector);
        }
        FileFlags { bits: 16 }
    }

    /// The single flag: marked for archiving.
    pub fn archive() -> (r: FileFlags)
        ensures
            r@ == 32,
    {
        proof {
            assert(32i32 & 1023i32 == 32i32) by (bit_vector);
        }
        FileFlags { bits: 32 }
    }

    /// The single flag: read-only.
    pub fn read_only() -> (r: FileFlags)
        ensures
            r@ == 64,
    {
        proof {
            assert(64i32 & 1023i32 == 64i32) by (bit_vector);
        }
        FileFlags { bits: 64 }
    }

    /// The single flag: compressed.
    pub fn compressed() -> (r: FileFlags)
        ensures
            r@ == 128,
    {
        proof {
            assert(128i32 & 1023i32 == 128i32) by (bit_vector);
        }
        FileFlags { bits: 128 }
    }

    /// The single flag: encrypted.
    pub fn encrypted() -> (r: FileFlags)
        ensures
            r@ == 256,
    {
        proof {
            assert(256i32 & 1023i32 == 256i32) by (bit_vector);
        }
        FileFlags { bits: 256 }
    }

    /// The single flag: sparse.
    pub fn sparse() -> (r: FileFlags)
        ensures
            r@ == 512,
    {
        proof {
            assert(512i32 & 1023i32 == 512i32) by (bit_vector);
        }
        FileFlags { bits: 512 }
    }


    /// The value with no flag set.
    pub fn empty() -> (r: FileFlags)
        ensures
            r@ == 0,
    {
        proof {
            assert(0i32 & ALL_BITS == 0i32) by (bit_vector);
        }
        FileFlags { bits: 0 }
    }

    /// The value with every named flag set.
    pub fn all() -> (r: FileFlags)
        ensures
            r@ == ALL_BITS,
    {
        proof {
            assert(1023i32 & 1023i32 == 1023i32) by (bit_vector);
        }
        FileFlags { bits: ALL_BITS }
    }

    /// Keeps the named bits of `bits` and drops the others.
    pub fn from_bits_truncate(bits: i32) -> (r: FileFlags)
        ensures
            r@ == bits & ALL_BITS,
    {
        proof {
            assert((bits & 1023i32) & 1023i32 == bits & 1023i32) by (bit_vector);
        }
        FileFlags { bits: bits & ALL_BITS }
    }

    /// The raw bit pattern.
    pub fn bits(&self) -> (r: i32)
        ensures
            r == self@,
    {
        self.bits
    }

    pub fn is_empty(&self) -> (r: bool)
        ensures
            r == (self@ == 0),
    {
        self.bits == 0
    }

    /// True when every flag of `other` is set in `self`.
    pub fn contains(&self, other: FileFlags) -> (r: bool)
        ensures
            r == has_bits(self@, other@),
    {
        self.bits & other.bits == other.bits
    }

    /// Sets every flag of `other`.
    pub fn insert(&mut self, other: FileFlags)
        ensures
            final(self)@ == old(self)@ | other@,
    {
        proof {
            use_type_invariant(&*self);
            use_type_invariant(&other);
            let a = self.bits;
            let b = other.bits;
            assert(a & 1023i32 == a && b & 1023i32 == b ==> (a | b) & 1023i32 == a | b)
                by (bit_vector);
        }
        self.bits = self.bits | other.bits;
    }

    /// Clears every flag of `other`.
    pub fn remove(&mut self, other: FileFlags)
        ensures
            final(self)@ == old(self)@ & !other@,
    {
        proof {
            use_type_invariant(&*self);
            let a = self.bits;
            let b = other.bits;
            assert(a & 1023i32 == a ==> (a & !b) & 1023i32 == a & !b) by (bit_vector);
        }
        self.bits = self.bits & !other.bits;
    }

    pub fn is_regular_file(&self) -> (r: bool)
        ensures
            r == has_bits(self@, 1),
    {
        self.contains(Self::regular_file())
    }

    pub fn is_directory(&self) -> (r: bool)
        ensures
            r == has_bits(self@, 2),
    {
        self.contains(Self::directory())
    }

    pub fn is_symbolic_link(&self) -> (r: bool)
        ensures
            r == has_bits(self@, 4),
    {
        self.contains(Self::symbolic_link())
    }

    pub fn is_hidden(&self) -> (r: bool)
        ensures
            r == has_bits(self@, 8),
    {
        self.contains(Self::hidden())
    }

    pub fn is_system(&self) -> (r: bool)
        ensures
            r == has_bits(self@, 16),
    {
        self.contains(Self::system())
    }

    pub fn is_archive(&self) -> (r: bool)
        ensures
            r == has_bits(self@, 32),
    {
        self.contains(Self::archive())
    }

    pub fn is_read_only(&self) -> (r: bool)
        ensures
            r == has_bits(self@, 64),
    {
        self.contains(Self::read_only())
    }

    pub fn is_compressed(&self) -> (r: bool)
        ensures
            r == has_bits(self@, 128),
    {
        self.contains(Self::compressed())
    }

    pub fn is_encrypted(&self) -> (r: bool)
        ensures
            r == has_bits(self@, 256),
    {
        self.contains(Self::encrypted())
    }

    pub fn is_sparse(&self) -> (r: bool)
        ensures
            r == has_bits(self@, 512),
    {
        self.contains(Self::sparse())
    }
}

impl Default for FileFlags {
    fn default() -> (r: FileFlags)
        ensures
            r@ == 0,
    {
        FileFlags::empty()
    }
}

impl core::ops::BitOr for FileFlags {
    type Output = FileFlags;

    fn bitor(self, rhs: FileFlags) -> (r: FileFlags)
        ensures
            r@ == self@ | rhs@,
    {
        let mut out = self;
        out.insert(rhs);
        out
    }
}

impl vstd::std_specs::ops::BitOrSpecImpl for FileFlags {
    open spec fn obeys_bitor_spec() -> bool {
        true
    }

    open spec fn bitor_req(self, rhs: FileFlags) -> bool {
        true
    }

    closed spec fn bitor_spec(self, rhs: FileFlags) -> FileFlags {
        FileFlags { bits: self.bits | rhs.bits }
    }
}

impl core::ops::BitAnd for FileFlags {
    type Output = FileFlags;

    fn bitand(self, rhs: FileFlags) -> (r: FileFlags)
        ensures
            r@ == self@ & rhs@,
    {
        proof {
            use_type_invariant(&self);
            let a = self.bits;
            let b = rhs.bits;
            assert(a & 1023i32 == a ==> (a & b) & 1023i32 == a & b) by (bit_vector);
        }
        FileFlags { bits: self.bits & rhs.bits }
    }
}

impl vstd::std_specs::ops::BitAndSpecImpl for FileFlags {
    open spec fn obeys_bitand_spec() -> bool {
        true
    }

    open spec fn bitand_req(self, rhs: FileFlags) -> bool {
        true
    }

    closed spec fn bitand_spec(self, rhs: FileFlags) -> FileFlags {
        FileFlags { bits: self.bits & rhs.bits }
    }
}

impl From<i32> for FileFlags {
    fn from(bits: i32) -> (r: FileFlags)
        ensures
            r@ == bits & ALL_BITS,
    {
        FileFlags::from_bits_truncate(bits)
    }
}

impl vstd::std_specs::convert::FromSpecImpl<i32> for FileFlags {
    open spec fn obeys_from_spec() -> bool {
        true
    }

    closed spec fn from_spec(bits: i32) -> FileFlags {
        FileFlags { bits: bits & ALL_BITS }
    }
}

} // verus!
