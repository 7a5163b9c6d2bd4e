//! Selection of the machine's standard libraries, as a bit set.

use vstd::prelude::*;

verus! {

/// Bit of the base library.
pub const LIB_BASE: u32 = 1;

/// Bit of the coroutine library.
pub const LIB_COROUTINE: u32 = 2;

/// Bit of the table library.
pub const LIB_TABLE: u32 = 4;

/// Bit of the operating-system library.
pub const LIB_OS: u32 = 8;

/// Bit of the string library.
pub const LIB_STRING: u32 = 16;

/// Bit of the math library.
pub const LIB_MATH: u32 = 32;

/// Bit of the debug library.
pub const LIB_DEBUG: u32 = 64;

/// Bit of the UTF-8 library.
pub const LIB_UTF8: u32 = 128;

/// Bit of the 32-bit integer library.
pub const LIB_BIT32: u32 = 256;

/// Bit of the buffer library.
pub const LIB_BUFFER: u32 = 512;

/// Bit of the vector library.
pub const LIB_VECTOR: u32 = 1024;

/// All libraries at once.
pub const ALL_LIBS: u32 = 0xffff_ffff;

/// A set of standard libraries to load.
#[derive(PartialEq, Eq, Structural, Clone, Copy, Debug)]
pub struct LuauLibs(pub u32);

impl LuauLibs {
    /// The bits of this set.
    pub open spec fn bits(&self) -> u32 {
        self.0
    }

    /// Returns true when this set is contained in `lib`.
    pub fn has(&self, lib: LuauLibs) -> (r: bool)
        ensures
            r == (self.bits() & lib.bits() == self.bits()),
    {
        self.0 & lib.0 == self.0
    }

    /// The union of two sets.
    pub fn or(self, rhs: LuauLibs) -> (r: LuauLibs)
        ensures
            r.bits() == (self.bits() | rhs.bits()),
    {
        LuauLibs(self.0 | rhs.0)
    }

    /// The intersection of two sets.
    pub fn and(self, rhs: LuauLibs) -> (r: LuauLibs)
        ensures
            r.bits() == (self.bits() & rhs.bits()),
    {
        LuauLibs(self.0 & rhs.0)
    }

    /// The symmetric difference of two sets.
    pub fn xor(self, rhs: LuauLibs) -> (r: LuauLibs)
        ensures
            r.bits() == (self.bits() ^ rhs.bits()),
    {
        LuauLibs(self.0 ^ rhs.0)
    }
}

} // verus!
