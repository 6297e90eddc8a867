//! Permission flags and a shiftable byte.

use vstd::prelude::*;
use vstd::std_specs::ops::BitAndSpecImpl;
use vstd::std_specs::ops::BitOrSpecImpl;
use vstd::std_specs::ops::BitXorSpecImpl;
use vstd::std_specs::ops::NotSpecImpl;
use vstd::std_specs::ops::ShlSpecImpl;
use vstd::std_specs::ops::ShrSpecImpl;

verus! {

/// A set of permission flags in the low three bits of a byte.
#[derive(Debug, Clone, Copy, PartialEq, Eq, Structural)]
pub struct Permissions(pub u8);

impl Permissions {
    /// No flag.
    pub fn none() -> (r: Permissions)
        ensures
            r.0 == 0,
    {
        Permissions(0)
    }

    /// The read flag, bit 0.
    pub fn read() -> (r: Permissions)
        ensures
            r.0 == 1,
    {
        Permissions(1)
    }

    /// The write flag, bit 1.
    pub fn write() -> (r: Permissions)
        ensures
            r.0 == 2,
    {
        Permissions(2)
    }

    /// The execute flag, bit 2.
    pub fn execute() -> (r: Permissions)
        ensures
            r.0 == 4,
    {
        Permissions(4)
    }

    /// All three flags.
    pub fn all() -> (r: Permissions)
        ensures
            r.0 == 7,
    {
        Permissions(7)
    }

    /// Every flag of `other` is set in `self`.
    pub fn contains(self, other: Permissions) -> (r: bool)
        ensures
            r == ((self.0 & other.0) == other.0),
    {
        (self.0 & other.0) == other.0
    }

    pub fn is_empty(self) -> (r: bool)
        ensures
            r == (self.0 == 0),
    {
        self.0 == 0
    }
}

impl BitOrSpecImpl for Permissions {
    open spec fn obeys_bitor_spec() -> bool {
        true
    }

    open spec fn bitor_req(self, rhs: Permissions) -> bool {
        true
    }

    open spec fn bitor_spec(self, rhs: Permissions) -> Permissions {
        Permissions(self.0 | rhs.0)
    }
}

impl std::ops::BitOr for Permissions {
    type Output = Permissions;

    fn bitor(self, rhs: Permissions) -> (r: Permissions) {
        Permissions(self.0 | rhs.0)
    }
}

impl BitOrSpecImpl<u8> for Permissions {
    open spec fn obeys_bitor_spec() -> bool {
        true
    }

    open spec fn bitor_req(self, rhs: u8) -> bool {
        true
    }

    open spec fn bitor_spec(self, rhs: u8) -> Permissions {
        Permissions(self.0 | rhs)
    }
}

impl std::ops::BitOr<u8> for Permissions {
    type Output = Permissions;

    fn bitor(self, rhs: u8) -> (r: Permissions) {
        Permissions(self.0 | rhs)
    }
}

impl BitAndSpecImpl for Permissions {
    open spec fn obeys_bitand_spec() -> bool {
        true
    }

    open spec fn bitand_req(self, rhs: Permissions) -> bool {
        true
    }

    open spec fn bitand_spec(self, rhs: Permissions) -> Permissions {
        Permissions(self.0 & rhs.0)
    }
}

impl std::ops::BitAnd for Permissions {
    type Output = Permissions;

    fn bitand(self, rhs: Permissions) -> (r: Permissions) {
        Permissions(self.0 & rhs.0)
    }
}

impl BitAndSpecImpl<u8> for Permissions {
    open spec fn obeys_bitand_spec() -> bool {
        true
    }

    open spec fn bitand_req(self, rhs: u8) -> bool {
        true
    }

    open spec fn bitand_spec(self, rhs: u8) -> Permissions {
        Permissions(self.0 & rhs)
    }
}

impl std::ops::BitAnd<u8> for Permissions {
    type Output = Permissions;

    fn bitand(self, rhs: u8) -> (r: Permissions) {
        Permissions(self.0 & rhs)
    }
}

impl BitXorSpecImpl for Permissions {
    open spec fn obeys_bitxor_spec() -> bool {
        true
    }

    open spec fn bitxor_req(self, rhs: Permissions) -> bool {
        true
    }

    open spec fn bitxor_spec(self, rhs: Permissions) -> Permissions {
        Permissions(self.0 ^ rhs.0)
    }
}

impl std::ops::BitXor for Permissions {
    type Output = Permissions;

    fn bitxor(self, rhs: Permissions) -> (r: Permissions) {
        Permissions(self.0 ^ rhs.0)
    }
}

impl NotSpecImpl for Permissions {
    open spec fn obeys_not_spec() -> bool {
        true
    }

    open spec fn not_req(self) -> bool {
        true
    }

    /// The complement within the three flag bits.
    open spec fn not_spec(self) -> Permissions {
        Permissions(!self.0 & 7u8)
    }
}

impl std::ops::Not for Permissions {
    type Output = Permissions;

    fn not(self) -> (r: Permissions) {
        Permissions(!self.0 & 7u8)
    }
}

impl std::ops::BitOrAssign for Permissions {
    fn bitor_assign(&mut self, rhs: Permissions)
        ensures
            final(self).0 == old(self).0 | rhs.0,
    {
        self.0 = self.0 | rhs.0;
    }
}

impl std::ops::BitAndAssign for Permissions {
    fn bitand_assign(&mut self, rhs: Permissions)
        ensures
            final(self).0 == old(self).0 & rhs.0,
    {
        self.0 = self.0 & rhs.0;
    }
}

impl std::ops::BitXorAssign for Permissions {
    fn bitxor_assign(&mut self, rhs: Permissions)
        ensures
            final(self).0 == old(self).0 ^ rhs.0,
    {
        self.0 = self.0 ^ rhs.0;
    }
}

/// A byte that can be shifted.
#[derive(Debug, Clone, Copy, PartialEq, Eq, Structural)]
pub struct Bits(pub u8);

impl Bits {
    pub fn new(value: u8) -> (r: Bits)
        ensures
            r.0 == value,
    {
        Bits(value)
    }

    pub fn value(self) -> (r: u8)
        ensures
            r == self.0,
    {
        self.0
    }
}

impl ShlSpecImpl<u8> for Bits {
    open spec fn obeys_shl_spec() -> bool {
        true
    }

    /// A byte has eight positions to shift through.
    open spec fn shl_req(self, rhs: u8) -> bool {
        rhs < 8
    }

    open spec fn shl_spec(self, rhs: u8) -> Bits {
        Bits(self.0 << rhs)
    }
}

impl std::ops::Shl<u8> for Bits {
    type Output = Bits;

    fn shl(self, rhs: u8) -> (r: Bits) {
        Bits(self.0 << rhs)
    }
}

impl ShrSpecImpl<u8> for Bits {
    open spec fn obeys_shr_spec() -> bool {
        true
    }

    open spec fn shr_req(self, rhs: u8) -> bool {
        rhs < 8
    }

    open spec fn shr_spec(self, rhs: u8) -> Bits {
        Bits(self.0 >> rhs)
    }
}

impl std::ops::Shr<u8> for Bits {
    type Output = Bits;

    fn shr(self, rhs: u8) -> (r: Bits) {
        Bits(self.0 >> rhs)
    }
}

/// Setting flags and then asking for them finds them.
pub proof fn union_contains_both(a: Permissions, b: Permissions)
    ensures
        ((a.0 | b.0) & a.0) == a.0,
        ((a.0 | b.0) & b.0) == b.0,
{
    let x = a.0;
    let y = b.0;
    assert(((x | y) & x) == x) by (bit_vector);
    assert(((x | y) & y) == y) by (bit_vector);
}

} // verus!
