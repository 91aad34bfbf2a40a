//! Access rights and sets of them.
//!
//! A right is one operation that the kernel can allow; a set of rights is
//! held as the kernel holds it, one bit per right, and is spoken of in
//! contracts as a mathematical set.

use vstd::prelude::*;
use crate::kernel::{
    fs_rights_in, fs_rights_of_level, net_rights_in, net_rights_of_level, FS_KNOWN_BITS,
    NET_KNOWN_BITS,
};

verus! {

/// One filesystem operation that a rule can allow beneath a path.
#[derive(Clone, Copy, Debug, PartialEq, Eq, Structural)]
pub enum FsRight {
    Execute,
    WriteFile,
    ReadFile,
    ReadDir,
    RemoveDir,
    RemoveFile,
    MakeChar,
    MakeDir,
    MakeReg,
    MakeSock,
    MakeFifo,
    MakeBlock,
    MakeSym,
    Refer,
    Truncate,
    IoctlDev,
    ResolveUnix,
}

impl FsRight {
    /// The position of the right's bit in the kernel's encoding.
    pub open spec fn index(self) -> u64 {
        match self {
            FsRight::Execute => 0,
            FsRight::WriteFile => 1,
            FsRight::ReadFile => 2,
            FsRight::ReadDir => 3,
            FsRight::RemoveDir => 4,
            FsRight::RemoveFile => 5,
            FsRight::MakeChar => 6,
            FsRight::MakeDir => 7,
            FsRight::MakeReg => 8,
            FsRight::MakeSock => 9,
            FsRight::MakeFifo => 10,
            FsRight::MakeBlock => 11,
            FsRight::MakeSym => 12,
            FsRight::Refer => 13,
            FsRight::Truncate => 14,
            FsRight::IoctlDev => 15,
            FsRight::ResolveUnix => 16,
        }
    }

    /// The right's bit in the kernel's encoding.
    pub open spec fn mask(self) -> u64 {
        1u64 << self.index()
    }

    /// The feature level at which the kernel began to know the right.
    pub open spec fn introduced_at(self) -> u8 {
        match self {
            FsRight::Refer => 2,
            FsRight::Truncate => 3,
            FsRight::IoctlDev => 5,
            FsRight::ResolveUnix => 9,
            _ => 1,
        }
    }

    fn position(self) -> (i: u64)
        ensures
            i == self.index(),
            i < 17,
    {
        match self {
            FsRight::Execute => 0,
            FsRight::WriteFile => 1,
            FsRight::ReadFile => 2,
            FsRight::ReadDir => 3,
            FsRight::RemoveDir => 4,
            FsRight::RemoveFile => 5,
            FsRight::MakeChar => 6,
            FsRight::MakeDir => 7,
            FsRight::MakeReg => 8,
            FsRight::MakeSock => 9,
            FsRight::MakeFifo => 10,
            FsRight::MakeBlock => 11,
            FsRight::MakeSym => 12,
            FsRight::Refer => 13,
            FsRight::Truncate => 14,
            FsRight::IoctlDev => 15,
            FsRight::ResolveUnix => 16,
        }
    }

    /// The right's bit in the kernel's encoding.
    pub fn bit(self) -> (m: u64)
        ensures
            m == self.mask(),
    {
        1u64 << self.position()
    }
}

/// One network operation that a rule can allow on a port.
#[derive(Clone, Copy, Debug, PartialEq, Eq, Structural)]
pub enum NetRight {
    BindTcp,
    ConnectTcp,
}

impl NetRight {
    /// The position of the right's bit in the kernel's encoding.
    pub open spec fn index(self) -> u64 {
        match self {
            NetRight::BindTcp => 0,
            NetRight::ConnectTcp => 1,
        }
    }

    /// The right's bit in the kernel's encoding.
    pub open spec fn mask(self) -> u64 {
        1u64 << self.index()
    }

    /// The feature level at which the kernel began to know the right.
    pub open spec fn introduced_at(self) -> u8 {
        4
    }

    fn position(self) -> (i: u64)
        ensures
            i == self.index(),
            i < 2,
    {
        match self {
            NetRight::BindTcp => 0,
            NetRight::ConnectTcp => 1,
        }
    }

    /// The right's bit in the kernel's encoding.
    pub fn bit(self) -> (m: u64)
        ensures
            m == self.mask(),
    {
        1u64 << self.position()
    }
}

/// Two single bits meet exactly when they are the same bit.
proof fn lemma_single_bits_meet(i: u64, j: u64)
    requires
        i < 64,
        j < 64,
    ensures
        ((1u64 << i) & (1u64 << j) != 0) <==> i == j,
{
    assert(i < 64 && j < 64 ==> (((1u64 << i) & (1u64 << j) != 0) <==> i == j)) by (bit_vector);
}

/// A bit is set in `a | b` exactly when it is set in `a` or in `b`.
proof fn lemma_or_bit(a: u64, b: u64, m: u64)
    ensures
        ((a | b) & m != 0) <==> (a & m != 0 || b & m != 0),
{
    assert(((a | b) & m != 0) <==> (a & m != 0 || b & m != 0)) by (bit_vector);
}

/// A set of filesystem rights.
#[derive(Clone, Copy, Debug, PartialEq, Eq)]
pub struct FsAccess {
    bits: u64,
}

impl View for FsAccess {
    type V = Set<FsRight>;

    closed spec fn view(&self) -> Set<FsRight> {
        Set::new(|r: FsRight| self.bits & r.mask() != 0)
    }
}

impl FsAccess {
    #[verifier::type_invariant]
    spec fn only_known_bits(self) -> bool {
        self.bits & !FS_KNOWN_BITS == 0
    }

    /// The set as the kernel encodes it: the bit of each right it holds.
    pub closed spec fn encoding(self) -> u64 {
        self.bits
    }

    /// The set with no right in it.
    pub fn empty() -> (r: FsAccess)
        ensures
            r@ == Set::<FsRight>::empty(),
            r.encoding() == 0,
    {
        proof {
            assert(0u64 & !0x1_FFFFu64 == 0) by (bit_vector);
        }
        let r = FsAccess { bits: 0 };
        proof {
            assert forall|x: FsRight| !r@.contains(x) by {
                let m = x.mask();
                assert(0u64 & m == 0) by (bit_vector);
            }
            assert(r@ =~= Set::<FsRight>::empty());
        }
        r
    }

    /// The set with `right` added.
    pub fn with(self, right: FsRight) -> (r: FsAccess)
        ensures
            r@ == self@.insert(right),
    {
        let m = right.bit();
        let bits = self.bits | m;
        proof {
            use_type_invariant(&self);
            let old_bits = self.bits;
            let i = right.index();
            assert(old_bits & !0x1_FFFFu64 == 0 && i < 17 ==> (old_bits | (1u64 << i)) & !0x1_FFFFu64
                == 0) by (bit_vector);
        }
        let r = FsAccess { bits };
        proof {
            assert forall|x: FsRight| r@.contains(x) == self@.insert(right).contains(x) by {
                lemma_or_bit(self.bits, m, x.mask());
                lemma_single_bits_meet(right.index(), x.index());
            }
            assert(r@ =~= self@.insert(right));
        }
        r
    }

    /// The rights that are in `self` or in `other`.
    pub fn union(self, other: FsAccess) -> (r: FsAccess)
        ensures
            r@ == self@.union(other@),
    {
        let bits = self.bits | other.bits;
        proof {
            use_type_invariant(&self);
            use_type_invariant(&other);
            let a = self.bits;
            let b = other.bits;
            assert(a & !0x1_FFFFu64 == 0 && b & !0x1_FFFFu64 == 0 ==> (a | b) & !0x1_FFFFu64 == 0)
                by (bit_vector);
        }
        let r = FsAccess { bits };
        proof {
            assert forall|x: FsRight| r@.contains(x) == self@.union(other@).contains(x) by {
                lemma_or_bit(self.bits, other.bits, x.mask());
            }
            assert(r@ =~= self@.union(other@));
        }
        r
    }

    /// Whether `right` is in the set.
    pub fn contains(self, right: FsRight) -> (b: bool)
        ensures
            b == self@.contains(right),
    {
        self.bits & right.bit() != 0
    }

    /// Whether the set holds no right.
    pub fn is_empty(self) -> (b: bool)
        ensures
            b == (self@ == Set::<FsRight>::empty()),
            b == (self.encoding() == 0),
    {
        proof {
            use_type_invariant(&self);
            let a = self.bits;
            if a == 0 {
                assert forall|x: FsRight| !self@.contains(x) by {
                    let m = x.mask();
                    assert(0u64 & m == 0) by (bit_vector);
                }
                assert(self@ =~= Set::<FsRight>::empty());
            } else {
                assert(a & !0x1_FFFFu64 == 0 && a != 0 ==> a & (1u64 << 0) != 0 || a & (1u64 << 1) != 0
                    || a & (1u64 << 2) != 0 || a & (1u64 << 3) != 0 || a & (1u64 << 4) != 0 || a & (1u64
                    << 5) != 0 || a & (1u64 << 6) != 0 || a & (1u64 << 7) != 0 || a & (1u64 << 8) != 0
                    || a & (1u64 << 9) != 0 || a & (1u64 << 10) != 0 || a & (1u64 << 11) != 0 || a & (
                1u64 << 12) != 0 || a & (1u64 << 13) != 0 || a & (1u64 << 14) != 0 || a & (1u64 << 15)
                    != 0 || a & (1u64 << 16) != 0) by (bit_vector);
                assert(self@.contains(FsRight::Execute) || self@.contains(FsRight::WriteFile)
                    || self@.contains(FsRight::ReadFile) || self@.contains(FsRight::ReadDir)
                    || self@.contains(FsRight::RemoveDir) || self@.contains(FsRight::RemoveFile)
                    || self@.contains(FsRight::MakeChar) || self@.contains(FsRight::MakeDir)
                    || self@.contains(FsRight::MakeReg) || self@.contains(FsRight::MakeSock)
                    || self@.contains(FsRight::MakeFifo) || self@.contains(FsRight::MakeBlock)
                    || self@.contains(FsRight::MakeSym) || self@.contains(FsRight::Refer)
                    || self@.contains(FsRight::Truncate) || self@.contains(FsRight::IoctlDev)
                    || self@.contains(FsRight::ResolveUnix));
            }
        }
        self.bits == 0
    }

    /// The set as the kernel encodes it.
    pub fn bits(self) -> (b: u64)
        ensures
            b == self.encoding(),
            fs_rights_in(b) == self@,
            b & !FS_KNOWN_BITS == 0,
    {
        proof {
            use_type_invariant(&self);
            assert(fs_rights_in(self.bits) =~= self@);
        }
        self.bits
    }

    /// Every filesystem right that the kernel knows at feature level `level`.
    pub open spec fn spec_all_at(level: u8) -> Set<FsRight> {
        Set::new(|r: FsRight| 1 <= r.introduced_at() <= level)
    }

    /// Every filesystem right that the kernel knows at feature level `level`.
    pub fn all_at(level: u8) -> (r: FsAccess)
        ensures
            r@ == Self::spec_all_at(level),
    {
        let bits = fs_rights_of_level(level);
        let r = FsAccess { bits };
        proof {
            assert forall|x: FsRight| r@.contains(x) == Self::spec_all_at(level).contains(x) by {
                let m = x.mask();
            }
            assert(r@ =~= Self::spec_all_at(level));
        }
        r
    }
}

/// A set of network rights.
#[derive(Clone, Copy, Debug, PartialEq, Eq)]
pub struct NetAccess {
    bits: u64,
}

impl View for NetAccess {
    type V = Set<NetRight>;

    closed spec fn view(&self) -> Set<NetRight> {
        Set::new(|r: NetRight| self.bits & r.mask() != 0)
    }
}

impl NetAccess {
    #[verifier::type_invariant]
    spec fn only_known_bits(self) -> bool {
        self.bits & !NET_KNOWN_BITS == 0
    }

    /// The set as the kernel encodes it: the bit of each right it holds.
    pub closed spec fn encoding(self) -> u64 {
        self.bits
    }

    /// The set with no right in it.
    pub fn empty() -> (r: NetAccess)
        ensures
            r@ == Set::<NetRight>::empty(),
            r.encoding() == 0,
    {
        proof {
            assert(0u64 & !0x3u64 == 0) by (bit_vector);
        }
        let r = NetAccess { bits: 0 };
        proof {
            assert forall|x: NetRight| !r@.contains(x) by {
                let m = x.mask();
                assert(0u64 & m == 0) by (bit_vector);
            }
            assert(r@ =~= Set::<NetRight>::empty());
        }
        r
    }

    /// The set with `right` added.
    pub fn with(self, right: NetRight) -> (r: NetAccess)
        ensures
            r@ == self@.insert(right),
    {
        let m = right.bit();
        let bits = self.bits | m;
        proof {
            use_type_invariant(&self);
            let old_bits = self.bits;
            let i = right.index();
            assert(old_bits & !0x3u64 == 0 && i < 2 ==> (old_bits | (1u64 << i)) & !0x3u64 == 0)
                by (bit_vector);
        }
        let r = NetAccess { bits };
        proof {
            assert forall|x: NetRight| r@.contains(x) == self@.insert(right).contains(x) by {
                lemma_or_bit(self.bits, m, x.mask());
                lemma_single_bits_meet(right.index(), x.index());
            }
            assert(r@ =~= self@.insert(right));
        }
        r
    }

    /// Whether `right` is in the set.
    pub fn contains(self, right: NetRight) -> (b: bool)
        ensures
            b == self@.contains(right),
    {
        self.bits & right.bit() != 0
    }

    /// Whether the set holds no right.
    pub fn is_empty(self) -> (b: bool)
        ensures
            b == (self@ == Set::<NetRight>::empty()),
            b == (self.encoding() == 0),
    {
        proof {
            use_type_invariant(&self);
            let a = self.bits;
            if a == 0 {
                assert forall|x: NetRight| !self@.contains(x) by {
                    let m = x.mask();
                    assert(0u64 & m == 0) by (bit_vector);
                }
                assert(self@ =~= Set::<NetRight>::empty());
            } else {
                assert(a & !0x3u64 == 0 && a != 0 ==> a & (1u64 << 0) != 0 || a & (1u64 << 1) != 0)
                    by (bit_vector);
                assert(self@.contains(NetRight::BindTcp) || self@.contains(NetRight::ConnectTcp));
            }
        }
        self.bits == 0
    }

    /// The set as the kernel encodes it.
    pub fn bits(self) -> (b: u64)
        ensures
            b == self.encoding(),
            net_rights_in(b) == self@,
            b & !NET_KNOWN_BITS == 0,
    {
        proof {
            use_type_invariant(&self);
            assert(net_rights_in(self.bits) =~= self@);
        }
        self.bits
    }

    /// Every network right that the kernel knows at feature level `level`.
    pub open spec fn spec_all_at(level: u8) -> Set<NetRight> {
        Set::new(|r: NetRight| 1 <= r.introduced_at() <= level)
    }

    /// Every network right that the kernel knows at feature level `level`.
    pub fn all_at(level: u8) -> (r: NetAccess)
        ensures
            r@ == Self::spec_all_at(level),
    {
        let bits = net_rights_of_level(level);
        let r = NetAccess { bits };
        proof {
            assert forall|x: NetRight| r@.contains(x) == Self::spec_all_at(level).contains(x) by {
                let m = x.mask();
            }
            assert(r@ =~= Self::spec_all_at(level));
        }
        r
    }
}

/// What a configured path is for.
#[derive(Clone, Copy, Debug, PartialEq, Eq, Structural)]
pub enum Role {
    Read,
    Write,
    Execute,
}

/// The rights that a role stands for. Writing implies reading, since a
/// process that changes a tree must be able to list it; executing implies
/// reading the file that is run.
pub open spec fn role_rights(role: Role) -> Set<FsRight> {
    match role {
        Role::Read => set![FsRight::ReadFile, FsRight::ReadDir],
        Role::Write => set![
            FsRight::ReadFile,
            FsRight::ReadDir,
            FsRight::WriteFile,
            FsRight::RemoveFile,
            FsRight::RemoveDir,
            FsRight::MakeChar,
            FsRight::MakeDir,
            FsRight::MakeReg,
            FsRight::MakeSock,
            FsRight::MakeFifo,
            FsRight::MakeBlock,
            FsRight::MakeSym,
            FsRight::Truncate
        ],
        Role::Execute => set![FsRight::Execute, FsRight::ReadFile],
    }
}

/// The set of rights that `role` stands for.
pub fn compile_role(role: Role) -> (r: FsAccess)
    ensures
        r@ == role_rights(role),
{
    let r = match role {
        Role::Read => FsAccess::empty().with(FsRight::ReadFile).with(FsRight::ReadDir),
        Role::Write => FsAccess::empty().with(FsRight::ReadFile).with(FsRight::ReadDir).with(
            FsRight::WriteFile,
        ).with(FsRight::RemoveFile).with(FsRight::RemoveDir).with(FsRight::MakeChar).with(
            FsRight::MakeDir,
        ).with(FsRight::MakeReg).with(FsRight::MakeSock).with(FsRight::MakeFifo).with(
            FsRight::MakeBlock,
        ).with(FsRight::MakeSym).with(FsRight::Truncate),
        Role::Execute => FsAccess::empty().with(FsRight::Execute).with(FsRight::ReadFile),
    };
    assert(r@ =~= role_rights(role));
    r
}

} // verus!
