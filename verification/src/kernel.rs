//! The boundary to the `landlock` crate. Every function here is believed, not
//! proved: each doc comment says what is claimed of the outside code.

use vstd::prelude::*;
use landlock::{
    Access, AccessFs, AccessNet, BitFlags, CompatLevel, Compatible, NetPort, PathBeneath, PathFd,
    Ruleset, RulesetAttr, RulesetCreated, RulesetCreatedAttr, RulesetError, RulesetStatus, ABI,
};
use crate::rights::{FsRight, NetRight};
use crate::status::EnforcementStatus;

verus! {

/// The bits that stand for a filesystem right in the kernel's encoding.
pub const FS_KNOWN_BITS: u64 = 0x1_FFFF;

/// The bits that stand for a network right in the kernel's encoding.
pub const NET_KNOWN_BITS: u64 = 0x3;

/// Calls `landlock::AccessFs::from_all` for the feature level `level`, which
/// `landlock::ABI::from` turns into an ABI version, and hands back the bits of
/// the set it returns.
///
/// Claimed: the set holds exactly the filesystem rights that were introduced
/// at a level between 1 and `level`, each at its own bit, and no other bit.
#[verifier::external_body]
pub(crate) fn fs_rights_of_level(level: u8) -> (bits: u64)
    ensures
        bits & !FS_KNOWN_BITS == 0,
        forall|r: FsRight| (bits & #[trigger] r.mask() != 0) <==> (1 <= r.introduced_at() <= level),
{
    AccessFs::from_all(ABI::from(i32::from(level))).bits()
}

/// Calls `landlock::AccessNet::from_all` for the feature level `level`, which
/// `landlock::ABI::from` turns into an ABI version, and hands back the bits of
/// the set it returns.
///
/// Claimed: the set holds exactly the network rights that were introduced at
/// a level between 1 and `level`, each at its own bit, and no other bit.
#[verifier::external_body]
pub(crate) fn net_rights_of_level(level: u8) -> (bits: u64)
    ensures
        bits & !NET_KNOWN_BITS == 0,
        forall|r: NetRight| (bits & #[trigger] r.mask() != 0) <==> (1 <= r.introduced_at() <= level),
{
    AccessNet::from_all(ABI::from(i32::from(level))).bits()
}

/// `landlock::Ruleset`: a ruleset that is being described and that the kernel
/// has not seen yet.
#[verifier::external_type_specification]
#[verifier::external_body]
pub struct ExRuleset(landlock::Ruleset);

/// `landlock::RulesetCreated`: a ruleset that the kernel holds and that rules
/// can be attached to.
#[verifier::external_type_specification]
#[verifier::external_body]
pub struct ExRulesetCreated(landlock::RulesetCreated);

/// `landlock::RulesetError`: why a call on a ruleset failed.
#[verifier::external_type_specification]
#[verifier::external_body]
pub struct ExRulesetError(landlock::RulesetError);

/// `landlock::PathFd`: an open handle on a file or directory.
#[verifier::external_type_specification]
#[verifier::external_body]
pub struct ExPathFd(landlock::PathFd);

/// The filesystem rights that have been declared on a `landlock::Ruleset`:
/// what its field `requested_handled_fs` holds. This is what was asked for,
/// whether or not the kernel knows every right of it.
pub uninterp spec fn declared_fs(ruleset: Ruleset) -> Set<FsRight>;

/// The network rights that have been declared on a `landlock::Ruleset`: what
/// its field `requested_handled_net` holds.
pub uninterp spec fn declared_net(ruleset: Ruleset) -> Set<NetRight>;

/// The filesystem rights that were declared on the ruleset that a
/// `landlock::RulesetCreated` was created from: what its field
/// `requested_handled_fs` holds.
pub uninterp spec fn created_fs(created: RulesetCreated) -> Set<FsRight>;

/// The network rights that were declared on the ruleset that a
/// `landlock::RulesetCreated` was created from: what its field
/// `requested_handled_net` holds.
pub uninterp spec fn created_net(created: RulesetCreated) -> Set<NetRight>;

/// The filesystem rights whose bits are set in `bits`.
pub open spec fn fs_rights_in(bits: u64) -> Set<FsRight> {
    Set::new(|r: FsRight| bits & r.mask() != 0)
}

/// The network rights whose bits are set in `bits`.
pub open spec fn net_rights_in(bits: u64) -> Set<NetRight> {
    Set::new(|r: NetRight| bits & r.mask() != 0)
}

/// Calls `landlock::Ruleset::default`, which asks the kernel for its feature
/// level and changes nothing.
///
/// Claimed: no right is declared on the result.
#[verifier::external_body]
pub(crate) fn fresh_ruleset() -> (fresh: Ruleset)
    ensures
        declared_fs(fresh) == Set::<FsRight>::empty(),
        declared_net(fresh) == Set::<NetRight>::empty(),
{
    Ruleset::default()
}

/// Calls `landlock::Compatible::set_compatibility` with
/// `CompatLevel::HardRequirement`: from then on a right that the kernel does
/// not know is an error where it would have been left out.
///
/// Claimed: what is declared stays as it was.
#[verifier::external_body]
pub(crate) fn strict(ruleset: Ruleset) -> (same: Ruleset)
    ensures
        declared_fs(same) == declared_fs(ruleset),
        declared_net(same) == declared_net(ruleset),
{
    ruleset.set_compatibility(CompatLevel::HardRequirement)
}

/// Calls `landlock::RulesetAttr::handle_access` with the filesystem rights
/// whose bits are set in `bits`.
///
/// Claimed: where the call succeeds, those rights are declared beside what
/// was declared before, and the network rights are as they were. Nothing is
/// claimed of when it succeeds.
#[verifier::external_body]
pub(crate) fn declare_fs(ruleset: Ruleset, bits: u64) -> (r: Result<Ruleset, RulesetError>)
    ensures
        r is Ok ==> declared_fs(r->Ok_0) == declared_fs(ruleset).union(fs_rights_in(bits)),
        r is Ok ==> declared_net(r->Ok_0) == declared_net(ruleset),
{
    ruleset.handle_access(BitFlags::<AccessFs>::from_bits_truncate(bits))
}

/// Calls `landlock::RulesetAttr::handle_access` with the network rights whose
/// bits are set in `bits`.
///
/// Claimed: where the call succeeds, those rights are declared beside what
/// was declared before, and the filesystem rights are as they were. Nothing
/// is claimed of when it succeeds.
#[verifier::external_body]
pub(crate) fn declare_net(ruleset: Ruleset, bits: u64) -> (r: Result<Ruleset, RulesetError>)
    ensures
        r is Ok ==> declared_net(r->Ok_0) == declared_net(ruleset).union(net_rights_in(bits)),
        r is Ok ==> declared_fs(r->Ok_0) == declared_fs(ruleset),
{
    ruleset.handle_access(BitFlags::<AccessNet>::from_bits_truncate(bits))
}

/// Calls `landlock::Ruleset::create`, which hands the description to the
/// kernel.
///
/// Claimed: where the call succeeds, the result carries what was declared.
/// Nothing is claimed of when it succeeds.
#[verifier::external_body]
pub(crate) fn create_ruleset(ruleset: Ruleset) -> (r: Result<RulesetCreated, RulesetError>)
    ensures
        r is Ok ==> created_fs(r->Ok_0) == declared_fs(ruleset),
        r is Ok ==> created_net(r->Ok_0) == declared_net(ruleset),
{
    ruleset.create()
}

/// Calls `landlock::PathFd::new`, which opens `path` without reading it, and
/// drops the reason where that fails. Nothing is claimed of the result.
#[verifier::external_body]
pub(crate) fn open_path(path: &str) -> Option<PathFd> {
    PathFd::new(path).ok()
}

/// Calls `landlock::RulesetCreatedAttr::add_rule` with a
/// `landlock::PathBeneath` made of `handle` and the filesystem rights whose
/// bits are set in `bits`.
///
/// Claimed: what was declared stays as it was, whether the call succeeds or
/// not; and the call fails where the rule allows a right that was not
/// declared, which `add_rule` tests before anything else. Nothing is claimed
/// of when it succeeds, nor of the rules that the kernel holds after the
/// call.
#[verifier::external_body]
pub(crate) fn add_path_rule(created: &mut RulesetCreated, handle: PathFd, bits: u64) -> (r: Result<
    (),
    RulesetError,
>)
    ensures
        created_fs(*final(created)) == created_fs(*old(created)),
        created_net(*final(created)) == created_net(*old(created)),
        !fs_rights_in(bits).subset_of(created_fs(*old(created))) ==> r is Err,
{
    created.add_rule(PathBeneath::new(handle, BitFlags::<AccessFs>::from_bits_truncate(bits))).map(
        |_| (),
    )
}

/// Calls `landlock::RulesetCreatedAttr::add_rule` with a `landlock::NetPort`
/// made of `port` and the network rights whose bits are set in `bits`.
///
/// Claimed: what was declared stays as it was, whether the call succeeds or
/// not; and the call fails where the rule allows a right that was not
/// declared, which `add_rule` tests before anything else. Nothing is claimed
/// of when it succeeds, nor of the rules that the kernel holds after the
/// call.
#[verifier::external_body]
pub(crate) fn add_port_rule(created: &mut RulesetCreated, port: u16, bits: u64) -> (r: Result<
    (),
    RulesetError,
>)
    ensures
        created_fs(*final(created)) == created_fs(*old(created)),
        created_net(*final(created)) == created_net(*old(created)),
        !net_rights_in(bits).subset_of(created_net(*old(created))) ==> r is Err,
{
    created.add_rule(NetPort::new(port, BitFlags::<AccessNet>::from_bits_truncate(bits))).map(|_| ())
}

/// Calls `landlock::RulesetCreated::restrict_self`, which binds the calling
/// thread and what it starts later to the ruleset, for good, and hands back
/// the `ruleset` field of the status, variant for variant. Nothing is claimed
/// of the result.
#[verifier::external_body]
pub(crate) fn restrict(created: RulesetCreated) -> Result<EnforcementStatus, RulesetError> {
    match created.restrict_self()?.ruleset {
        RulesetStatus::FullyEnforced => Ok(EnforcementStatus::FullyEnforced),
        RulesetStatus::PartiallyEnforced => Ok(EnforcementStatus::PartiallyEnforced),
        RulesetStatus::NotEnforced => Ok(EnforcementStatus::NotEnforced),
    }
}

/// Calls `to_string` on a `landlock::RulesetError`, which formats it as its
/// `Display` impl does. Nothing is claimed of the text.
#[verifier::external_body]
pub(crate) fn error_text(error: &RulesetError) -> String {
    error.to_string()
}

} // verus!
