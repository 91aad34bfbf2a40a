//! Asking the kernel what it can enforce, without restricting anything.
//!
//! The probe only describes rulesets; it never creates or commits one, so it
//! can be repeated at will.

use vstd::prelude::*;
use crate::kernel::{declare_fs, declare_net, error_text, fresh_ruleset, strict};
use crate::policy::TARGET_LEVEL;
use crate::rights::{FsAccess, FsRight, NetAccess};
use crate::text::{decimal, decimal_text};

verus! {

/// The feature level from which the kernel knows network rights.
pub const NETWORK_LEVEL: u32 = 4;

/// What the kernel can enforce.
#[derive(Clone, Debug, PartialEq, Eq)]
pub struct LandlockSupport {
    /// Whether the kernel enforces rulesets at all.
    pub supported: bool,
    /// The feature level that was negotiated, at most the level that plans
    /// ask for; 0 where nothing is supported.
    pub abi_version: u32,
    /// Whether rules on ports are enforced.
    pub network_supported: bool,
    /// The same in words, with the kernel's reason where nothing is
    /// supported.
    pub message: String,
}

/// `LandlockSupport` as a mathematical value.
pub struct LandlockSupportView {
    pub supported: bool,
    pub abi_version: u32,
    pub network_supported: bool,
    pub message: Seq<char>,
}

impl View for LandlockSupport {
    type V = LandlockSupportView;

    open spec fn view(&self) -> LandlockSupportView {
        LandlockSupportView {
            supported: self.supported,
            abi_version: self.abi_version,
            network_supported: self.network_supported,
            message: self.message@,
        }
    }
}

impl LandlockSupport {
    /// The negotiated feature level, where the kernel supports any.
    pub fn feature_level(&self) -> (level: Option<u32>)
        ensures
            level == if self.supported {
                Some(self.abi_version)
            } else {
                None::<u32>
            },
    {
        if self.supported {
            Some(self.abi_version)
        } else {
            None
        }
    }

    /// Why nothing is supported, where nothing is.
    pub fn reason(&self) -> (reason: Option<String>)
        ensures
            reason is Some <==> !self.supported,
            reason is Some ==> reason->0@ == self.message@,
    {
        if self.supported {
            None
        } else {
            Some(self.message.clone())
        }
    }
}

/// What probing found.
#[derive(Clone, Debug, PartialEq, Eq)]
pub enum ProbeOutcome {
    /// The kernel rejected even the smallest declaration, for `reason`.
    Unavailable { reason: String },
    /// The kernel takes declarations, up to feature level `level`.
    Available { level: u8 },
}

/// `ProbeOutcome` as a mathematical value.
pub enum ProbeOutcomeView {
    Unavailable { reason: Seq<char> },
    Available { level: u8 },
}

impl View for ProbeOutcome {
    type V = ProbeOutcomeView;

    open spec fn view(&self) -> ProbeOutcomeView {
        match self {
            ProbeOutcome::Unavailable { reason } => ProbeOutcomeView::Unavailable { reason: reason@ },
            ProbeOutcome::Available { level } => ProbeOutcomeView::Available { level: *level },
        }
    }
}

/// The report on what probing found. Network rules count as supported
/// from `NETWORK_LEVEL` on.
pub open spec fn spec_describe_support(outcome: ProbeOutcomeView) -> LandlockSupportView {
    match outcome {
        ProbeOutcomeView::Unavailable { reason } => LandlockSupportView {
            supported: false,
            abi_version: 0,
            network_supported: false,
            message: "Landlock not available: "@ + reason,
        },
        ProbeOutcomeView::Available { level } => LandlockSupportView {
            supported: true,
            abi_version: level as u32,
            network_supported: level >= NETWORK_LEVEL,
            message: "Landlock ABI v"@ + decimal(level as nat) + " available"@ + (if level
                >= NETWORK_LEVEL {
                " (with network rules)"@
            } else {
                Seq::empty()
            }),
        },
    }
}

/// The report on what probing found.
pub fn describe_support(outcome: ProbeOutcome) -> (report: LandlockSupport)
    ensures
        report@ == spec_describe_support(outcome@),
{
    match outcome {
        ProbeOutcome::Unavailable { reason } => LandlockSupport {
            supported: false,
            abi_version: 0,
            network_supported: false,
            message: String::from_str("Landlock not available: ").concat(reason.as_str()),
        },
        ProbeOutcome::Available { level } => {
            let abi_version = level as u32;
            let network_supported = abi_version >= NETWORK_LEVEL;
            let number = decimal_text(abi_version);
            let mut message = String::from_str("Landlock ABI v").concat(number.as_str()).concat(
                " available",
            );
            if network_supported {
                message.append(" (with network rules)");
            }
            proof {
                let stem = "Landlock ABI v"@ + decimal(level as nat) + " available"@;
                assert(stem + Seq::<char>::empty() =~= stem);
            }
            LandlockSupport { supported: true, abi_version, network_supported, message }
        },
    }
}

/// The level that the answers for the levels from 2 on add up to:
/// `answers[i]` says whether the kernel takes every right of level `i + 2`.
/// It is the highest level that was answered with yes, and 1 where none
/// was, level 1 being what the smallest declaration already showed.
pub open spec fn negotiated(answers: Seq<bool>) -> nat
    decreases answers.len(),
{
    if answers.len() == 0 {
        1
    } else if answers.last() {
        answers.len() + 1
    } else {
        negotiated(answers.drop_last())
    }
}

/// The level that the answers for the levels from 2 on add up to.
pub fn negotiate(answers: &Vec<bool>) -> (level: u8)
    requires
        answers@.len() < 255,
    ensures
        level == negotiated(answers@),
        1 <= level <= answers@.len() + 1,
{
    let mut n: usize = answers.len();
    assert(answers@.take(n as int) =~= answers@);
    while n > 0
        invariant
            n <= answers@.len(),
            answers@.len() < 255,
            negotiated(answers@) == negotiated(answers@.take(n as int)),
        decreases n,
    {
        if answers[n - 1] {
            assert(answers@.take(n as int).last());
            return (n + 1) as u8;
        }
        assert(answers@.take(n as int).drop_last() =~= answers@.take(n as int - 1));
        n = n - 1;
    }
    assert(answers@.take(0).len() == 0);
    1
}

/// Whether a fresh ruleset takes every right of `level` when nothing may
/// be left out. A level without rights is not available; of any other level
/// the kernel decides.
fn level_available(level: u8) -> (available: bool)
    ensures
        available ==> level >= 1,
{
    let filesystem = FsAccess::all_at(level);
    let network = NetAccess::all_at(level);
    if filesystem.is_empty() {
        return false;
    }
    proof {
        if level == 0 {
            assert(FsAccess::spec_all_at(level) =~= Set::<FsRight>::empty());
        }
    }
    match declare_fs(strict(fresh_ruleset()), filesystem.bits()) {
        Err(_) => false,
        Ok(ruleset) => {
            if network.is_empty() {
                true
            } else {
                declare_net(ruleset, network.bits()).is_ok()
            }
        },
    }
}

/// Whether `report` says one thing in all its fields: either nothing is
/// supported, or a level between 1 and the target level is, with network
/// rules exactly from `NETWORK_LEVEL` on.
pub open spec fn report_is_sound(report: LandlockSupportView) -> bool {
    if report.supported {
        &&& 1 <= report.abi_version <= TARGET_LEVEL
        &&& report.network_supported == (report.abi_version >= NETWORK_LEVEL)
    } else {
        &&& report.abi_version == 0
        &&& !report.network_supported
    }
}

/// Asks the kernel what it can enforce. A fresh ruleset is asked to take
/// the right to write files with nothing left out; where it does, the
/// levels from 2 to the target level are tried in the same way. No ruleset
/// is created or committed, and a kernel without support is an answer, not
/// an error.
pub fn is_landlock_supported() -> (report: LandlockSupport)
    ensures
        report_is_sound(report@),
        exists|outcome: ProbeOutcomeView| report@ == #[trigger] spec_describe_support(outcome),
{
    let minimal = FsAccess::empty().with(FsRight::WriteFile);
    match declare_fs(strict(fresh_ruleset()), minimal.bits()) {
        Err(error) => {
            let outcome = ProbeOutcome::Unavailable { reason: error_text(&error) };
            let ghost found = outcome@;
            let report = describe_support(outcome);
            assert(report@ == spec_describe_support(found));
            report
        },
        Ok(_) => {
            let mut answers: Vec<bool> = Vec::new();
            let mut level: u8 = 2;
            while level <= TARGET_LEVEL
                invariant
                    2 <= level <= TARGET_LEVEL + 1,
                    answers@.len() == level - 2,
                decreases TARGET_LEVEL + 1 - level,
            {
                answers.push(level_available(level));
                level = level + 1;
            }
            let outcome = ProbeOutcome::Available { level: negotiate(&answers) };
            let ghost found = outcome@;
            let report = describe_support(outcome);
            assert(report@ == spec_describe_support(found));
            report
        },
    }
}

} // verus!
