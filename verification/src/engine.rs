//! Building a plan into a kernel ruleset and committing it.
//!
//! What the kernel answers is not known here. Each step says what holds
//! whatever it answers, and what is decided on an answer is decided by a
//! function that takes the answer as an argument.

use vstd::prelude::*;
use landlock::{PathFd, Ruleset, RulesetCreated, RulesetError};
use crate::kernel::{
    add_path_rule, add_port_rule, create_ruleset, created_fs, created_net, declare_fs,
    declare_net, declared_fs, declared_net, error_text, fresh_ruleset, open_path, restrict,
};
use crate::policy::{
    compile_policy, policy_plan, PlanView, RulesetPlan, SandboxConfig, SandboxPolicy,
    SandboxPolicyView,
};
use crate::rights::{FsAccess, FsRight, NetRight};
use crate::status::{
    interpret_status, ApplyReport, BuildNotes, BuildNotesView, EnforcementStatus, PathOutcome,
    PortOutcome, SandboxError, SandboxErrorView,
};

verus! {

/// A rule that can be attached: an open handle on a path that exists, and
/// the rights to allow beneath it, of which there is at least one.
pub struct PathRule {
    handle: PathFd,
    access: FsAccess,
}

impl PathRule {
    #[verifier::type_invariant]
    spec fn grants_something(self) -> bool {
        self.access@ != Set::<FsRight>::empty()
    }

    /// The rights that the rule allows.
    pub closed spec fn rights(self) -> Set<FsRight> {
        self.access@
    }

    /// The handle that the rule is for.
    pub closed spec fn target(self) -> PathFd {
        self.handle
    }

    /// The rights that the rule allows.
    pub fn access(&self) -> (a: FsAccess)
        ensures
            a@ == self.rights(),
            a@ != Set::<FsRight>::empty(),
    {
        proof {
            use_type_invariant(self);
        }
        self.access
    }
}

/// The rule for a path that was opened, or that was not. There is a rule
/// exactly when there is a handle and at least one right: a path that did
/// not resolve gives no rule, and so does a request for nothing.
pub fn rule_from(opened: Option<PathFd>, access: FsAccess) -> (r: Option<PathRule>)
    ensures
        r is Some <==> (opened is Some && access@ != Set::<FsRight>::empty()),
        r is Some ==> r->0.rights() == access@ && r->0.target() == opened->0,
{
    match opened {
        None => None,
        Some(handle) => {
            if access.is_empty() {
                None
            } else {
                Some(PathRule { handle, access })
            }
        },
    }
}

/// Resolves `path` to a rule that allows `access` beneath it. A path that
/// does not exist or cannot be opened gives no rule and no error.
pub fn resolve(path: &str, access: FsAccess) -> (r: Option<PathRule>)
    ensures
        r is Some ==> r->0.rights() == access@,
        access@ == Set::<FsRight>::empty() ==> r is None,
{
    rule_from(open_path(path), access)
}

/// A ruleset that the kernel holds and that is ready to be committed, with
/// what was left out of it.
pub struct KernelRuleset {
    created: RulesetCreated,
    notes: BuildNotes,
}

impl KernelRuleset {
    /// What was left out while the ruleset was built.
    pub closed spec fn notes_view(self) -> BuildNotesView {
        self.notes@
    }

    /// The filesystem rights that were declared to the kernel.
    pub closed spec fn declared_fs(self) -> Set<FsRight> {
        created_fs(self.created)
    }

    /// The network rights that were declared to the kernel.
    pub closed spec fn declared_net(self) -> Set<NetRight> {
        created_net(self.created)
    }

    /// What was left out while the ruleset was built.
    pub fn notes(&self) -> (notes: &BuildNotes)
        ensures
            notes@ == self.notes_view(),
    {
        &self.notes
    }
}

/// Whether a plan declares no family at all, so that nothing would be
/// restricted.
pub open spec fn restricts_nothing(plan: PlanView) -> bool {
    plan.handled_fs == Set::<FsRight>::empty() && plan.handled_net == Set::<NetRight>::empty()
}

/// Whether `notes` can be what was left out of `plan`: each request is
/// answered; a rule was attached only where there were rights to allow, all
/// of them declared by the plan; and the network family was given up only
/// where it had been asked for beside the filesystem family, every port
/// rule going with it.
pub open spec fn notes_fit(plan: PlanView, notes: BuildNotesView) -> bool {
    &&& notes.paths.len() == plan.paths.len()
    &&& notes.ports.len() == plan.ports.len()
    &&& forall|i: int|
        0 <= i < notes.paths.len() && #[trigger] notes.paths[i] is Attached
            ==> plan.paths[i].access != Set::<FsRight>::empty() && plan.paths[i].access.subset_of(
            plan.handled_fs,
        )
    &&& forall|i: int|
        0 <= i < notes.ports.len() && #[trigger] notes.ports[i] is Attached
            ==> plan.ports[i].access.subset_of(plan.handled_net)
    &&& notes.network_dropped is Some ==> plan.handled_net != Set::<NetRight>::empty()
        && plan.handled_fs != Set::<FsRight>::empty()
    &&& forall|i: int|
        0 <= i < notes.ports.len() ==> (#[trigger] notes.ports[i] is Skipped
            <==> notes.network_dropped is Some)
}

/// What to do once the kernel has rejected the network family with
/// `detail`: where the filesystem family is declared too, go on with it
/// alone and keep the reason; where it is not, nothing is left to enforce.
pub fn after_network_rejected(filesystem_declared: bool, detail: String) -> (r: Result<
    String,
    SandboxError,
>)
    ensures
        filesystem_declared ==> r is Ok && r->Ok_0@ == detail@,
        !filesystem_declared ==> r is Err && r->Err_0@ == (SandboxErrorView::RuleDeclaration {
            detail: detail@,
        }),
{
    if filesystem_declared {
        Ok(detail)
    } else {
        Err(SandboxError::RuleDeclaration { detail })
    }
}

/// Declares the families of `plan` on a fresh ruleset: the filesystem
/// family first, then the network family. Where the kernel rejects the
/// network family, a second fresh ruleset takes the filesystem family alone,
/// and the reason is handed back beside it.
fn declare_families(plan: &RulesetPlan) -> (r: Result<(Ruleset, Option<String>), SandboxError>)
    requires
        !restricts_nothing(plan@),
    ensures
        r is Ok && r->Ok_0.1 is Some ==> plan@.handled_net != Set::<NetRight>::empty()
            && plan@.handled_fs != Set::<FsRight>::empty(),
        r is Ok ==> declared_fs(r->Ok_0.0) == plan@.handled_fs,
        r is Ok ==> declared_net(r->Ok_0.0) == if r->Ok_0.1 is Some {
            Set::<NetRight>::empty()
        } else {
            plan@.handled_net
        },
        r is Err ==> r->Err_0 is RuleDeclaration,
{
    let filesystem = !plan.handled_fs.is_empty();
    let network = !plan.handled_net.is_empty();
    let mut ruleset = fresh_ruleset();
    if filesystem {
        match declare_fs(ruleset, plan.handled_fs.bits()) {
            Ok(declared) => {
                ruleset = declared;
            },
            Err(error) => {
                return Err(SandboxError::RuleDeclaration { detail: error_text(&error) });
            },
        }
    }
    assert(declared_fs(ruleset) =~= plan@.handled_fs);
    if !network {
        return Ok((ruleset, None));
    }
    match declare_net(ruleset, plan.handled_net.bits()) {
        Ok(declared) => {
            assert(declared_net(declared) =~= plan@.handled_net);
            Ok((declared, None))
        },
        Err(error) => {
            let reason = match after_network_rejected(filesystem, error_text(&error)) {
                Ok(reason) => reason,
                Err(fatal) => {
                    return Err(fatal);
                },
            };
            match declare_fs(fresh_ruleset(), plan.handled_fs.bits()) {
                Ok(declared) => {
                    assert(declared_fs(declared) =~= plan@.handled_fs);
                    Ok((declared, Some(reason)))
                },
                Err(error) => Err(SandboxError::RuleDeclaration { detail: error_text(&error) }),
            }
        },
    }
}

/// Hands `rule` to the kernel. A rule that allows a right which was not
/// declared on the ruleset is an error; of any other rule the kernel
/// decides. What was declared stays as it was either way.
fn attach(created: &mut RulesetCreated, rule: PathRule) -> (r: Result<(), RulesetError>)
    ensures
        created_fs(*final(created)) == created_fs(*old(created)),
        created_net(*final(created)) == created_net(*old(created)),
        !rule.rights().subset_of(created_fs(*old(created))) ==> r is Err,
{
    let bits = rule.access().bits();
    add_path_rule(created, rule.handle, bits)
}

/// Builds `plan` into a ruleset that the kernel holds. A plan that declares
/// no family fails with `NotEnforced` before the kernel is asked anything.
/// Otherwise the families are declared, the ruleset is created, and each
/// request is resolved and attached in the plan's order; a request that
/// gives no rule is noted and the build goes on. What is declared to the
/// kernel is the filesystem family of the plan, and its network family
/// unless that was given up.
pub fn build(plan: &RulesetPlan) -> (r: Result<KernelRuleset, SandboxError>)
    ensures
        restricts_nothing(plan@) ==> r is Err && r->Err_0@ == SandboxErrorView::NotEnforced,
        r is Ok ==> notes_fit(plan@, r->Ok_0.notes_view()),
        r is Ok ==> r->Ok_0.declared_fs() == plan@.handled_fs,
        r is Ok ==> r->Ok_0.declared_net() == if r->Ok_0.notes_view().network_dropped is Some {
            Set::<NetRight>::empty()
        } else {
            plan@.handled_net
        },
        r is Err && !restricts_nothing(plan@) ==> r->Err_0 is RuleDeclaration
            || r->Err_0 is RulesetCreation,
{
    if plan.handled_fs.is_empty() && plan.handled_net.is_empty() {
        return Err(SandboxError::NotEnforced);
    }
    let (ruleset, network_dropped) = match declare_families(plan) {
        Ok(declared) => declared,
        Err(error) => {
            return Err(error);
        },
    };
    let mut created = match create_ruleset(ruleset) {
        Ok(created) => created,
        Err(error) => {
            return Err(SandboxError::RulesetCreation { detail: error_text(&error) });
        },
    };
    let ghost declared = (created_fs(created), created_net(created));
    let mut paths: Vec<PathOutcome> = Vec::new();
    let mut i: usize = 0;
    while i < plan.paths.len()
        invariant
            i <= plan.paths.len(),
            paths@.len() == i,
            declared == (created_fs(created), created_net(created)),
            declared.0 == plan@.handled_fs,
            forall|j: int|
                0 <= j < i && #[trigger] paths@[j] is Attached ==> plan.paths@[j].access@
                    != Set::<FsRight>::empty() && plan.paths@[j].access@.subset_of(
                    plan@.handled_fs,
                ),
        decreases plan.paths.len() - i,
    {
        let request = &plan.paths[i];
        let outcome = match resolve(request.path.as_str(), request.access) {
            None => PathOutcome::Unresolved,
            Some(rule) => match attach(&mut created, rule) {
                Ok(()) => PathOutcome::Attached,
                Err(error) => PathOutcome::Rejected { detail: error_text(&error) },
            },
        };
        paths.push(outcome);
        i = i + 1;
    }
    let dropped = network_dropped.is_some();
    let mut ports: Vec<PortOutcome> = Vec::new();
    let mut k: usize = 0;
    while k < plan.ports.len()
        invariant
            k <= plan.ports.len(),
            ports@.len() == k,
            declared == (created_fs(created), created_net(created)),
            !dropped ==> declared.1 == plan@.handled_net,
            forall|j: int| 0 <= j < k ==> (#[trigger] ports@[j] is Skipped <==> dropped),
            forall|j: int|
                0 <= j < k && #[trigger] ports@[j] is Attached ==> plan.ports@[j].access@.subset_of(
                    plan@.handled_net,
                ),
        decreases plan.ports.len() - k,
    {
        let request = &plan.ports[k];
        let outcome = if dropped {
            PortOutcome::Skipped
        } else {
            match add_port_rule(&mut created, request.port, request.access.bits()) {
                Ok(()) => PortOutcome::Attached,
                Err(error) => PortOutcome::Rejected { detail: error_text(&error) },
            }
        };
        ports.push(outcome);
        k = k + 1;
    }
    let built = KernelRuleset { created, notes: BuildNotes { network_dropped, paths, ports } };
    proof {
        let notes = built.notes_view();
        assert forall|j: int|
            0 <= j < notes.paths.len() && #[trigger] notes.paths[j] is Attached implies plan@.paths[j].access
            != Set::<FsRight>::empty() && plan@.paths[j].access.subset_of(plan@.handled_fs) by {
            assert(paths@[j] is Attached);
        }
        assert forall|j: int|
            0 <= j < notes.ports.len() && #[trigger] notes.ports[j] is Attached implies plan@.ports[j].access.subset_of(
            plan@.handled_net,
        ) by {
            assert(ports@[j] is Attached);
        }
        assert forall|j: int| 0 <= j < notes.ports.len() implies (#[trigger] notes.ports[j] is Skipped
            <==> notes.network_dropped is Some) by {
            assert(ports@[j] is Skipped <==> dropped);
        }
    }
    Ok(built)
}

/// Commits `ruleset` to the calling thread and to what it starts later, for
/// good. An error is the kernel rejecting the call; a status of
/// `NotEnforced` is a call that went through, and is handed back as such.
pub fn apply(ruleset: KernelRuleset) -> (r: Result<ApplyReport, SandboxError>)
    ensures
        r is Ok ==> r->Ok_0@.notes == ruleset.notes_view(),
        r is Err ==> r->Err_0 is Commit,
{
    let KernelRuleset { created, notes } = ruleset;
    match restrict(created) {
        Ok(status) => Ok(ApplyReport { status, notes }),
        Err(error) => Err(SandboxError::Commit { detail: error_text(&error) }),
    }
}

/// Commits `plan`: builds it, commits what was built and passes the verdict
/// on the status.
pub fn apply_plan(plan: &RulesetPlan) -> (r: Result<ApplyReport, SandboxError>)
    ensures
        restricts_nothing(plan@) ==> r is Err && r->Err_0@ == SandboxErrorView::NotEnforced,
        r is Ok ==> r->Ok_0.status != EnforcementStatus::NotEnforced && notes_fit(
            plan@,
            r->Ok_0@.notes,
        ),
{
    let built = match build(plan) {
        Ok(built) => built,
        Err(error) => {
            return Err(error);
        },
    };
    let report = match apply(built) {
        Ok(report) => report,
        Err(error) => {
            return Err(error);
        },
    };
    interpret_status(report)
}

/// Applies `policy` to the calling thread and to what it starts later, for
/// good; `protected` is the directory that a coarse policy keeps from being
/// written to. Success means that the kernel enforces the policy, fully or
/// in part; what was left out is in the report.
pub fn apply_policy(policy: SandboxPolicy, protected: &str) -> (r: Result<ApplyReport, SandboxError>)
    ensures
        restricts_nothing(policy_plan(policy@, protected@)) ==> r is Err && r->Err_0@
            == SandboxErrorView::NotEnforced,
        r is Ok ==> r->Ok_0.status != EnforcementStatus::NotEnforced && notes_fit(
            policy_plan(policy@, protected@),
            r->Ok_0@.notes,
        ),
{
    let plan = compile_policy(&policy, protected);
    apply_plan(&plan)
}

/// Applies a granular policy to the calling thread and to what it starts
/// later, for good.
pub fn apply_sandbox(config: SandboxConfig) -> (r: Result<ApplyReport, SandboxError>)
    ensures
        r is Ok ==> r->Ok_0.status != EnforcementStatus::NotEnforced && notes_fit(
            policy_plan(SandboxPolicyView::Granular(config@), Seq::empty()),
            r->Ok_0@.notes,
        ),
{
    let r = apply_policy(SandboxPolicy::Granular(config), "");
    proof {
        reveal_strlit("");
        assert(""@ =~= Seq::<char>::empty());
    }
    r
}

} // verus!
