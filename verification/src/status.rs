//! What came of applying a plan: the status of the commit, what was left
//! out on the way, and the errors that end the operation.

use vstd::prelude::*;
use crate::policy::{PathRequestView, PlanView, PortRequestView, RulesetPlan};
use crate::text::{decimal, decimal_text};

verus! {

/// What the kernel made of a ruleset that was committed.
#[derive(Clone, Copy, Debug, PartialEq, Eq, Structural)]
pub enum EnforcementStatus {
    /// Everything that was declared is in force.
    FullyEnforced,
    /// The kernel enforces a part of what was declared.
    PartiallyEnforced,
    /// The kernel took the call and restricts nothing.
    NotEnforced,
}

/// Why applying a policy failed. Each of these ends the operation.
#[derive(Clone, Debug, PartialEq, Eq)]
pub enum SandboxError {
    /// The kernel rejected a family of rights outright, and nothing was left
    /// to go on with.
    RuleDeclaration { detail: String },
    /// The kernel rejected the ruleset itself.
    RulesetCreation { detail: String },
    /// The kernel rejected the commit.
    Commit { detail: String },
    /// The commit went through and restricts nothing.
    NotEnforced,
}

/// `SandboxError` as a mathematical value.
pub enum SandboxErrorView {
    RuleDeclaration { detail: Seq<char> },
    RulesetCreation { detail: Seq<char> },
    Commit { detail: Seq<char> },
    NotEnforced,
}

impl SandboxErrorView {
    /// The error in words.
    pub open spec fn text(self) -> Seq<char> {
        match self {
            SandboxErrorView::RuleDeclaration { detail } => "failed to declare access rights: "@
                + detail,
            SandboxErrorView::RulesetCreation { detail } => "failed to create ruleset: "@ + detail,
            SandboxErrorView::Commit { detail } => "failed to apply sandbox: "@ + detail,
            SandboxErrorView::NotEnforced => "sandbox could not be enforced"@,
        }
    }
}

impl View for SandboxError {
    type V = SandboxErrorView;

    open spec fn view(&self) -> SandboxErrorView {
        match self {
            SandboxError::RuleDeclaration { detail } => SandboxErrorView::RuleDeclaration {
                detail: detail@,
            },
            SandboxError::RulesetCreation { detail } => SandboxErrorView::RulesetCreation {
                detail: detail@,
            },
            SandboxError::Commit { detail } => SandboxErrorView::Commit { detail: detail@ },
            SandboxError::NotEnforced => SandboxErrorView::NotEnforced,
        }
    }
}

impl SandboxError {
    /// The error in words.
    pub fn message(&self) -> (s: String)
        ensures
            s@ == self@.text(),
    {
        match self {
            SandboxError::RuleDeclaration { detail } => String::from_str(
                "failed to declare access rights: ",
            ).concat(detail.as_str()),
            SandboxError::RulesetCreation { detail } => String::from_str(
                "failed to create ruleset: ",
            ).concat(detail.as_str()),
            SandboxError::Commit { detail } => String::from_str("failed to apply sandbox: ").concat(
                detail.as_str(),
            ),
            SandboxError::NotEnforced => String::from_str("sandbox could not be enforced"),
        }
    }
}

/// What became of one path request.
#[derive(Clone, Debug, PartialEq, Eq)]
pub enum PathOutcome {
    /// The rule was handed to the kernel.
    Attached,
    /// The path did not resolve, or no right was asked for: no rule.
    Unresolved,
    /// The kernel rejected the rule: no rule.
    Rejected { detail: String },
}

/// `PathOutcome` as a mathematical value.
pub enum PathOutcomeView {
    Attached,
    Unresolved,
    Rejected { detail: Seq<char> },
}

impl View for PathOutcome {
    type V = PathOutcomeView;

    open spec fn view(&self) -> PathOutcomeView {
        match self {
            PathOutcome::Attached => PathOutcomeView::Attached,
            PathOutcome::Unresolved => PathOutcomeView::Unresolved,
            PathOutcome::Rejected { detail } => PathOutcomeView::Rejected { detail: detail@ },
        }
    }
}

/// What became of one port request.
#[derive(Clone, Debug, PartialEq, Eq)]
pub enum PortOutcome {
    /// The rule was handed to the kernel.
    Attached,
    /// The network family was given up, and the rule with it: no rule.
    Skipped,
    /// The kernel rejected the rule: no rule.
    Rejected { detail: String },
}

/// `PortOutcome` as a mathematical value.
pub enum PortOutcomeView {
    Attached,
    Skipped,
    Rejected { detail: Seq<char> },
}

impl View for PortOutcome {
    type V = PortOutcomeView;

    open spec fn view(&self) -> PortOutcomeView {
        match self {
            PortOutcome::Attached => PortOutcomeView::Attached,
            PortOutcome::Skipped => PortOutcomeView::Skipped,
            PortOutcome::Rejected { detail } => PortOutcomeView::Rejected { detail: detail@ },
        }
    }
}

/// What was left out while a plan was built into a ruleset. `paths` and
/// `ports` answer the plan's requests one for one, in the plan's order.
#[derive(Clone, Debug, PartialEq, Eq)]
pub struct BuildNotes {
    /// Why the network family was given up, where it was.
    pub network_dropped: Option<String>,
    pub paths: Vec<PathOutcome>,
    pub ports: Vec<PortOutcome>,
}

/// `BuildNotes` as a mathematical value.
pub struct BuildNotesView {
    pub network_dropped: Option<Seq<char>>,
    pub paths: Seq<PathOutcomeView>,
    pub ports: Seq<PortOutcomeView>,
}

/// The values of a sequence of path outcomes.
pub open spec fn path_outcome_views(s: Seq<PathOutcome>) -> Seq<PathOutcomeView> {
    Seq::new(s.len(), |i: int| s[i]@)
}

/// The values of a sequence of port outcomes.
pub open spec fn port_outcome_views(s: Seq<PortOutcome>) -> Seq<PortOutcomeView> {
    Seq::new(s.len(), |i: int| s[i]@)
}

impl View for BuildNotes {
    type V = BuildNotesView;

    open spec fn view(&self) -> BuildNotesView {
        BuildNotesView {
            network_dropped: match self.network_dropped {
                None => None,
                Some(detail) => Some(detail@),
            },
            paths: path_outcome_views(self.paths@),
            ports: port_outcome_views(self.ports@),
        }
    }
}

/// A ruleset that was committed: what the kernel made of it, and what had
/// been left out of it.
#[derive(Clone, Debug, PartialEq, Eq)]
pub struct ApplyReport {
    pub status: EnforcementStatus,
    pub notes: BuildNotes,
}

/// `ApplyReport` as a mathematical value.
pub struct ApplyReportView {
    pub status: EnforcementStatus,
    pub notes: BuildNotesView,
}

impl View for ApplyReport {
    type V = ApplyReportView;

    open spec fn view(&self) -> ApplyReportView {
        ApplyReportView { status: self.status, notes: self.notes@ }
    }
}

/// The result of applying a policy, as a mathematical value.
pub open spec fn verdict_view(r: Result<ApplyReport, SandboxError>) -> Result<
    ApplyReportView,
    SandboxErrorView,
> {
    match r {
        Ok(report) => Ok(report@),
        Err(error) => Err(error@),
    }
}

/// The verdict on a commit that the kernel took: a status of `NotEnforced`
/// fails the operation, either of the others stands as it is.
pub open spec fn spec_interpret_status(report: ApplyReportView) -> Result<
    ApplyReportView,
    SandboxErrorView,
> {
    match report.status {
        EnforcementStatus::NotEnforced => Err(SandboxErrorView::NotEnforced),
        _ => Ok(report),
    }
}

/// The verdict on a commit that the kernel took. A sandbox that restricts
/// nothing is an error, never a success.
pub fn interpret_status(report: ApplyReport) -> (r: Result<ApplyReport, SandboxError>)
    ensures
        verdict_view(r) == spec_interpret_status(report@),
{
    match report.status {
        EnforcementStatus::NotEnforced => Err(SandboxError::NotEnforced),
        _ => Ok(report),
    }
}

/// Something that the caller should be told and that does not fail the
/// operation.
#[derive(Clone, Debug, PartialEq, Eq)]
pub enum Advisory {
    /// The kernel rejected the network family; the filesystem is restricted,
    /// the network is not.
    NetworkDropped { detail: String },
    /// A path did not resolve and got no rule.
    PathUnresolved { path: String },
    /// The kernel rejected the rule for a path.
    PathRejected { path: String, detail: String },
    /// The kernel rejected the rule for a port.
    PortRejected { port: u16, detail: String },
    /// The kernel enforces a part of what was declared.
    PartialEnforcement,
}

/// `Advisory` as a mathematical value.
pub enum AdvisoryView {
    NetworkDropped { detail: Seq<char> },
    PathUnresolved { path: Seq<char> },
    PathRejected { path: Seq<char>, detail: Seq<char> },
    PortRejected { port: u16, detail: Seq<char> },
    PartialEnforcement,
}

impl AdvisoryView {
    /// The advisory in words.
    pub open spec fn text(self) -> Seq<char> {
        match self {
            AdvisoryView::NetworkDropped { detail } => "network rules are not available, the network stays open: "@
                + detail,
            AdvisoryView::PathUnresolved { path } => "path does not resolve, no rule added: "@ + path,
            AdvisoryView::PathRejected { path, detail } => "could not add rule for "@ + path + ": "@
                + detail,
            AdvisoryView::PortRejected { port, detail } => "could not add rule for port "@ + decimal(
                port as nat,
            ) + ": "@ + detail,
            AdvisoryView::PartialEnforcement => "sandbox: partially enforced (some rules may not be active)"@,
        }
    }
}

impl View for Advisory {
    type V = AdvisoryView;

    open spec fn view(&self) -> AdvisoryView {
        match self {
            Advisory::NetworkDropped { detail } => AdvisoryView::NetworkDropped { detail: detail@ },
            Advisory::PathUnresolved { path } => AdvisoryView::PathUnresolved { path: path@ },
            Advisory::PathRejected { path, detail } => AdvisoryView::PathRejected {
                path: path@,
                detail: detail@,
            },
            Advisory::PortRejected { port, detail } => AdvisoryView::PortRejected {
                port: *port,
                detail: detail@,
            },
            Advisory::PartialEnforcement => AdvisoryView::PartialEnforcement,
        }
    }
}

impl Advisory {
    /// The advisory in words.
    pub fn message(&self) -> (s: String)
        ensures
            s@ == self@.text(),
    {
        match self {
            Advisory::NetworkDropped { detail } => String::from_str(
                "network rules are not available, the network stays open: ",
            ).concat(detail.as_str()),
            Advisory::PathUnresolved { path } => String::from_str(
                "path does not resolve, no rule added: ",
            ).concat(path.as_str()),
            Advisory::PathRejected { path, detail } => String::from_str(
                "could not add rule for ",
            ).concat(path.as_str()).concat(": ").concat(detail.as_str()),
            Advisory::PortRejected { port, detail } => {
                let number = decimal_text(*port as u32);
                String::from_str("could not add rule for port ").concat(number.as_str()).concat(
                    ": ",
                ).concat(detail.as_str())
            },
            Advisory::PartialEnforcement => String::from_str(
                "sandbox: partially enforced (some rules may not be active)",
            ),
        }
    }
}

/// The values of a sequence of advisories.
pub open spec fn advisory_views(s: Seq<Advisory>) -> Seq<AdvisoryView> {
    Seq::new(s.len(), |i: int| s[i]@)
}

/// What is to be said of one path request, given what became of it.
pub open spec fn path_advisory(request: PathRequestView, outcome: PathOutcomeView) -> Seq<
    AdvisoryView,
> {
    match outcome {
        PathOutcomeView::Attached => Seq::empty(),
        PathOutcomeView::Unresolved => seq![AdvisoryView::PathUnresolved { path: request.path }],
        PathOutcomeView::Rejected { detail } => seq![
            AdvisoryView::PathRejected { path: request.path, detail },
        ],
    }
}

/// What is to be said of one port request, given what became of it. Of a
/// rule that went with the network family nothing is said: the family is
/// spoken of once.
pub open spec fn port_advisory(request: PortRequestView, outcome: PortOutcomeView) -> Seq<
    AdvisoryView,
> {
    match outcome {
        PortOutcomeView::Attached => Seq::empty(),
        PortOutcomeView::Skipped => Seq::empty(),
        PortOutcomeView::Rejected { detail } => seq![
            AdvisoryView::PortRejected { port: request.port, detail },
        ],
    }
}

/// What is to be said of the first `n` path requests, in their order.
pub open spec fn path_advisories(
    requests: Seq<PathRequestView>,
    outcomes: Seq<PathOutcomeView>,
    n: nat,
) -> Seq<AdvisoryView>
    recommends
        n <= requests.len(),
        n <= outcomes.len(),
    decreases n,
{
    if n == 0 {
        Seq::empty()
    } else {
        path_advisories(requests, outcomes, (n - 1) as nat) + path_advisory(
            requests[n - 1],
            outcomes[n - 1],
        )
    }
}

/// What is to be said of the first `n` port requests, in their order.
pub open spec fn port_advisories(
    requests: Seq<PortRequestView>,
    outcomes: Seq<PortOutcomeView>,
    n: nat,
) -> Seq<AdvisoryView>
    recommends
        n <= requests.len(),
        n <= outcomes.len(),
    decreases n,
{
    if n == 0 {
        Seq::empty()
    } else {
        port_advisories(requests, outcomes, (n - 1) as nat) + port_advisory(
            requests[n - 1],
            outcomes[n - 1],
        )
    }
}

/// The smaller of two lengths.
pub open spec fn shorter(a: nat, b: nat) -> nat {
    if a <= b {
        a
    } else {
        b
    }
}

/// Everything that the caller should be told of a policy that was applied:
/// the network family given up, then each request that got no rule, paths
/// before ports and each in the plan's order, then a status short of full
/// enforcement. Requests and outcomes are paired as far as both reach.
pub open spec fn spec_advisories(plan: PlanView, report: ApplyReportView) -> Seq<AdvisoryView> {
    (match report.notes.network_dropped {
        None => Seq::empty(),
        Some(detail) => seq![AdvisoryView::NetworkDropped { detail }],
    }) + path_advisories(
        plan.paths,
        report.notes.paths,
        shorter(plan.paths.len(), report.notes.paths.len()),
    ) + port_advisories(
        plan.ports,
        report.notes.ports,
        shorter(plan.ports.len(), report.notes.ports.len()),
    ) + (if report.status == EnforcementStatus::PartiallyEnforced {
        seq![AdvisoryView::PartialEnforcement]
    } else {
        Seq::empty()
    })
}

/// Everything that the caller should be told of a policy that was applied.
pub fn advisories(plan: &RulesetPlan, report: &ApplyReport) -> (out: Vec<Advisory>)
    ensures
        advisory_views(out@) == spec_advisories(plan@, report@),
{
    let mut out: Vec<Advisory> = Vec::new();
    match &report.notes.network_dropped {
        None => {},
        Some(detail) => {
            out.push(Advisory::NetworkDropped { detail: detail.clone() });
        },
    }
    let ghost head = advisory_views(out@);
    assert(head =~= match report@.notes.network_dropped {
        None => Seq::empty(),
        Some(detail) => seq![AdvisoryView::NetworkDropped { detail }],
    });
    let n = if plan.paths.len() <= report.notes.paths.len() {
        plan.paths.len()
    } else {
        report.notes.paths.len()
    };
    let mut i: usize = 0;
    while i < n
        invariant
            i <= n,
            n <= plan.paths@.len(),
            n <= report.notes.paths@.len(),
            advisory_views(out@) == head + path_advisories(
                plan@.paths,
                report@.notes.paths,
                i as nat,
            ),
        decreases n - i,
    {
        let ghost before = advisory_views(out@);
        let ghost said = path_advisories(plan@.paths, report@.notes.paths, i as nat);
        let ghost step = path_advisory(plan@.paths[i as int], report@.notes.paths[i as int]);
        match &report.notes.paths[i] {
            PathOutcome::Attached => {},
            PathOutcome::Unresolved => {
                out.push(Advisory::PathUnresolved { path: plan.paths[i].path.clone() });
            },
            PathOutcome::Rejected { detail } => {
                out.push(
                    Advisory::PathRejected {
                        path: plan.paths[i].path.clone(),
                        detail: detail.clone(),
                    },
                );
            },
        }
        proof {
            assert(advisory_views(out@) =~= before + step);
            assert((head + said) + step =~= head + (said + step));
        }
        i = i + 1;
    }
    let ghost mid = advisory_views(out@);
    let m = if plan.ports.len() <= report.notes.ports.len() {
        plan.ports.len()
    } else {
        report.notes.ports.len()
    };
    let mut j: usize = 0;
    while j < m
        invariant
            j <= m,
            m <= plan.ports@.len(),
            m <= report.notes.ports@.len(),
            advisory_views(out@) == mid + port_advisories(
                plan@.ports,
                report@.notes.ports,
                j as nat,
            ),
        decreases m - j,
    {
        let ghost before = advisory_views(out@);
        let ghost said = port_advisories(plan@.ports, report@.notes.ports, j as nat);
        let ghost step = port_advisory(plan@.ports[j as int], report@.notes.ports[j as int]);
        match &report.notes.ports[j] {
            PortOutcome::Attached => {},
            PortOutcome::Skipped => {},
            PortOutcome::Rejected { detail } => {
                out.push(Advisory::PortRejected { port: plan.ports[j].port, detail: detail.clone() });
            },
        }
        proof {
            assert(advisory_views(out@) =~= before + step);
            assert((mid + said) + step =~= mid + (said + step));
        }
        j = j + 1;
    }
    let ghost before = advisory_views(out@);
    if report.status == EnforcementStatus::PartiallyEnforced {
        out.push(Advisory::PartialEnforcement);
        assert(advisory_views(out@) =~= before + seq![AdvisoryView::PartialEnforcement]);
    } else {
        assert(before + Seq::<AdvisoryView>::empty() =~= before);
    }
    out
}

/// Where a thread stands with respect to its sandbox. There is no way back
/// to `Unrestricted`, and the last three states are final.
#[derive(Clone, Copy, Debug, PartialEq, Eq, Structural)]
pub enum SandboxState {
    /// No policy has been applied.
    Unrestricted,
    /// A policy is being applied.
    Restricting,
    /// A policy is in force as it was declared.
    FullyEnforced,
    /// A part of a policy is in force.
    PartiallyEnforced,
    /// Applying a policy failed; what the thread may do is as it was.
    Failed,
}

impl SandboxState {
    /// Whether the state is one of the three that end an operation.
    pub open spec fn is_final(self) -> bool {
        self is FullyEnforced || self is PartiallyEnforced || self is Failed
    }

    /// The state once applying a policy has begun. Only a thread without
    /// restrictions begins; any other state stays.
    pub open spec fn spec_begin(self) -> SandboxState {
        match self {
            SandboxState::Unrestricted => SandboxState::Restricting,
            other => other,
        }
    }

    /// The state once applying a policy has ended with `verdict`. Only a
    /// thread that is being restricted settles; any other state stays.
    pub open spec fn spec_settle(
        self,
        verdict: Result<ApplyReportView, SandboxErrorView>,
    ) -> SandboxState {
        match self {
            SandboxState::Restricting => match verdict {
                Ok(report) => match report.status {
                    EnforcementStatus::FullyEnforced => SandboxState::FullyEnforced,
                    EnforcementStatus::PartiallyEnforced => SandboxState::PartiallyEnforced,
                    EnforcementStatus::NotEnforced => SandboxState::Failed,
                },
                Err(_) => SandboxState::Failed,
            },
            other => other,
        }
    }

    /// The state once applying a policy has begun.
    pub fn begin(self) -> (next: SandboxState)
        ensures
            next == self.spec_begin(),
    {
        match self {
            SandboxState::Unrestricted => SandboxState::Restricting,
            other => other,
        }
    }

    /// The state once applying a policy has ended with `verdict`.
    pub fn settle(self, verdict: &Result<ApplyReport, SandboxError>) -> (next: SandboxState)
        ensures
            next == self.spec_settle(verdict_view(*verdict)),
    {
        match self {
            SandboxState::Restricting => match verdict {
                Ok(report) => match report.status {
                    EnforcementStatus::FullyEnforced => SandboxState::FullyEnforced,
                    EnforcementStatus::PartiallyEnforced => SandboxState::PartiallyEnforced,
                    EnforcementStatus::NotEnforced => SandboxState::Failed,
                },
                Err(_) => SandboxState::Failed,
            },
            other => other,
        }
    }
}

/// No step leads back: a state other than `Unrestricted` is never followed
/// by `Unrestricted`, and a final state is followed by itself.
pub proof fn law_no_way_back(state: SandboxState, verdict: Result<ApplyReportView, SandboxErrorView>)
    ensures
        !(state is Unrestricted) ==> !(state.spec_begin() is Unrestricted) && !(state.spec_settle(
            verdict,
        ) is Unrestricted),
        !(state.spec_begin() is Unrestricted),
        state.is_final() ==> state.spec_begin() == state && state.spec_settle(verdict) == state,
{
}

/// Applying a policy from a thread without restrictions ends in a final
/// state, and in `Failed` exactly when the verdict is an error or reports
/// that nothing is enforced.
pub proof fn law_apply_ends_final(verdict: Result<ApplyReportView, SandboxErrorView>)
    ensures
        SandboxState::Unrestricted.spec_begin().spec_settle(verdict).is_final(),
        SandboxState::Unrestricted.spec_begin().spec_settle(verdict) is Failed <==> (verdict is Err
            || verdict->Ok_0.status == EnforcementStatus::NotEnforced),
{
}

} // verus!
