//! What a plan means, and what is proved of the plans that policies compile
//! to.
//!
//! The kernel denies a right that was declared unless a rule allows it, and
//! allows a right that was not declared. Paths are compared by their text,
//! as `covers` does.

use vstd::prelude::*;
use crate::policy::{
    coarse_plan, connect_requests, covers, granular_plan, leaves_out, operational_paths,
    policy_plan, requests_for, writable_paths, write_family, FsConfigView, PathRequestView,
    PlanView, PortRequestView, SandboxConfigView, SandboxPolicyView, TARGET_LEVEL,
};
use crate::rights::{role_rights, FsRight, NetRight, Role};
use crate::status::{
    spec_interpret_status, ApplyReportView, BuildNotesView, EnforcementStatus, SandboxErrorView,
};

verus! {

/// Whether some rule for exactly `path` allows `right`.
pub open spec fn grants(rules: Seq<PathRequestView>, path: Seq<char>, right: FsRight) -> bool {
    exists|i: int|
        0 <= i < rules.len() && (#[trigger] rules[i]).path == path && rules[i].access.contains(
            right,
        )
}

/// The rights that the rules for exactly `path` allow, taken together.
pub open spec fn granted(rules: Seq<PathRequestView>, path: Seq<char>) -> Set<FsRight> {
    Set::new(|right: FsRight| grants(rules, path, right))
}

/// Whether a list names `path`.
pub open spec fn lists(list: Option<Seq<Seq<char>>>, path: Seq<char>) -> bool {
    list is Some && list->0.contains(path)
}

/// The rights of `role` where `list` names `path`, none where it does not.
pub open spec fn rights_where_listed(list: Option<Seq<Seq<char>>>, role: Role, path: Seq<char>) -> Set<
    FsRight,
> {
    if lists(list, path) {
        role_rights(role)
    } else {
        Set::empty()
    }
}

/// Whether `right` may be used on `path` once the rules are in force:
/// either the right was not declared, or a rule for `path` or for a
/// directory above it allows the right.
pub open spec fn permits(
    handled: Set<FsRight>,
    rules: Seq<PathRequestView>,
    path: Seq<char>,
    right: FsRight,
) -> bool {
    !handled.contains(right) || exists|i: int|
        0 <= i < rules.len() && covers((#[trigger] rules[i]).path, path)
            && rules[i].access.contains(right)
}

/// Whether `right` may be used on `path` when only the rules that were
/// attached are in force.
pub open spec fn permits_attached(
    plan: PlanView,
    notes: BuildNotesView,
    path: Seq<char>,
    right: FsRight,
) -> bool {
    !plan.handled_fs.contains(right) || exists|i: int|
        0 <= i < plan.paths.len() && i < notes.paths.len() && notes.paths[i] is Attached && covers(
            (#[trigger] plan.paths[i]).path,
            path,
        ) && plan.paths[i].access.contains(right)
}

/// Whether `right` may be used on `port` once the rules are in force.
pub open spec fn permits_port(
    handled: Set<NetRight>,
    rules: Seq<PortRequestView>,
    port: u16,
    right: NetRight,
) -> bool {
    !handled.contains(right) || exists|i: int|
        0 <= i < rules.len() && (#[trigger] rules[i]).port == port && rules[i].access.contains(
            right,
        )
}

proof fn lemma_requests_grant(
    list: Option<Seq<Seq<char>>>,
    role: Role,
    path: Seq<char>,
    right: FsRight,
)
    ensures
        grants(requests_for(list, role), path, right) <==> rights_where_listed(
            list,
            role,
            path,
        ).contains(right),
{
    let rules = requests_for(list, role);
    if grants(rules, path, right) {
        let i = choose|i: int|
            0 <= i < rules.len() && (#[trigger] rules[i]).path == path && rules[i].access.contains(
                right,
            );
        assert(list->0[i] == path);
    }
    if rights_where_listed(list, role, path).contains(right) {
        let i = choose|i: int| 0 <= i < list->0.len() && list->0[i] == path;
        assert(rules[i].path == path && rules[i].access.contains(right));
    }
}

proof fn lemma_grants_of_both(
    a: Seq<PathRequestView>,
    b: Seq<PathRequestView>,
    path: Seq<char>,
    right: FsRight,
)
    ensures
        grants(a + b, path, right) <==> grants(a, path, right) || grants(b, path, right),
{
    let both = a + b;
    if grants(both, path, right) {
        let i = choose|i: int|
            0 <= i < both.len() && (#[trigger] both[i]).path == path && both[i].access.contains(
                right,
            );
        if i < a.len() {
            assert(a[i].path == path && a[i].access.contains(right));
        } else {
            assert(b[i - a.len()].path == path && b[i - a.len()].access.contains(right));
        }
    }
    if grants(a, path, right) {
        let i = choose|i: int|
            0 <= i < a.len() && (#[trigger] a[i]).path == path && a[i].access.contains(right);
        assert(both[i].path == path && both[i].access.contains(right));
    }
    if grants(b, path, right) {
        let i = choose|i: int|
            0 <= i < b.len() && (#[trigger] b[i]).path == path && b[i].access.contains(right);
        assert(both[i + a.len()].path == path && both[i + a.len()].access.contains(right));
    }
}

/// The list of a role in a granular policy.
pub open spec fn list_of(fs: FsConfigView, role: Role) -> Option<Seq<Seq<char>>> {
    match role {
        Role::Read => fs.read,
        Role::Write => fs.write,
        Role::Execute => fs.execute,
    }
}

/// Whether a granular policy lists, under a role that has `right`, `path`
/// or a directory above it.
pub open spec fn allowed_by_lists(config: SandboxConfigView, path: Seq<char>, right: FsRight) -> bool {
    config.fs is Some && exists|role: Role, dir: Seq<char>|
        #![trigger lists(list_of(config.fs->0, role), dir)]
        lists(list_of(config.fs->0, role), dir) && covers(dir, path) && role_rights(role).contains(
            right,
        )
}

/// The rules of a granular policy give a path exactly the union of the
/// rights of the roles under which it is listed: no right is missing from
/// that union, and none is added to it. With no filesystem lists there is
/// no rule.
pub proof fn law_roles_compose(config: SandboxConfigView, path: Seq<char>)
    ensures
        granted(granular_plan(config).paths, path) == match config.fs {
            None => Set::<FsRight>::empty(),
            Some(fs) => rights_where_listed(fs.read, Role::Read, path).union(
                rights_where_listed(fs.write, Role::Write, path),
            ).union(rights_where_listed(fs.execute, Role::Execute, path)),
        },
{
    let rules = granular_plan(config).paths;
    match config.fs {
        None => {
            assert(granted(rules, path) =~= Set::<FsRight>::empty());
        },
        Some(fs) => {
            let read = requests_for(fs.read, Role::Read);
            let write = requests_for(fs.write, Role::Write);
            let execute = requests_for(fs.execute, Role::Execute);
            let wanted = rights_where_listed(fs.read, Role::Read, path).union(
                rights_where_listed(fs.write, Role::Write, path),
            ).union(rights_where_listed(fs.execute, Role::Execute, path));
            assert forall|right: FsRight| granted(rules, path).contains(right) == wanted.contains(
                right,
            ) by {
                lemma_grants_of_both(read + write, execute, path, right);
                lemma_grants_of_both(read, write, path, right);
                lemma_requests_grant(fs.read, Role::Read, path, right);
                lemma_requests_grant(fs.write, Role::Write, path, right);
                lemma_requests_grant(fs.execute, Role::Execute, path, right);
            }
            assert(granted(rules, path) =~= wanted);
        },
    }
}

/// Whether some rule for `path` or for a directory above it allows `right`.
pub open spec fn reaches(rules: Seq<PathRequestView>, path: Seq<char>, right: FsRight) -> bool {
    exists|i: int|
        0 <= i < rules.len() && covers((#[trigger] rules[i]).path, path)
            && rules[i].access.contains(right)
}

proof fn lemma_requests_reach(
    list: Option<Seq<Seq<char>>>,
    role: Role,
    path: Seq<char>,
    right: FsRight,
)
    ensures
        reaches(requests_for(list, role), path, right) <==> (exists|dir: Seq<char>|
            #[trigger] lists(list, dir) && covers(dir, path) && role_rights(role).contains(right)),
{
    let rules = requests_for(list, role);
    if reaches(rules, path, right) {
        let i = choose|i: int|
            0 <= i < rules.len() && covers((#[trigger] rules[i]).path, path)
                && rules[i].access.contains(right);
        assert(list->0[i] == rules[i].path);
        assert(lists(list, rules[i].path));
    }
    if exists|dir: Seq<char>|
        #[trigger] lists(list, dir) && covers(dir, path) && role_rights(role).contains(right) {
        let dir = choose|dir: Seq<char>|
            #[trigger] lists(list, dir) && covers(dir, path) && role_rights(role).contains(right);
        let i = choose|i: int| 0 <= i < list->0.len() && list->0[i] == dir;
        assert(covers(rules[i].path, path) && rules[i].access.contains(right));
    }
}

proof fn lemma_reaches_of_both(
    a: Seq<PathRequestView>,
    b: Seq<PathRequestView>,
    path: Seq<char>,
    right: FsRight,
)
    ensures
        reaches(a + b, path, right) <==> reaches(a, path, right) || reaches(b, path, right),
{
    let both = a + b;
    if reaches(both, path, right) {
        let i = choose|i: int|
            0 <= i < both.len() && covers((#[trigger] both[i]).path, path)
                && both[i].access.contains(right);
        if i < a.len() {
            assert(covers(a[i].path, path) && a[i].access.contains(right));
        } else {
            assert(covers(b[i - a.len()].path, path) && b[i - a.len()].access.contains(right));
        }
    }
    if reaches(a, path, right) {
        let i = choose|i: int|
            0 <= i < a.len() && covers((#[trigger] a[i]).path, path) && a[i].access.contains(right);
        assert(covers(both[i].path, path) && both[i].access.contains(right));
    }
    if reaches(b, path, right) {
        let i = choose|i: int|
            0 <= i < b.len() && covers((#[trigger] b[i]).path, path) && b[i].access.contains(right);
        assert(covers(both[i + a.len()].path, path) && both[i + a.len()].access.contains(right));
    }
}

/// Under a granular policy a right of the target level may be used on a
/// path exactly when the path, or a directory above it, is listed under a
/// role that has the right. So what is created beneath a listed write path
/// is allowed, and the same beneath a directory next to it is not. A right
/// beyond the target level is not declared and stays allowed.
pub proof fn law_granular_permits(config: SandboxConfigView, path: Seq<char>, right: FsRight)
    ensures
        permits(granular_plan(config).handled_fs, granular_plan(config).paths, path, right) <==> (
        right.introduced_at() > TARGET_LEVEL || allowed_by_lists(config, path, right)),
{
    let plan = granular_plan(config);
    assert(plan.handled_fs.contains(right) <==> right.introduced_at() <= TARGET_LEVEL);
    assert(reaches(plan.paths, path, right) <==> allowed_by_lists(config, path, right)) by {
        match config.fs {
            None => {},
            Some(fs) => {
                let read = requests_for(fs.read, Role::Read);
                let write = requests_for(fs.write, Role::Write);
                let execute = requests_for(fs.execute, Role::Execute);
                lemma_reaches_of_both(read + write, execute, path, right);
                lemma_reaches_of_both(read, write, path, right);
                lemma_requests_reach(fs.read, Role::Read, path, right);
                lemma_requests_reach(fs.write, Role::Write, path, right);
                lemma_requests_reach(fs.execute, Role::Execute, path, right);
                if allowed_by_lists(config, path, right) {
                    let (role, dir) = choose|role: Role, dir: Seq<char>|
                        #![trigger lists(list_of(fs, role), dir)]
                        lists(list_of(fs, role), dir) && covers(dir, path) && role_rights(
                            role,
                        ).contains(right);
                    assert(lists(list_of(fs, role), dir));
                }
                if reaches(read, path, right) {
                    let dir = choose|dir: Seq<char>|
                        #[trigger] lists(fs.read, dir) && covers(dir, path) && role_rights(
                            Role::Read,
                        ).contains(right);
                    assert(lists(list_of(fs, Role::Read), dir));
                }
                if reaches(write, path, right) {
                    let dir = choose|dir: Seq<char>|
                        #[trigger] lists(fs.write, dir) && covers(dir, path) && role_rights(
                            Role::Write,
                        ).contains(right);
                    assert(lists(list_of(fs, Role::Write), dir));
                }
                if reaches(execute, path, right) {
                    let dir = choose|dir: Seq<char>|
                        #[trigger] lists(fs.execute, dir) && covers(dir, path) && role_rights(
                            Role::Execute,
                        ).contains(right);
                    assert(lists(list_of(fs, Role::Execute), dir));
                }
            },
        }
    }
}

/// Under a granular policy a right may be used on a port exactly when the
/// policy does not speak of the network, or the right is to connect and the
/// port is listed.
pub proof fn law_granular_permits_port(config: SandboxConfigView, port: u16, right: NetRight)
    ensures
        permits_port(granular_plan(config).handled_net, granular_plan(config).ports, port, right)
            <==> (config.net is None || (right == NetRight::ConnectTcp
            && config.net->0.connect_ports is Some && config.net->0.connect_ports->0.contains(
            port,
        ))),
{
    let plan = granular_plan(config);
    match config.net {
        None => {},
        Some(net) => {
            assert(plan.handled_net.contains(right));
            let rules = connect_requests(net.connect_ports);
            if exists|i: int|
                0 <= i < rules.len() && (#[trigger] rules[i]).port == port
                    && rules[i].access.contains(right) {
                let i = choose|i: int|
                    0 <= i < rules.len() && (#[trigger] rules[i]).port == port
                        && rules[i].access.contains(right);
                assert(net.connect_ports->0[i] == port);
            }
            if right == NetRight::ConnectTcp && net.connect_ports is Some
                && net.connect_ports->0.contains(port) {
                let i = choose|i: int|
                    0 <= i < net.connect_ports->0.len() && net.connect_ports->0[i] == port;
                assert(rules[i].port == port && rules[i].access.contains(right));
            }
        },
    }
}

proof fn lemma_filter_keeps_members<A>(s: Seq<A>, pred: spec_fn(A) -> bool, i: int)
    requires
        0 <= i < s.filter(pred).len(),
    ensures
        s.contains(s.filter(pred)[i]),
        pred(s.filter(pred)[i]),
    decreases s.len(),
{
    reveal(Seq::filter);
    if s.len() > 0 {
        let front = s.drop_last();
        let kept = front.filter(pred);
        if i < kept.len() {
            lemma_filter_keeps_members(front, pred, i);
            let j = choose|j: int| 0 <= j < front.len() && front[j] == kept[i];
            assert(s[j] == kept[i]);
        } else {
            assert(s[s.len() - 1] == s.last());
        }
    }
}

/// Under a coarse policy a right may be used on a path exactly when the
/// policy is not read-only, or the right is not one that only writing
/// needs, or the path lies at or beneath an operational path that does not
/// cover the protected directory.
pub proof fn law_coarse_permits(
    readonly: bool,
    network: bool,
    protected: Seq<char>,
    path: Seq<char>,
    right: FsRight,
)
    ensures
        permits(
            coarse_plan(readonly, network, protected).handled_fs,
            coarse_plan(readonly, network, protected).paths,
            path,
            right,
        ) <==> (!readonly || !write_family().contains(right) || exists|dir: Seq<char>|
            #[trigger] operational_paths().contains(dir) && !covers(dir, protected) && covers(
                dir,
                path,
            )),
{
    let plan = coarse_plan(readonly, network, protected);
    if readonly && write_family().contains(right) {
        let kept = writable_paths(protected);
        let rules = plan.paths;
        if exists|i: int|
            0 <= i < rules.len() && covers((#[trigger] rules[i]).path, path)
                && rules[i].access.contains(right) {
            let i = choose|i: int|
                0 <= i < rules.len() && covers((#[trigger] rules[i]).path, path)
                    && rules[i].access.contains(right);
            lemma_filter_keeps_members(operational_paths(), leaves_out(protected), i);
            assert(rules[i].path == kept[i]);
            assert(operational_paths().contains(kept[i]));
        }
        if exists|dir: Seq<char>|
            #[trigger] operational_paths().contains(dir) && !covers(dir, protected) && covers(
                dir,
                path,
            ) {
            let dir = choose|dir: Seq<char>|
                #[trigger] operational_paths().contains(dir) && !covers(dir, protected) && covers(
                    dir,
                    path,
                );
            let j = choose|j: int| 0 <= j < operational_paths().len() && operational_paths()[j] == dir;
            operational_paths().lemma_filter_contains(leaves_out(protected), j);
            let i = choose|i: int| 0 <= i < kept.len() && kept[i] == dir;
            assert(covers(rules[i].path, path) && rules[i].access.contains(right));
        }
    }
}

/// Under a read-only coarse policy no right that only writing needs may be
/// used on the protected directory: no rule reaches it.
pub proof fn law_protected_is_not_writable(network: bool, protected: Seq<char>, right: FsRight)
    requires
        write_family().contains(right),
    ensures
        !permits(
            coarse_plan(true, network, protected).handled_fs,
            coarse_plan(true, network, protected).paths,
            protected,
            right,
        ),
{
    law_coarse_permits(true, network, protected, protected, right);
}

/// Under a read-only coarse policy every right that only writing needs may
/// be used at and beneath each operational path that does not cover the
/// protected directory.
pub proof fn law_operational_paths_stay_writable(
    network: bool,
    protected: Seq<char>,
    dir: Seq<char>,
    path: Seq<char>,
    right: FsRight,
)
    requires
        operational_paths().contains(dir),
        !covers(dir, protected),
        covers(dir, path),
    ensures
        permits(
            coarse_plan(true, network, protected).handled_fs,
            coarse_plan(true, network, protected).paths,
            path,
            right,
        ),
{
    law_coarse_permits(true, network, protected, path, right);
}

/// Under a coarse policy a network right may be used on a port exactly
/// when the policy leaves the network open: with the network blocked, no
/// port can be bound or connected to.
pub proof fn law_coarse_permits_port(
    readonly: bool,
    network: bool,
    protected: Seq<char>,
    port: u16,
    right: NetRight,
)
    ensures
        permits_port(
            coarse_plan(readonly, network, protected).handled_net,
            coarse_plan(readonly, network, protected).ports,
            port,
            right,
        ) <==> network,
{
    let plan = coarse_plan(readonly, network, protected);
    if !network {
        assert(plan.handled_net.contains(right));
    }
}

/// Leaving rules out never widens what is allowed: what may be done with
/// the rules that were attached may be done with all the rules of the plan.
pub proof fn law_omission_never_widens(
    plan: PlanView,
    notes: BuildNotesView,
    path: Seq<char>,
    right: FsRight,
)
    ensures
        permits_attached(plan, notes, path, right) ==> permits(
            plan.handled_fs,
            plan.paths,
            path,
            right,
        ),
{
    if permits_attached(plan, notes, path, right) && plan.handled_fs.contains(right) {
        let i = choose|i: int|
            0 <= i < plan.paths.len() && i < notes.paths.len() && notes.paths[i] is Attached
                && covers((#[trigger] plan.paths[i]).path, path) && plan.paths[i].access.contains(
                right,
            );
        assert(covers(plan.paths[i].path, path) && plan.paths[i].access.contains(right));
    }
}

/// A request that got no rule allows nothing: where none of the requests
/// that reach a path was attached, a right that was declared may not be
/// used on the path.
pub proof fn law_unattached_requests_allow_nothing(
    plan: PlanView,
    notes: BuildNotesView,
    path: Seq<char>,
    right: FsRight,
)
    requires
        plan.handled_fs.contains(right),
        forall|i: int|
            0 <= i < plan.paths.len() && i < notes.paths.len() && covers(
                (#[trigger] plan.paths[i]).path,
                path,
            ) ==> !(notes.paths[i] is Attached),
    ensures
        !permits_attached(plan, notes, path, right),
{
}

/// Every rule that a policy asks for allows at least one right, and only
/// rights of the family that the plan declares: the kernel has no reason to
/// reject it for what it asks.
pub proof fn law_requests_within_declared(policy: SandboxPolicyView, protected: Seq<char>)
    ensures
        forall|i: int|
            0 <= i < policy_plan(policy, protected).paths.len() ==> {
                let request = #[trigger] policy_plan(policy, protected).paths[i];
                request.access != Set::<FsRight>::empty() && request.access.subset_of(
                    policy_plan(policy, protected).handled_fs,
                )
            },
        forall|i: int|
            0 <= i < policy_plan(policy, protected).ports.len() ==> {
                let request = #[trigger] policy_plan(policy, protected).ports[i];
                request.access != Set::<NetRight>::empty() && request.access.subset_of(
                    policy_plan(policy, protected).handled_net,
                )
            },
{
    let plan = policy_plan(policy, protected);
    assert forall|i: int| 0 <= i < plan.paths.len() implies {
        let request = #[trigger] plan.paths[i];
        request.access != Set::<FsRight>::empty() && request.access.subset_of(plan.handled_fs)
    } by {
        let request = plan.paths[i];
        assert(role_rights(Role::Read).contains(FsRight::ReadFile));
        assert(role_rights(Role::Write).contains(FsRight::WriteFile));
        assert(role_rights(Role::Execute).contains(FsRight::Execute));
        assert(write_family().contains(FsRight::WriteFile));
        match policy {
            SandboxPolicyView::Coarse { readonly, network } => {
                assert(request.access == write_family());
            },
            SandboxPolicyView::Granular(config) => {
                let fs = config.fs->0;
                let read = requests_for(fs.read, Role::Read);
                let write = requests_for(fs.write, Role::Write);
                if i < read.len() {
                    assert(request.access == role_rights(Role::Read));
                } else if i < read.len() + write.len() {
                    assert(request.access == role_rights(Role::Write));
                } else {
                    assert(request.access == role_rights(Role::Execute));
                }
            },
        }
    }
    assert forall|i: int| 0 <= i < plan.ports.len() implies {
        let request = #[trigger] plan.ports[i];
        request.access != Set::<NetRight>::empty() && request.access.subset_of(plan.handled_net)
    } by {
        let request = plan.ports[i];
        assert(request.access.contains(NetRight::ConnectTcp));
    }
}

/// A commit that restricts nothing always fails the operation, whatever was
/// noted on the way; any other status stands as it was reported.
pub proof fn law_not_enforced_is_fatal(report: ApplyReportView)
    ensures
        report.status == EnforcementStatus::NotEnforced ==> spec_interpret_status(report) == Err::<
            ApplyReportView,
            SandboxErrorView,
        >(SandboxErrorView::NotEnforced),
        report.status != EnforcementStatus::NotEnforced ==> spec_interpret_status(report) == Ok::<
            ApplyReportView,
            SandboxErrorView,
        >(report),
{
}

} // verus!
