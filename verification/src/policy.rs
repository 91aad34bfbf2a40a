//! Policies and what they compile to.
//!
//! A policy is either coarse (two switches) or granular (allow-lists by
//! role). Compiling one gives a plan: the right families to declare to the
//! kernel and the rules to attach, as plain values. Nothing here touches the
//! kernel.

use vstd::prelude::*;
use crate::rights::{compile_role, role_rights, FsAccess, FsRight, NetAccess, NetRight, Role};

verus! {

/// The feature level whose rights a plan asks for. A kernel that knows fewer
/// enforces what it knows.
pub const TARGET_LEVEL: u8 = 5;

/// Allow-lists of paths, by role. A list that is absent adds no rule.
#[derive(Clone, Debug, PartialEq, Eq)]
pub struct FsConfig {
    /// Paths that may be read.
    pub read: Option<Vec<String>>,
    /// Paths that may be written, and therefore read.
    pub write: Option<Vec<String>>,
    /// Paths that may be executed, and therefore read as files.
    pub execute: Option<Vec<String>>,
}

/// Allow-list of ports. A list that is absent adds no rule.
#[derive(Clone, Debug, PartialEq, Eq)]
pub struct NetConfig {
    /// Ports to which a TCP connection may be opened.
    pub connect_ports: Option<Vec<u16>>,
}

/// A granular policy. With `fs` absent no path is allowed; with `net` absent
/// the network is left alone.
#[derive(Clone, Debug, PartialEq, Eq)]
pub struct SandboxConfig {
    pub fs: Option<FsConfig>,
    pub net: Option<NetConfig>,
}

/// A policy in either of its two shapes.
#[derive(Clone, Debug, PartialEq, Eq)]
pub enum SandboxPolicy {
    /// `readonly` blocks writing everywhere but under the operational paths
    /// that do not hold the protected directory; `network` set to `false`
    /// blocks the network.
    Coarse { readonly: bool, network: bool },
    /// Explicit allow-lists.
    Granular(SandboxConfig),
}

/// `FsConfig` as a mathematical value.
pub struct FsConfigView {
    pub read: Option<Seq<Seq<char>>>,
    pub write: Option<Seq<Seq<char>>>,
    pub execute: Option<Seq<Seq<char>>>,
}

/// `NetConfig` as a mathematical value.
pub struct NetConfigView {
    pub connect_ports: Option<Seq<u16>>,
}

/// `SandboxConfig` as a mathematical value.
pub struct SandboxConfigView {
    pub fs: Option<FsConfigView>,
    pub net: Option<NetConfigView>,
}

/// `SandboxPolicy` as a mathematical value.
pub enum SandboxPolicyView {
    Coarse { readonly: bool, network: bool },
    Granular(SandboxConfigView),
}

/// The texts of a sequence of strings.
pub open spec fn texts(v: Seq<String>) -> Seq<Seq<char>> {
    Seq::new(v.len(), |i: int| v[i]@)
}

/// The texts of a list of strings that may be absent.
pub open spec fn listed_texts(list: Option<Vec<String>>) -> Option<Seq<Seq<char>>> {
    match list {
        None => None,
        Some(v) => Some(texts(v@)),
    }
}

impl View for FsConfig {
    type V = FsConfigView;

    open spec fn view(&self) -> FsConfigView {
        FsConfigView {
            read: listed_texts(self.read),
            write: listed_texts(self.write),
            execute: listed_texts(self.execute),
        }
    }
}

impl View for NetConfig {
    type V = NetConfigView;

    open spec fn view(&self) -> NetConfigView {
        NetConfigView {
            connect_ports: match self.connect_ports {
                None => None,
                Some(v) => Some(v@),
            },
        }
    }
}

impl View for SandboxConfig {
    type V = SandboxConfigView;

    open spec fn view(&self) -> SandboxConfigView {
        SandboxConfigView {
            fs: match self.fs {
                None => None,
                Some(fs) => Some(fs@),
            },
            net: match self.net {
                None => None,
                Some(net) => Some(net@),
            },
        }
    }
}

impl View for SandboxPolicy {
    type V = SandboxPolicyView;

    open spec fn view(&self) -> SandboxPolicyView {
        match self {
            SandboxPolicy::Coarse { readonly, network } => SandboxPolicyView::Coarse {
                readonly: *readonly,
                network: *network,
            },
            SandboxPolicy::Granular(config) => SandboxPolicyView::Granular(config@),
        }
    }
}

/// A rule that is asked for: `access` beneath `path`, if the path resolves.
#[derive(Clone, Debug, PartialEq, Eq)]
pub struct PathRequest {
    pub path: String,
    pub access: FsAccess,
}

/// `PathRequest` as a mathematical value.
pub struct PathRequestView {
    pub path: Seq<char>,
    pub access: Set<FsRight>,
}

impl View for PathRequest {
    type V = PathRequestView;

    open spec fn view(&self) -> PathRequestView {
        PathRequestView { path: self.path@, access: self.access@ }
    }
}

/// A rule that is asked for: `access` on `port`.
#[derive(Clone, Debug, PartialEq, Eq)]
pub struct PortRequest {
    pub port: u16,
    pub access: NetAccess,
}

/// `PortRequest` as a mathematical value.
pub struct PortRequestView {
    pub port: u16,
    pub access: Set<NetRight>,
}

impl View for PortRequest {
    type V = PortRequestView;

    open spec fn view(&self) -> PortRequestView {
        PortRequestView { port: self.port, access: self.access@ }
    }
}

/// What a policy compiles to: the families to declare and the rules to
/// attach. A family that is empty is not declared.
#[derive(Clone, Debug, PartialEq, Eq)]
pub struct RulesetPlan {
    pub handled_fs: FsAccess,
    pub handled_net: NetAccess,
    pub paths: Vec<PathRequest>,
    pub ports: Vec<PortRequest>,
}

/// `RulesetPlan` as a mathematical value.
pub struct PlanView {
    pub handled_fs: Set<FsRight>,
    pub handled_net: Set<NetRight>,
    pub paths: Seq<PathRequestView>,
    pub ports: Seq<PortRequestView>,
}

/// The values of a sequence of path requests.
pub open spec fn path_request_views(s: Seq<PathRequest>) -> Seq<PathRequestView> {
    Seq::new(s.len(), |i: int| s[i]@)
}

/// The values of a sequence of port requests.
pub open spec fn port_request_views(s: Seq<PortRequest>) -> Seq<PortRequestView> {
    Seq::new(s.len(), |i: int| s[i]@)
}

impl View for RulesetPlan {
    type V = PlanView;

    open spec fn view(&self) -> PlanView {
        PlanView {
            handled_fs: self.handled_fs@,
            handled_net: self.handled_net@,
            paths: path_request_views(self.paths@),
            ports: port_request_views(self.ports@),
        }
    }
}

/// The rights that only writing needs: those of the write role that the read
/// role does not have.
pub open spec fn write_family() -> Set<FsRight> {
    role_rights(Role::Write).difference(role_rights(Role::Read))
}

/// The places that a process needs to write to in order to work at all:
/// temporary storage, device nodes, variable state, runtime state, the home
/// directories and the home of root.
pub open spec fn operational_paths() -> Seq<Seq<char>> {
    seq!["/tmp"@, "/dev"@, "/var"@, "/run"@, "/home"@, "/root"@]
}

/// Whether `path` is `dir` or lies beneath it, going by the text of the two:
/// `dir` is a prefix of `path` that ends where a component of `path` ends.
/// Both are taken as absolute paths without `.` and `..`.
pub open spec fn covers(dir: Seq<char>, path: Seq<char>) -> bool {
    &&& dir.len() > 0
    &&& dir.is_prefix_of(path)
    &&& (dir.len() == path.len() || dir.last() == '/' || path[dir.len() as int] == '/')
}

/// One request for each path of a list, with the rights of `role`.
pub open spec fn requests_for(list: Option<Seq<Seq<char>>>, role: Role) -> Seq<PathRequestView> {
    match list {
        None => Seq::empty(),
        Some(paths) => Seq::new(
            paths.len(),
            |i: int| PathRequestView { path: paths[i], access: role_rights(role) },
        ),
    }
}

/// One request for each port of a list, to connect.
pub open spec fn connect_requests(list: Option<Seq<u16>>) -> Seq<PortRequestView> {
    match list {
        None => Seq::empty(),
        Some(ports) => Seq::new(
            ports.len(),
            |i: int| PortRequestView { port: ports[i], access: set![NetRight::ConnectTcp] },
        ),
    }
}

/// The plan of a granular policy: every filesystem right of the target level
/// is declared, and each listed path gets the rights of its role, the read
/// list first, then the write list, then the execute list. The network
/// family is declared only where the policy speaks of the network, and each
/// listed port may then be connected to.
pub open spec fn granular_plan(config: SandboxConfigView) -> PlanView {
    PlanView {
        handled_fs: FsAccess::spec_all_at(TARGET_LEVEL),
        handled_net: match config.net {
            None => Set::empty(),
            Some(_) => NetAccess::spec_all_at(TARGET_LEVEL),
        },
        paths: match config.fs {
            None => Seq::empty(),
            Some(fs) => requests_for(fs.read, Role::Read) + requests_for(fs.write, Role::Write)
                + requests_for(fs.execute, Role::Execute),
        },
        ports: match config.net {
            None => Seq::empty(),
            Some(net) => connect_requests(net.connect_ports),
        },
    }
}

/// The operational paths that may stay writable while `protected` is not:
/// those that do not cover it, in their order.
pub open spec fn writable_paths(protected: Seq<char>) -> Seq<Seq<char>> {
    operational_paths().filter(leaves_out(protected))
}

/// The test that a directory does not cover `protected`.
pub open spec fn leaves_out(protected: Seq<char>) -> spec_fn(Seq<char>) -> bool {
    |dir: Seq<char>| !covers(dir, protected)
}

/// The request that makes a directory writable.
pub open spec fn writable() -> spec_fn(Seq<char>) -> PathRequestView {
    |dir: Seq<char>| PathRequestView { path: dir, access: write_family() }
}

/// The plan of a coarse policy. With `readonly`, the rights that only
/// writing needs are declared, and allowed again beneath each operational
/// path that does not cover `protected`; reading is left alone. Unless
/// `network` is set, the network family is declared and no port is allowed.
pub open spec fn coarse_plan(readonly: bool, network: bool, protected: Seq<char>) -> PlanView {
    PlanView {
        handled_fs: if readonly {
            write_family()
        } else {
            Set::empty()
        },
        handled_net: if network {
            Set::empty()
        } else {
            NetAccess::spec_all_at(TARGET_LEVEL)
        },
        paths: if readonly {
            writable_paths(protected).map_values(writable())
        } else {
            Seq::empty()
        },
        ports: Seq::empty(),
    }
}

/// The plan of a policy, with `protected` as the directory that a coarse
/// policy keeps from being written to.
pub open spec fn policy_plan(policy: SandboxPolicyView, protected: Seq<char>) -> PlanView {
    match policy {
        SandboxPolicyView::Coarse { readonly, network } => coarse_plan(readonly, network, protected),
        SandboxPolicyView::Granular(config) => granular_plan(config),
    }
}

/// Whether `path` is `dir` or lies beneath it, going by the text of the two.
pub fn path_covers(dir: &str, path: &str) -> (b: bool)
    ensures
        b == covers(dir@, path@),
{
    let n = dir.unicode_len();
    let m = path.unicode_len();
    if n == 0 || n > m {
        return false;
    }
    let mut i: usize = 0;
    while i < n
        invariant
            n == dir@.len(),
            m == path@.len(),
            0 < n <= m,
            i <= n,
            forall|j: int| 0 <= j < i ==> dir@[j] == path@[j],
        decreases n - i,
    {
        if dir.get_char(i) != path.get_char(i) {
            return false;
        }
        i = i + 1;
    }
    assert(dir@ =~= path@.subrange(0, n as int));
    if n == m {
        return true;
    }
    dir.get_char(n - 1) == '/' || path.get_char(n) == '/'
}

/// The rights that only writing needs.
pub fn write_family_access() -> (r: FsAccess)
    ensures
        r@ == write_family(),
{
    let r = FsAccess::empty().with(FsRight::WriteFile).with(FsRight::RemoveFile).with(
        FsRight::RemoveDir,
    ).with(FsRight::MakeChar).with(FsRight::MakeDir).with(FsRight::MakeReg).with(
        FsRight::MakeSock,
    ).with(FsRight::MakeFifo).with(FsRight::MakeBlock).with(FsRight::MakeSym).with(
        FsRight::Truncate,
    );
    assert(r@ =~= write_family());
    r
}

/// One request for each path of `list`, with the rights of `role`.
fn requests_of(list: &Option<Vec<String>>, role: Role) -> (out: Vec<PathRequest>)
    ensures
        path_request_views(out@) == requests_for(listed_texts(*list), role),
{
    let mut out: Vec<PathRequest> = Vec::new();
    match list {
        None => {
            assert(path_request_views(out@) =~= requests_for(listed_texts(*list), role));
        },
        Some(paths) => {
            let access = compile_role(role);
            let mut i: usize = 0;
            while i < paths.len()
                invariant
                    i <= paths.len(),
                    access@ == role_rights(role),
                    out@.len() == i,
                    forall|j: int|
                        0 <= j < i ==> (#[trigger] out@[j])@ == (PathRequestView {
                            path: paths@[j]@,
                            access: role_rights(role),
                        }),
                decreases paths.len() - i,
            {
                out.push(PathRequest { path: paths[i].clone(), access });
                i = i + 1;
            }
            assert(path_request_views(out@) =~= requests_for(listed_texts(*list), role));
        },
    }
    out
}

/// The request that allows a TCP connection to `port`, and nothing else on
/// that port.
pub fn connect_request(port: u16) -> (request: PortRequest)
    ensures
        request@ == (PortRequestView { port, access: set![NetRight::ConnectTcp] }),
{
    let access = NetAccess::empty().with(NetRight::ConnectTcp);
    assert(access@ =~= set![NetRight::ConnectTcp]);
    PortRequest { port, access }
}

/// One request for each port of `list`, to connect.
fn connect_requests_of(list: &Option<Vec<u16>>) -> (out: Vec<PortRequest>)
    ensures
        port_request_views(out@) == connect_requests(
            match *list {
                None => None,
                Some(v) => Some(v@),
            },
        ),
{
    let mut out: Vec<PortRequest> = Vec::new();
    match list {
        None => {
            assert(port_request_views(out@) =~= Seq::<PortRequestView>::empty());
        },
        Some(ports) => {
            let mut i: usize = 0;
            while i < ports.len()
                invariant
                    i <= ports.len(),
                    out@.len() == i,
                    forall|j: int|
                        0 <= j < i ==> (#[trigger] out@[j])@ == (PortRequestView {
                            port: ports@[j],
                            access: set![NetRight::ConnectTcp],
                        }),
                decreases ports.len() - i,
            {
                out.push(connect_request(ports[i]));
                i = i + 1;
            }
            assert(port_request_views(out@) =~= connect_requests(Some(ports@)));
        },
    }
    out
}

/// The plan of a granular policy.
pub fn compile_granular(config: &SandboxConfig) -> (plan: RulesetPlan)
    ensures
        plan@ == granular_plan(config@),
{
    let handled_fs = FsAccess::all_at(TARGET_LEVEL);
    let mut paths: Vec<PathRequest> = Vec::new();
    match &config.fs {
        None => {},
        Some(fs) => {
            let mut read = requests_of(&fs.read, Role::Read);
            let mut write = requests_of(&fs.write, Role::Write);
            let mut execute = requests_of(&fs.execute, Role::Execute);
            paths.append(&mut read);
            paths.append(&mut write);
            paths.append(&mut execute);
        },
    }
    let (handled_net, ports) = match &config.net {
        None => (NetAccess::empty(), Vec::new()),
        Some(net) => (NetAccess::all_at(TARGET_LEVEL), connect_requests_of(&net.connect_ports)),
    };
    let plan = RulesetPlan { handled_fs, handled_net, paths, ports };
    proof {
        assert(plan@.paths =~= granular_plan(config@).paths);
        assert(plan@.ports =~= granular_plan(config@).ports);
    }
    plan
}

/// The operational paths, as strings.
fn operational_path_list() -> (list: Vec<String>)
    ensures
        texts(list@) == operational_paths(),
{
    let mut list: Vec<String> = Vec::new();
    list.push(String::from_str("/tmp"));
    list.push(String::from_str("/dev"));
    list.push(String::from_str("/var"));
    list.push(String::from_str("/run"));
    list.push(String::from_str("/home"));
    list.push(String::from_str("/root"));
    assert(texts(list@) =~= operational_paths());
    list
}

/// The plan of a coarse policy that keeps `protected` from being written to.
pub fn compile_coarse(readonly: bool, network: bool, protected: &str) -> (plan: RulesetPlan)
    ensures
        plan@ == coarse_plan(readonly, network, protected@),
{
    let handled_net = if network {
        NetAccess::empty()
    } else {
        NetAccess::all_at(TARGET_LEVEL)
    };
    let mut paths: Vec<PathRequest> = Vec::new();
    let handled_fs = if readonly {
        let access = write_family_access();
        let dirs = operational_path_list();
        let ghost keep = leaves_out(protected@);
        let ghost request = writable();
        let mut i: usize = 0;
        while i < dirs.len()
            invariant
                i <= dirs.len(),
                access@ == write_family(),
                keep == leaves_out(protected@),
                request == writable(),
                path_request_views(paths@) == texts(dirs@).take(i as int).filter(keep).map_values(
                    request,
                ),
            decreases dirs.len() - i,
        {
            let ghost before = texts(dirs@).take(i as int);
            let ghost kept = before.filter(keep);
            proof {
                assert(texts(dirs@).take(i as int + 1) =~= before.push(dirs@[i as int]@));
                assert(before.push(dirs@[i as int]@) =~= before + seq![dirs@[i as int]@]);
                Seq::filter_distributes_over_add(before, seq![dirs@[i as int]@], keep);
                reveal_with_fuel(Seq::filter, 2);
                assert(seq![dirs@[i as int]@].drop_last() =~= Seq::<Seq<char>>::empty());
            }
            if !path_covers(dirs[i].as_str(), protected) {
                paths.push(PathRequest { path: dirs[i].clone(), access });
                proof {
                    let dir = dirs@[i as int]@;
                    assert(seq![dir].filter(keep) =~= seq![dir]);
                    let wanted = (kept + seq![dir]).map_values(request);
                    assert(kept.map_values(request).len() == kept.len());
                    assert(paths@.len() == kept.len() + 1);
                    assert forall|j: int| 0 <= j < paths@.len() implies path_request_views(
                        paths@,
                    )[j] == wanted[j] by {
                        if j < kept.len() {
                            assert(path_request_views(paths@)[j] == kept.map_values(request)[j]);
                        } else {
                            assert(paths@[j]@ == request(dir));
                        }
                    }
                    assert(path_request_views(paths@) =~= wanted);
                }
            } else {
                proof {
                    assert(seq![dirs@[i as int]@].filter(keep) =~= Seq::<Seq<char>>::empty());
                    assert(kept + Seq::<Seq<char>>::empty() =~= kept);
                }
            }
            i = i + 1;
        }
        proof {
            assert(texts(dirs@).take(dirs@.len() as int) =~= texts(dirs@));
        }
        access
    } else {
        FsAccess::empty()
    };
    let plan = RulesetPlan { handled_fs, handled_net, paths, ports: Vec::new() };
    proof {
        assert(plan@.paths =~= coarse_plan(readonly, network, protected@).paths);
        assert(plan@.ports =~= coarse_plan(readonly, network, protected@).ports);
    }
    plan
}

/// The plan of `policy`, with `protected` as the directory that a coarse
/// policy keeps from being written to.
pub fn compile_policy(policy: &SandboxPolicy, protected: &str) -> (plan: RulesetPlan)
    ensures
        plan@ == policy_plan(policy@, protected@),
{
    match policy {
        SandboxPolicy::Coarse { readonly, network } => compile_coarse(*readonly, *network, protected),
        SandboxPolicy::Granular(config) => compile_granular(config),
    }
}

} // verus!
