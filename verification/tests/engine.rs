use landlock::PathFd;
use sandbox::engine::{after_network_rejected, KernelRuleset};
use sandbox::{
    advisories, apply_plan, apply_policy, apply_sandbox, build, compile_policy, compile_role,
    is_landlock_supported, resolve, rule_from, Advisory, ApplyReport, EnforcementStatus, FsAccess,
    FsConfig, FsRight, NetAccess, PathOutcome, PathRequest, Role, RulesetPlan, SandboxConfig,
    SandboxError, SandboxPolicy,
};

const MISSING: &str = "/no/such/directory/for/the/sandbox/7f3a";

fn expected_failure(error: &SandboxError) -> bool {
    matches!(
        error,
        SandboxError::RuleDeclaration { .. }
            | SandboxError::RulesetCreation { .. }
            | SandboxError::Commit { .. }
            | SandboxError::NotEnforced
    )
}

fn built(plan: &RulesetPlan) -> Option<KernelRuleset> {
    let supported = is_landlock_supported().supported;
    match build(plan) {
        Ok(ruleset) => Some(ruleset),
        Err(error) => {
            assert!(!supported);
            assert!(matches!(
                error,
                SandboxError::RuleDeclaration { .. } | SandboxError::RulesetCreation { .. }
            ));
            None
        }
    }
}

#[test]
fn no_handle_gives_no_rule() {
    assert!(rule_from(None, compile_role(Role::Read)).is_none());
    assert!(rule_from(None, FsAccess::empty()).is_none());
}

#[test]
fn no_right_gives_no_rule() {
    let root = PathFd::new("/").unwrap();
    assert!(rule_from(Some(root), FsAccess::empty()).is_none());
}

#[test]
fn a_handle_and_a_right_give_a_rule() {
    let root = PathFd::new("/").unwrap();
    let rule = rule_from(Some(root), compile_role(Role::Write)).unwrap();
    assert_eq!(rule.access(), compile_role(Role::Write));
    assert_eq!(rule.access().bits(), 0x5FFE);
}

#[test]
fn an_existing_path_resolves() {
    let rule = resolve("/", compile_role(Role::Read)).unwrap();
    assert_eq!(rule.access(), compile_role(Role::Read));
}

#[test]
fn a_missing_path_gives_no_rule_and_no_error() {
    assert!(resolve(MISSING, compile_role(Role::Read)).is_none());
    assert!(resolve("", compile_role(Role::Read)).is_none());
}

#[test]
fn asking_for_nothing_gives_no_rule() {
    assert!(resolve("/", FsAccess::empty()).is_none());
}

#[test]
fn a_plan_that_restricts_nothing_is_not_enforced() {
    let plan = RulesetPlan {
        handled_fs: FsAccess::empty(),
        handled_net: NetAccess::empty(),
        paths: Vec::new(),
        ports: Vec::new(),
    };
    assert!(matches!(build(&plan), Err(SandboxError::NotEnforced)));
    assert_eq!(apply_plan(&plan), Err(SandboxError::NotEnforced));
    let with_request = RulesetPlan {
        handled_fs: FsAccess::empty(),
        handled_net: NetAccess::empty(),
        paths: vec![PathRequest { path: "/".to_string(), access: compile_role(Role::Read) }],
        ports: Vec::new(),
    };
    assert_eq!(apply_plan(&with_request), Err(SandboxError::NotEnforced));
}

#[test]
fn a_coarse_policy_that_restricts_nothing_fails() {
    let policy = SandboxPolicy::Coarse { readonly: false, network: true };
    let result = apply_policy(policy, "/work");
    assert_eq!(result, Err(SandboxError::NotEnforced));
    assert_eq!(result.unwrap_err().message(), "sandbox could not be enforced");
}

#[test]
fn building_answers_every_request() {
    let read = compile_role(Role::Read);
    let plan = RulesetPlan {
        handled_fs: FsAccess::all_at(5),
        handled_net: NetAccess::empty(),
        paths: vec![
            PathRequest { path: "/".to_string(), access: read },
            PathRequest { path: MISSING.to_string(), access: read },
            PathRequest { path: "/".to_string(), access: FsAccess::empty() },
        ],
        ports: Vec::new(),
    };
    if let Some(ruleset) = built(&plan) {
        let notes = ruleset.notes();
        assert_eq!(notes.paths.len(), 3);
        assert_eq!(notes.paths[0], PathOutcome::Attached);
        assert_eq!(notes.paths[1], PathOutcome::Unresolved);
        assert_eq!(notes.paths[2], PathOutcome::Unresolved);
        assert!(notes.ports.is_empty());
        assert_eq!(notes.network_dropped, None);
    }
}

#[test]
fn building_a_policy_with_a_missing_path_goes_on() {
    let config = SandboxConfig {
        fs: Some(FsConfig {
            read: Some(vec!["/".to_string()]),
            write: Some(vec![MISSING.to_string()]),
            execute: None,
        }),
        net: None,
    };
    let plan = compile_policy(&SandboxPolicy::Granular(config), "");
    if let Some(ruleset) = built(&plan) {
        let notes = ruleset.notes();
        assert_eq!(notes.paths.len(), 2);
        assert_eq!(notes.paths[1], PathOutcome::Unresolved);
        let report = ApplyReport { status: EnforcementStatus::FullyEnforced, notes: notes.clone() };
        let said = advisories(&plan, &report);
        assert!(said.contains(&Advisory::PathUnresolved { path: MISSING.to_string() }));
    }
}

#[test]
fn a_rule_beyond_what_is_declared_is_rejected_and_noted() {
    let plan = RulesetPlan {
        handled_fs: FsAccess::empty().with(FsRight::WriteFile),
        handled_net: NetAccess::empty(),
        paths: vec![PathRequest { path: "/".to_string(), access: compile_role(Role::Read) }],
        ports: Vec::new(),
    };
    if let Some(ruleset) = built(&plan) {
        let notes = ruleset.notes();
        assert_eq!(notes.paths.len(), 1);
        assert!(matches!(notes.paths[0], PathOutcome::Rejected { .. }));
    }
}

#[test]
fn applying_a_policy_with_a_missing_path_still_succeeds_where_the_kernel_enforces() {
    let support = is_landlock_supported();
    let config = SandboxConfig {
        fs: Some(FsConfig {
            read: Some(vec!["/".to_string()]),
            write: Some(vec![MISSING.to_string()]),
            execute: Some(vec!["/".to_string()]),
        }),
        net: None,
    };
    match apply_sandbox(config) {
        Ok(report) => {
            assert!(support.supported);
            assert_ne!(report.status, EnforcementStatus::NotEnforced);
            assert_eq!(report.notes.paths.len(), 3);
            assert_eq!(report.notes.paths[1], PathOutcome::Unresolved);
            assert_eq!(report.notes.network_dropped, None);
            assert!(report.notes.ports.is_empty());
        }
        Err(error) => {
            assert!(expected_failure(&error));
            if !support.supported {
                assert_eq!(error, SandboxError::NotEnforced);
            }
        }
    }
}

fn sample_config() -> SandboxConfig {
    SandboxConfig {
        fs: Some(FsConfig {
            read: Some(vec!["/".to_string()]),
            write: Some(vec![MISSING.to_string()]),
            execute: None,
        }),
        net: None,
    }
}

fn check_sample_outcome(result: &Result<ApplyReport, SandboxError>) -> Option<EnforcementStatus> {
    match result {
        Ok(report) => {
            assert_ne!(report.status, EnforcementStatus::NotEnforced);
            assert_eq!(report.notes.paths.len(), 2);
            assert_eq!(report.notes.paths[1], PathOutcome::Unresolved);
            Some(report.status)
        }
        Err(error) => {
            assert!(expected_failure(error));
            None
        }
    }
}

#[test]
fn applying_without_a_probe() {
    let result = apply_sandbox(sample_config());
    let status = check_sample_outcome(&result);
    let support = is_landlock_supported();
    assert_eq!(status.is_some(), support.supported);
    if support.supported && support.abi_version >= 5 {
        assert_eq!(status, Some(EnforcementStatus::FullyEnforced));
    }
}

#[test]
fn applying_after_probing_behaves_the_same() {
    let before = is_landlock_supported();
    let again = is_landlock_supported();
    assert_eq!(before, again);
    let result = apply_sandbox(sample_config());
    let status = check_sample_outcome(&result);
    assert_eq!(status.is_some(), before.supported);
    if before.supported && before.abi_version >= 5 {
        assert_eq!(status, Some(EnforcementStatus::FullyEnforced));
    }
    let after = is_landlock_supported();
    assert_eq!(after.supported, before.supported);
    assert_eq!(after.abi_version, before.abi_version);
    assert_eq!(after.network_supported, before.network_supported);
}

#[test]
fn a_coarse_policy_applies_where_the_kernel_enforces() {
    let support = is_landlock_supported();
    let policy = SandboxPolicy::Coarse { readonly: true, network: false };
    let plan = compile_policy(&policy, "/work/project");
    match apply_policy(policy, "/work/project") {
        Ok(report) => {
            assert!(support.supported);
            assert_ne!(report.status, EnforcementStatus::NotEnforced);
            assert_eq!(report.notes.paths.len(), plan.paths.len());
            assert_eq!(report.notes.paths.len(), 6);
            assert!(report.notes.ports.is_empty());
            let said = advisories(&plan, &report);
            let partial = said.contains(&Advisory::PartialEnforcement);
            assert_eq!(partial, report.status == EnforcementStatus::PartiallyEnforced);
        }
        Err(error) => {
            assert!(expected_failure(&error));
        }
    }
}

#[test]
fn a_rejected_network_family_is_given_up_beside_the_filesystem() {
    assert_eq!(after_network_rejected(true, "too old".to_string()), Ok("too old".to_string()));
    assert_eq!(after_network_rejected(true, String::new()), Ok(String::new()));
}

#[test]
fn a_rejected_network_family_alone_fails() {
    assert_eq!(
        after_network_rejected(false, "too old".to_string()),
        Err(SandboxError::RuleDeclaration { detail: "too old".to_string() })
    );
    assert_eq!(
        after_network_rejected(false, "too old".to_string()).unwrap_err().message(),
        "failed to declare access rights: too old"
    );
}

#[test]
fn port_rules_are_attached_where_the_network_is_declared() {
    let policy = SandboxPolicy::Granular(SandboxConfig {
        fs: None,
        net: Some(sandbox::NetConfig { connect_ports: Some(vec![443, 8080]) }),
    });
    let plan = compile_policy(&policy, "");
    if let Some(ruleset) = built(&plan) {
        let notes = ruleset.notes();
        assert!(notes.paths.is_empty());
        assert_eq!(notes.ports.len(), 2);
        match &notes.network_dropped {
            None => {
                assert!(notes.ports.iter().all(|p| *p != sandbox::PortOutcome::Skipped));
                if is_landlock_supported().network_supported {
                    assert_eq!(notes.ports[0], sandbox::PortOutcome::Attached);
                    assert_eq!(notes.ports[1], sandbox::PortOutcome::Attached);
                }
            }
            Some(_) => {
                assert!(notes.ports.iter().all(|p| *p == sandbox::PortOutcome::Skipped));
            }
        }
    }
}

#[test]
fn a_port_rule_beyond_what_is_declared_is_rejected_and_noted() {
    let connect = NetAccess::empty().with(sandbox::NetRight::ConnectTcp);
    let both = connect.with(sandbox::NetRight::BindTcp);
    let plan = RulesetPlan {
        handled_fs: FsAccess::empty(),
        handled_net: connect,
        paths: Vec::new(),
        ports: vec![
            sandbox::PortRequest { port: 443, access: both },
            sandbox::PortRequest { port: 80, access: connect },
        ],
    };
    if let Some(ruleset) = built(&plan) {
        let notes = ruleset.notes();
        assert_eq!(notes.ports.len(), 2);
        assert!(matches!(notes.ports[0], sandbox::PortOutcome::Rejected { .. }));
        if notes.network_dropped.is_none() && is_landlock_supported().network_supported {
            assert_eq!(notes.ports[1], sandbox::PortOutcome::Attached);
        }
    }
}

#[test]
fn an_attached_rule_stays_within_what_is_declared() {
    let read = compile_role(Role::Read);
    let plan = RulesetPlan {
        handled_fs: read,
        handled_net: NetAccess::empty(),
        paths: vec![
            PathRequest { path: "/".to_string(), access: read },
            PathRequest { path: "/".to_string(), access: compile_role(Role::Execute) },
            PathRequest { path: "/".to_string(), access: FsAccess::empty().with(FsRight::ReadDir) },
        ],
        ports: Vec::new(),
    };
    if let Some(ruleset) = built(&plan) {
        let notes = ruleset.notes();
        assert_eq!(notes.paths.len(), 3);
        assert_eq!(notes.paths[0], PathOutcome::Attached);
        assert!(matches!(notes.paths[1], PathOutcome::Rejected { .. }));
        assert_eq!(notes.paths[2], PathOutcome::Attached);
        for (request, outcome) in plan.paths.iter().zip(notes.paths.iter()) {
            if *outcome == PathOutcome::Attached {
                assert!(!request.access.is_empty());
                assert_eq!(request.access.union(plan.handled_fs), plan.handled_fs);
            }
        }
    }
}
