//! A sandbox for the calling thread and everything it starts later.
//!
//! A policy says which filesystem and network operations stay allowed. It
//! is compiled into a plan, the plan is built into a Landlock ruleset, and
//! the ruleset is committed. A commit cannot be undone. What the kernel made
//! of it comes back as a status, and a status of "not enforced" is an error.
//!
//! `policy` and `rights` describe and compile policies, `engine` talks to
//! the kernel, `status` holds what comes back, `probe` asks what the kernel
//! can do without restricting anything, and `semantics` states what the
//! plans of policies allow. `kernel` is the boundary to the `landlock`
//! crate.

pub mod engine;
pub mod kernel;
pub mod policy;
pub mod probe;
pub mod rights;
pub mod semantics;
pub mod status;
pub mod text;

pub use engine::{apply, apply_plan, apply_policy, apply_sandbox, build, resolve, rule_from};
pub use policy::{
    compile_policy, connect_request, FsConfig, NetConfig, PathRequest, PortRequest, RulesetPlan, SandboxConfig,
    SandboxPolicy,
};
pub use probe::{describe_support, is_landlock_supported, LandlockSupport, ProbeOutcome};
pub use rights::{compile_role, FsAccess, FsRight, NetAccess, NetRight, Role};
pub use status::{
    advisories, interpret_status, Advisory, ApplyReport, BuildNotes, EnforcementStatus,
    PathOutcome, PortOutcome, SandboxError, SandboxState,
};
