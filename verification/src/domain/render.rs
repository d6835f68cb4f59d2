//! Debug-style renderings of actions, as written into result messages and rationales.
use vstd::prelude::*;
use crate::domain::action::{ActionKind, ActionSafetyLevel, ActionStatus};
use crate::text::{decimal, push_decimal};

verus! {

/// What `format!("{:?}", s)` writes for the string `s`: the text in double quotes, with
/// quotes, backslashes and non-printable characters escaped.
pub uninterp spec fn debug_quoted(s: Seq<char>) -> Seq<char>;

/// Renders `s` with `<str as Debug>::fmt` (through `format!("{:?}")`); the result is the
/// named `debug_quoted(s@)`, a function of the text alone.
#[verifier::external_body]
fn quote_debug(s: &str) -> (r: String)
    ensures
        r@ == debug_quoted(s@),
{
    format!("{:?}", s)
}

fn push_quoted(out: &mut String, s: &str)
    ensures
        final(out)@ == old(out)@ + debug_quoted(s@),
{
    let q = quote_debug(s);
    out.append(q.as_str());
}

/// The `Debug` rendering of an action kind: the variant name, then its fields as
/// `{ field: value, .. }` with strings quoted by `debug_quoted` and numbers in decimal.
pub open spec fn kind_text(k: ActionKind) -> Seq<char> {
    match k {
        ActionKind::CgroupCreate { name } => "CgroupCreate { name: "@ + debug_quoted(name@) + " }"@,
        ActionKind::CgroupSetCpuMax { group, quota } => "CgroupSetCpuMax { group: "@ + debug_quoted(group@) + ", quota: "@ + debug_quoted(quota@) + " }"@,
        ActionKind::CgroupSetCpuWeight { group, weight } => "CgroupSetCpuWeight { group: "@ + debug_quoted(group@) + ", weight: "@ + decimal(weight as nat) + " }"@,
        ActionKind::CgroupSetMemoryMax { group, bytes } => "CgroupSetMemoryMax { group: "@ + debug_quoted(group@) + ", bytes: "@ + decimal(bytes as nat) + " }"@,
        ActionKind::CgroupMovePid { group, pid } => "CgroupMovePid { group: "@ + debug_quoted(group@) + ", pid: "@ + decimal(pid as nat) + " }"@,
        ActionKind::ProcessFreezeGroup { group } => "ProcessFreezeGroup { group: "@ + debug_quoted(group@) + " }"@,
        ActionKind::ProcessThawGroup { group } => "ProcessThawGroup { group: "@ + debug_quoted(group@) + " }"@,
        ActionKind::ProcessTerminateGroup { group } => "ProcessTerminateGroup { group: "@ + debug_quoted(group@) + " }"@,
        ActionKind::WorkloadClassifyRecommend { group, classification } => "WorkloadClassifyRecommend { group: "@ + debug_quoted(group@) + ", classification: "@ + debug_quoted(classification@) + " }"@,
        ActionKind::ObserveOnly => "ObserveOnly"@,
        ActionKind::LaunchApplication { application } => "LaunchApplication { application: "@ + debug_quoted(application@) + " }"@,
        ActionKind::OpenUrl { url } => "OpenUrl { url: "@ + debug_quoted(url@) + " }"@,
        ActionKind::RunCommand { command, args } => "RunCommand { command: "@ + debug_quoted(command@) + ", args: "@ + debug_quoted(args@) + " }"@,
        ActionKind::CreateDirectory { path } => "CreateDirectory { path: "@ + debug_quoted(path@) + " }"@,
        ActionKind::OpenFile { path } => "OpenFile { path: "@ + debug_quoted(path@) + " }"@,
        ActionKind::CloneRepository { url, directory } => "CloneRepository { url: "@ + debug_quoted(url@) + ", directory: "@ + debug_quoted(directory@) + " }"@,
        ActionKind::CreateProjectWorkspace { project_name, framework } => "CreateProjectWorkspace { project_name: "@ + debug_quoted(project_name@) + ", framework: "@ + debug_quoted(framework@) + " }"@,
    }
}

/// Appends `kind_text(*kind)` to `out`.
pub fn push_kind_text(out: &mut String, kind: &ActionKind)
    ensures
        final(out)@ == old(out)@ + kind_text(*kind),
{
    let ghost start = old(out)@;
    match kind {
        ActionKind::CgroupCreate { name } => {
            out.append("CgroupCreate { name: ");
            push_quoted(out, name.as_str());
            out.append(" }");
            assert(out@ =~= start + kind_text(*kind));
        },
        ActionKind::CgroupSetCpuMax { group, quota } => {
            out.append("CgroupSetCpuMax { group: ");
            push_quoted(out, group.as_str());
            out.append(", quota: ");
            push_quoted(out, quota.as_str());
            out.append(" }");
            assert(out@ =~= start + kind_text(*kind));
        },
        ActionKind::CgroupSetCpuWeight { group, weight } => {
            out.append("CgroupSetCpuWeight { group: ");
            push_quoted(out, group.as_str());
            out.append(", weight: ");
            push_decimal(out, *weight as u64);
            out.append(" }");
            assert(out@ =~= start + kind_text(*kind));
        },
        ActionKind::CgroupSetMemoryMax { group, bytes } => {
            out.append("CgroupSetMemoryMax { group: ");
            push_quoted(out, group.as_str());
            out.append(", bytes: ");
            push_decimal(out, *bytes as u64);
            out.append(" }");
            assert(out@ =~= start + kind_text(*kind));
        },
        ActionKind::CgroupMovePid { group, pid } => {
            out.append("CgroupMovePid { group: ");
            push_quoted(out, group.as_str());
            out.append(", pid: ");
            push_decimal(out, *pid as u64);
            out.append(" }");
            assert(out@ =~= start + kind_text(*kind));
        },
        ActionKind::ProcessFreezeGroup { group } => {
            out.append("ProcessFreezeGroup { group: ");
            push_quoted(out, group.as_str());
            out.append(" }");
            assert(out@ =~= start + kind_text(*kind));
        },
        ActionKind::ProcessThawGroup { group } => {
            out.append("ProcessThawGroup { group: ");
            push_quoted(out, group.as_str());
            out.append(" }");
            assert(out@ =~= start + kind_text(*kind));
        },
        ActionKind::ProcessTerminateGroup { group } => {
            out.append("ProcessTerminateGroup { group: ");
            push_quoted(out, group.as_str());
            out.append(" }");
            assert(out@ =~= start + kind_text(*kind));
        },
        ActionKind::WorkloadClassifyRecommend { group, classification } => {
            out.append("WorkloadClassifyRecommend { group: ");
            push_quoted(out, group.as_str());
            out.append(", classification: ");
            push_quoted(out, classification.as_str());
            out.append(" }");
            assert(out@ =~= start + kind_text(*kind));
        },
        ActionKind::ObserveOnly => {
            out.append("ObserveOnly");
            assert(out@ =~= start + kind_text(*kind));
        },
        ActionKind::LaunchApplication { application } => {
            out.append("LaunchApplication { application: ");
            push_quoted(out, application.as_str());
            out.append(" }");
            assert(out@ =~= start + kind_text(*kind));
        },
        ActionKind::OpenUrl { url } => {
            out.append("OpenUrl { url: ");
            push_quoted(out, url.as_str());
            out.append(" }");
            assert(out@ =~= start + kind_text(*kind));
        },
        ActionKind::RunCommand { command, args } => {
            out.append("RunCommand { command: ");
            push_quoted(out, command.as_str());
            out.append(", args: ");
            push_quoted(out, args.as_str());
            out.append(" }");
            assert(out@ =~= start + kind_text(*kind));
        },
        ActionKind::CreateDirectory { path } => {
            out.append("CreateDirectory { path: ");
            push_quoted(out, path.as_str());
            out.append(" }");
            assert(out@ =~= start + kind_text(*kind));
        },
        ActionKind::OpenFile { path } => {
            out.append("OpenFile { path: ");
            push_quoted(out, path.as_str());
            out.append(" }");
            assert(out@ =~= start + kind_text(*kind));
        },
        ActionKind::CloneRepository { url, directory } => {
            out.append("CloneRepository { url: ");
            push_quoted(out, url.as_str());
            out.append(", directory: ");
            push_quoted(out, directory.as_str());
            out.append(" }");
            assert(out@ =~= start + kind_text(*kind));
        },
        ActionKind::CreateProjectWorkspace { project_name, framework } => {
            out.append("CreateProjectWorkspace { project_name: ");
            push_quoted(out, project_name.as_str());
            out.append(", framework: ");
            push_quoted(out, framework.as_str());
            out.append(" }");
            assert(out@ =~= start + kind_text(*kind));
        },
    }
}

/// `kind_text(*kind)` as a fresh string.
pub fn kind_debug(kind: &ActionKind) -> (s: String)
    ensures
        s@ == kind_text(*kind),
{
    let mut s = String::new();
    push_kind_text(&mut s, kind);
    s
}

/// The `Debug` rendering of a safety level: the variant name.
pub open spec fn safety_text(l: ActionSafetyLevel) -> Seq<char> {
    match l {
        ActionSafetyLevel::ReadOnly => "ReadOnly"@,
        ActionSafetyLevel::LowRisk => "LowRisk"@,
        ActionSafetyLevel::MediumRisk => "MediumRisk"@,
        ActionSafetyLevel::HighRisk => "HighRisk"@,
    }
}

/// `safety_text(*level)` as a string slice.
pub fn safety_debug(level: &ActionSafetyLevel) -> (s: &'static str)
    ensures
        s@ == safety_text(*level),
{
    match level {
        ActionSafetyLevel::ReadOnly => "ReadOnly",
        ActionSafetyLevel::LowRisk => "LowRisk",
        ActionSafetyLevel::MediumRisk => "MediumRisk",
        ActionSafetyLevel::HighRisk => "HighRisk",
    }
}

/// The `Debug` rendering of an action status: the variant name.
pub open spec fn status_text(s: ActionStatus) -> Seq<char> {
    match s {
        ActionStatus::Pending => "Pending"@,
        ActionStatus::Proposed => "Proposed"@,
        ActionStatus::Approved => "Approved"@,
        ActionStatus::Denied => "Denied"@,
        ActionStatus::Executing => "Executing"@,
        ActionStatus::Succeeded => "Succeeded"@,
        ActionStatus::Failed => "Failed"@,
        ActionStatus::RolledBack => "RolledBack"@,
        ActionStatus::DryRun => "DryRun"@,
    }
}

/// `status_text(*status)` as a string slice.
pub fn status_debug(status: &ActionStatus) -> (s: &'static str)
    ensures
        s@ == status_text(*status),
{
    match status {
        ActionStatus::Pending => "Pending",
        ActionStatus::Proposed => "Proposed",
        ActionStatus::Approved => "Approved",
        ActionStatus::Denied => "Denied",
        ActionStatus::Executing => "Executing",
        ActionStatus::Succeeded => "Succeeded",
        ActionStatus::Failed => "Failed",
        ActionStatus::RolledBack => "RolledBack",
        ActionStatus::DryRun => "DryRun",
    }
}

} // verus!
