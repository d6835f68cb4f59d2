use agenticos::domain::action::{
    ActionKind, ActionRequest, ActionSafetyLevel, ActionStatus, ApprovedAction, RollbackToken,
};
use agenticos::executor::linux::{
    CgroupIo, CgroupPlan, CgroupRollbackManager, CgroupSnapshot, CgroupStep, IoReport,
    LinuxCgroupExecutor, RollbackStep,
};
use agenticos::executor::proc_text::{cgroup_origin, pids_in, pids_to_terminate};
use agenticos::ids::{ActionId, DecisionId};
use agenticos::text::{parse_u32, text_lines, trim};

fn approved(kind: ActionKind) -> ApprovedAction {
    ApprovedAction {
        request: ActionRequest {
            id: ActionId::from_string("a1"),
            kind,
            safety_level: ActionSafetyLevel::MediumRisk,
        },
        decision_id: DecisionId::from_string("d1"),
    }
}

/// The undo record a rollback token holds (for tokens that hold one).
fn record(token: &RollbackToken) -> Result<CgroupSnapshot, String> {
    let v: serde_json::Value = serde_json::from_str(&token.token).map_err(|e| e.to_string())?;
    let text = |k: &str| v.get(k).and_then(|x| x.as_str()).map(|x| x.to_owned());
    Ok(CgroupSnapshot {
        action: text("action").ok_or("missing field `action`")?,
        group: text("group").ok_or("missing field `group`")?,
        previous_value: text("previous_value"),
    })
}

fn pending(ex: &LinuxCgroupExecutor, kind: ActionKind) -> agenticos::executor::linux::PendingCgroupAction {
    match ex.execute_step(approved(kind)) {
        CgroupStep::NeedIo(p) => p,
        CgroupStep::Done(r) => panic!("expected file-system work, got {:?}", r),
    }
}

#[test]
fn set_cpu_max_then_rollback_restores_previous_value() {
    let ex = LinuxCgroupExecutor::new("/sys/fs/cgroup/agenticos".into());
    let p = pending(&ex, ActionKind::CgroupSetCpuMax { group: "bench".into(), quota: "50000 100000".into() });
    match &p.plan {
        CgroupPlan::Mutate { io: CgroupIo::Replace { read_from, file, value }, message, .. } => {
            assert_eq!(read_from, "/sys/fs/cgroup/agenticos/bench/cpu.max");
            assert_eq!(file, "/sys/fs/cgroup/agenticos/bench/cpu.max");
            assert_eq!(value, "50000 100000");
            assert_eq!(message, "cpu.max set to '50000 100000'");
        }
        other => panic!("expected a replacement, got {:?}", other),
    }
    let result = ex.finish(p, IoReport::Done { previous: Some("max 100000\n".into()) });
    assert_eq!(result.status, ActionStatus::Succeeded);
    assert_eq!(result.action_id.as_str(), "a1");
    let token = result.rollback.expect("a replacement records a snapshot");

    let mgr = CgroupRollbackManager::new("/sys/fs/cgroup/agenticos".into());
    let write = match mgr.rollback_step(record(&token)).unwrap() {
        RollbackStep::NeedWrite(w) => w,
        RollbackStep::Done(r) => panic!("expected a restore, got {:?}", r),
    };
    assert_eq!(write.file, "/sys/fs/cgroup/agenticos/bench/cpu.max");
    assert_eq!(write.content, "max 100000");
    assert_eq!(write.action, "set_cpu_max");
    let done = mgr.finish_rollback(write, Ok(()));
    assert_eq!(done.status, ActionStatus::Succeeded);
    assert_eq!(done.message, "rollback of 'set_cpu_max' succeeded");
    assert_eq!(done.action_id.as_str(), "rollback");
}

#[test]
fn freeze_without_readable_previous_rolls_back_to_max() {
    let ex = LinuxCgroupExecutor::new("/cg".into());
    let p = pending(&ex, ActionKind::ProcessFreezeGroup { group: "g".into() });
    let result = ex.finish(p, IoReport::Done { previous: None });
    let mgr = CgroupRollbackManager::new("/cg".into());
    match mgr.rollback_step(record(&result.rollback.unwrap())).unwrap() {
        RollbackStep::NeedWrite(w) => {
            assert_eq!(w.file, "/cg/g/cgroup.freeze");
            assert_eq!(w.content, "max");
            let done = mgr.finish_rollback(w, Err("permission denied".into()));
            assert_eq!(done.status, ActionStatus::Failed);
            assert_eq!(done.message, "rollback of 'freeze' failed: permission denied");
        }
        RollbackStep::Done(r) => panic!("expected a restore, got {:?}", r),
    }
}

#[test]
fn failed_write_reports_failure_without_snapshot() {
    let ex = LinuxCgroupExecutor::new("/cg".into());
    let p = pending(&ex, ActionKind::CgroupSetMemoryMax { group: "g".into(), bytes: 1024 });
    let result = ex.finish(p, IoReport::Failed { message: "failed to write".into() });
    assert_eq!(result.status, ActionStatus::Failed);
    assert_eq!(result.message, "failed to write");
    assert!(result.rollback.is_none());
}

#[test]
fn move_pid_records_origin_from_proc_and_refuses_rollback() {
    let ex = LinuxCgroupExecutor::new("/cg".into());
    let p = pending(&ex, ActionKind::CgroupMovePid { group: "g".into(), pid: 42 });
    match &p.plan {
        CgroupPlan::Mutate { io: CgroupIo::Replace { read_from, file, value }, .. } => {
            assert_eq!(read_from, "/proc/42/cgroup");
            assert_eq!(file, "/cg/g/cgroup.procs");
            assert_eq!(value, "42");
        }
        other => panic!("expected a replacement, got {:?}", other),
    }
    let proc_text = "0::/user.slice/session-3.scope\n";
    let result = ex.finish(p, IoReport::Done { previous: Some(proc_text.into()) });
    assert_eq!(result.status, ActionStatus::Succeeded);
    let mgr = CgroupRollbackManager::new("/cg".into());
    match mgr.rollback_step(record(&result.rollback.unwrap())).unwrap() {
        RollbackStep::Done(r) => {
            assert_eq!(r.status, ActionStatus::Failed);
            assert_eq!(
                r.message,
                "rollback of 'move_pid' failed: rollback of move_pid requires PID tracking \
                 (origin cgroup: /user.slice/session-3.scope)"
            );
        }
        RollbackStep::NeedWrite(w) => panic!("a move cannot be restored, got {:?}", w),
    }
}

#[test]
fn terminate_plans_reading_procs() {
    let ex = LinuxCgroupExecutor::new("/cg".into());
    let p = pending(&ex, ActionKind::ProcessTerminateGroup { group: "g".into() });
    match &p.plan {
        CgroupPlan::Mutate { io: CgroupIo::Terminate { procs_file }, message, .. } => {
            assert_eq!(procs_file, "/cg/g/cgroup.procs");
            assert_eq!(message, "group 'g' terminated");
        }
        other => panic!("expected a termination, got {:?}", other),
    }
    let result = ex.finish(p, IoReport::Done { previous: None });
    let mgr = CgroupRollbackManager::new("/cg".into());
    match mgr.rollback_step(record(&result.rollback.unwrap())).unwrap() {
        RollbackStep::Done(r) => {
            assert_eq!(r.message, "rollback of 'terminate' failed: terminate cannot be rolled back")
        }
        RollbackStep::NeedWrite(w) => panic!("a termination cannot be restored, got {:?}", w),
    }
}

#[test]
fn invalid_rollback_token_is_an_error() {
    let mgr = CgroupRollbackManager::new("/cg".into());
    match mgr.rollback_step(Err("missing field `action` at line 1 column 35".into())) {
        Err(e) => assert_eq!(
            e.to_message(),
            "application error: invalid rollback token: missing field `action` at line 1 column 35"
        ),
        Ok(_) => panic!("a token without an action is invalid"),
    }
}

#[test]
fn rollback_token_encodes_the_record_as_json() {
    let ex = LinuxCgroupExecutor::new("/cg".into());
    let p = pending(&ex, ActionKind::CgroupSetCpuMax { group: "g".into(), quota: "max".into() });
    let result = ex.finish(p, IoReport::Done { previous: Some(" 50000 100000 \n".into()) });
    assert_eq!(
        result.rollback.unwrap().token,
        r#"{"action":"set_cpu_max","group":"g","previous_value":"50000 100000"}"#
    );
    let p = pending(&ex, ActionKind::ProcessThawGroup { group: "g".into() });
    let result = ex.finish(p, IoReport::Done { previous: None });
    assert_eq!(result.rollback.unwrap().token, r#"{"action":"thaw","group":"g","previous_value":null}"#);
}

#[test]
fn pids_are_read_one_per_line() {
    assert_eq!(pids_in("12\n 34 \r\nabc\n+7\n\n99999999999\n5").as_slice(), &[12, 34, 7, 5]);
    assert_eq!(pids_to_terminate("1\n2\n").unwrap(), vec![1, 2]);
    assert_eq!(pids_to_terminate("").unwrap_err(), "no pids to terminate");
    assert_eq!(pids_to_terminate("\n \nx\n").unwrap_err(), "no pids to terminate");
}

#[test]
fn cgroup_origin_reads_first_v2_line() {
    assert_eq!(cgroup_origin("0::/user.slice/user-1000.slice/session-3.scope\n").as_deref(), Some("/user.slice/user-1000.slice/session-3.scope"));
    assert_eq!(cgroup_origin("12:cpu:/x\n0:: /a::b \n").as_deref(), Some("/a"));
    assert_eq!(cgroup_origin("12:cpu:/x\n"), None);
    assert_eq!(cgroup_origin(""), None);
}

#[test]
fn text_helpers_match_std() {
    for s in ["", "a", "a\n", "a\n\n", "\n", "a\r\nb", "a\r", "x\ny\r\nz\n", " \t\n"] {
        let ours: Vec<String> = text_lines(s);
        let std_lines: Vec<String> = s.lines().map(|l| l.to_owned()).collect();
        assert_eq!(ours, std_lines, "lines of {:?}", s);
    }
    for s in ["", "  a b  ", "\u{2003}x\u{85}", "\t\n", "abc"] {
        assert_eq!(trim(s), s.trim(), "trim of {:?}", s);
    }
    for s in ["0", "+12", "4294967295", "4294967296", "-1", " 1", "", "+", "00042", "1_0"] {
        assert_eq!(parse_u32(s), s.parse::<u32>().ok(), "parse of {:?}", s);
    }
}

#[test]
fn terminate_records_no_previous_value() {
    let ex = LinuxCgroupExecutor::new("/cg".into());
    let p = pending(&ex, ActionKind::ProcessTerminateGroup { group: "g".into() });
    let result = ex.finish(p, IoReport::Done { previous: Some("123\n456\n".into()) });
    assert_eq!(result.rollback.unwrap().token, r#"{"action":"terminate","group":"g","previous_value":null}"#);
}
