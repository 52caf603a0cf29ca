use codex_windows_cn::elevated::{
    after_elevated_wait, elevated_exit_code, elevated_task_record, final_elevated_result,
    interpret_elevated_task_result, parse_failure_message, pending_record, poll_elevated_result,
    read_failure_message, ElevatedTaskRead, ElevatedTaskResult, ElevatedWaitFailure,
    ElevatedWaitStep, ELEVATED_TASK_PENDING_MESSAGE,
};

fn failure(launched: bool, finished: bool) -> Result<u32, ElevatedWaitFailure> {
    Err(ElevatedWaitFailure {
        launched,
        finished,
        cause: "用户取消".into(),
    })
}

#[test]
fn waiting_outcomes_decide_the_next_step() {
    assert_eq!(
        after_elevated_wait("系统安装", &Ok(0)),
        ElevatedWaitStep::ReadResult(Some(0))
    );
    assert_eq!(
        after_elevated_wait("系统安装", &failure(false, false)),
        ElevatedWaitStep::Fail("系统安装未获得管理员权限，操作未开始：用户取消".into())
    );
    assert_eq!(
        after_elevated_wait("系统安装", &failure(true, true)),
        ElevatedWaitStep::ReadResult(None)
    );
    assert_eq!(
        after_elevated_wait("系统安装", &failure(true, false)),
        ElevatedWaitStep::Poll
    );
}

#[test]
fn records_are_read_with_the_exit_code() {
    let success = || ElevatedTaskResult::Success {
        value: "done".into(),
    };
    assert_eq!(
        interpret_elevated_task_result("系统更新", Some(0), success()),
        ElevatedTaskRead::Success("done".into())
    );
    assert_eq!(
        interpret_elevated_task_result("系统更新", None, success()),
        ElevatedTaskRead::Success("done".into())
    );
    assert_eq!(
        interpret_elevated_task_result("系统更新", Some(3), success()),
        ElevatedTaskRead::Error("系统更新进程异常退出（退出代码 3）".into())
    );
    assert_eq!(
        interpret_elevated_task_result("系统更新", Some(1), pending_record()),
        ElevatedTaskRead::Pending
    );
    assert_eq!(
        interpret_elevated_task_result(
            "系统更新",
            Some(1),
            ElevatedTaskResult::Error {
                message: "失败".into()
            }
        ),
        ElevatedTaskRead::Error("失败".into())
    );
    assert_eq!(ELEVATED_TASK_PENDING_MESSAGE, "管理员操作未能返回最终结果");
}

#[test]
fn what_a_helper_writes_is_what_the_launcher_reads() {
    let written = elevated_task_record(Ok("v1".into()));
    assert_eq!(
        interpret_elevated_task_result("op", Some(0), written),
        ElevatedTaskRead::Success("v1".into())
    );
    let written = elevated_task_record(Err("bad".into()));
    assert_eq!(
        interpret_elevated_task_result("op", Some(1), written),
        ElevatedTaskRead::Error("bad".into())
    );
    assert_eq!(elevated_exit_code(true, true), 0);
    assert_eq!(elevated_exit_code(false, true), 1);
    assert_eq!(elevated_exit_code(true, false), 1);
}

#[test]
fn polling_ends_on_a_final_record_or_at_the_deadline() {
    let mut last = None;
    assert_eq!(
        poll_elevated_result("删除系统版本", "wait failed", Ok(ElevatedTaskRead::Pending), &mut last, true),
        None
    );
    assert_eq!(
        poll_elevated_result("删除系统版本", "wait failed", Err("locked".into()), &mut last, true),
        None
    );
    assert_eq!(last.as_deref(), Some("locked"));
    assert_eq!(
        poll_elevated_result(
            "删除系统版本",
            "wait failed",
            Ok(ElevatedTaskRead::Pending),
            &mut last,
            false
        ),
        Some(Err(
            "删除系统版本已启动，但无法确认管理员进程是否结束：wait failed；最后一次读取结果失败：locked"
                .into()
        ))
    );
    let mut none = None;
    assert_eq!(
        poll_elevated_result("删除系统版本", "x", Ok(ElevatedTaskRead::Pending), &mut none, false),
        Some(Err("删除系统版本已启动，但无法确认管理员进程是否结束：x".into()))
    );
    assert_eq!(
        poll_elevated_result("op", "x", Ok(ElevatedTaskRead::Success("ok".into())), &mut none, false),
        Some(Ok("ok".into()))
    );
}

#[test]
fn final_reads_refuse_a_placeholder() {
    assert_eq!(
        final_elevated_result("系统卸载", ElevatedTaskRead::Pending),
        Err("系统卸载进程结束，但仍只返回了未完成占位结果".into())
    );
    assert_eq!(
        final_elevated_result("系统卸载", ElevatedTaskRead::Error("e".into())),
        Err("e".into())
    );
}

#[test]
fn read_and_parse_failures_name_the_exit_code() {
    assert_eq!(
        read_failure_message("系统安装", Some(5), "not found"),
        "系统安装进程未返回结果（退出代码 5）：not found"
    );
    assert_eq!(
        read_failure_message("系统安装", None, "not found"),
        "系统安装进程未返回结果：not found"
    );
    assert_eq!(
        parse_failure_message("系统安装", Some(0), "eof"),
        "系统安装结果无效（退出代码 0）：eof"
    );
    assert_eq!(
        parse_failure_message("系统安装", None, "eof"),
        "系统安装结果无效：eof"
    );
}
