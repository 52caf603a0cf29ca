//! The protocol between the launcher and the one-shot elevated helper it
//! starts: the helper writes a result record, first as a "pending"
//! placeholder and then as the final outcome; the launcher waits for the
//! helper and decides, from how the wait ended and what the record says,
//! whether the operation succeeded. Starting the helper, waiting, polling
//! and file access are done by the application shell, which hands each
//! outcome to these functions.

use crate::text::{decimal, decimal_string, owned, str_eq};
use vstd::prelude::*;

verus! {

/// The text of the placeholder record written before the helper works.
pub const ELEVATED_TASK_PENDING_MESSAGE: &'static str = "管理员操作未能返回最终结果";

/// How far an elevated helper got when waiting for it failed.
#[derive(Debug)]
pub struct ElevatedWaitFailure {
    /// The elevation prompt was accepted and the helper started.
    pub launched: bool,
    /// The helper is known to have exited.
    pub finished: bool,
    pub cause: String,
}

/// The record a helper leaves behind.
#[derive(Debug, Clone, PartialEq, Eq)]
pub enum ElevatedTaskResult {
    Success { value: String },
    Error { message: String },
}

/// The launcher's reading of a helper's record.
#[derive(Debug, Clone, PartialEq, Eq)]
pub enum ElevatedTaskRead {
    Success(String),
    Error(String),
    Pending,
}

/// What the launcher does once waiting for the helper has ended.
#[derive(Debug, Clone, PartialEq, Eq)]
pub enum ElevatedWaitStep {
    /// Report this error; the operation never started.
    Fail(String),
    /// Read the result record, knowing the helper's exit code if any.
    ReadResult(Option<u32>),
    /// The helper may still be running: poll the record until a deadline.
    Poll,
}

/// `ElevatedWaitStep` with its text as a character sequence.
pub enum WaitStepView {
    Fail(Seq<char>),
    ReadResult(Option<u32>),
    Poll,
}

impl View for ElevatedWaitStep {
    type V = WaitStepView;

    open spec fn view(&self) -> WaitStepView {
        match self {
            ElevatedWaitStep::Fail(m) => WaitStepView::Fail(m@),
            ElevatedWaitStep::ReadResult(c) => WaitStepView::ReadResult(*c),
            ElevatedWaitStep::Poll => WaitStepView::Poll,
        }
    }
}

/// `ElevatedTaskRead` with its text as a character sequence.
pub enum TaskReadView {
    Success(Seq<char>),
    Error(Seq<char>),
    Pending,
}

impl View for ElevatedTaskRead {
    type V = TaskReadView;

    open spec fn view(&self) -> TaskReadView {
        match self {
            ElevatedTaskRead::Success(v) => TaskReadView::Success(v@),
            ElevatedTaskRead::Error(m) => TaskReadView::Error(m@),
            ElevatedTaskRead::Pending => TaskReadView::Pending,
        }
    }
}

pub open spec fn u32_text(n: u32) -> Seq<char> {
    decimal(n as nat)
}

pub open spec fn not_elevated_message(operation: Seq<char>, cause: Seq<char>) -> Seq<char> {
    operation + "未获得管理员权限，操作未开始："@ + cause
}

/// The step after waiting: a helper that never started is an error; one
/// that exited, or whose exit code is known, has its record read; one in an
/// unknown state is polled.
pub open spec fn after_wait_spec(
    operation: Seq<char>,
    outcome: Result<u32, ElevatedWaitFailure>,
) -> WaitStepView {
    match outcome {
        Ok(code) => WaitStepView::ReadResult(Some(code)),
        Err(f) => if !f.launched {
            WaitStepView::Fail(not_elevated_message(operation, f.cause@))
        } else if f.finished {
            WaitStepView::ReadResult(None)
        } else {
            WaitStepView::Poll
        },
    }
}

fn concat3(a: &str, b: &str, c: &str) -> (r: String)
    ensures
        r@ == a@ + b@ + c@,
{
    let mut r = owned(a);
    r.append(b);
    r.append(c);
    r
}

/// Decides what follows the wait for an elevated helper.
pub fn after_elevated_wait(operation: &str, outcome: &Result<u32, ElevatedWaitFailure>) -> (r:
    ElevatedWaitStep)
    ensures
        r@ == after_wait_spec(operation@, *outcome),
{
    match outcome {
        Ok(code) => ElevatedWaitStep::ReadResult(Some(*code)),
        Err(failure) => {
            if !failure.launched {
                ElevatedWaitStep::Fail(
                    concat3(operation, "未获得管理员权限，操作未开始：", failure.cause.as_str()),
                )
            } else if failure.finished {
                ElevatedWaitStep::ReadResult(None)
            } else {
                ElevatedWaitStep::Poll
            }
        },
    }
}

pub open spec fn abnormal_exit_message(operation: Seq<char>, code: u32) -> Seq<char> {
    operation + "进程异常退出（退出代码 "@ + u32_text(code) + "）"@
}

/// How the launcher reads a helper's record: a success with a non-zero exit
/// code is an abnormal exit, the placeholder means the helper has not
/// finished, any other error is reported as written.
pub open spec fn interpret_spec(
    operation: Seq<char>,
    exit_code: Option<u32>,
    result: ElevatedTaskResult,
) -> TaskReadView {
    match result {
        ElevatedTaskResult::Success { value } => match exit_code {
            Some(code) => if code != 0 {
                TaskReadView::Error(abnormal_exit_message(operation, code))
            } else {
                TaskReadView::Success(value@)
            },
            None => TaskReadView::Success(value@),
        },
        ElevatedTaskResult::Error { message } => if message@ == ELEVATED_TASK_PENDING_MESSAGE@ {
            TaskReadView::Pending
        } else {
            TaskReadView::Error(message@)
        },
    }
}

/// Reads a helper's record, given its exit code when known.
pub fn interpret_elevated_task_result(
    operation: &str,
    exit_code: Option<u32>,
    result: ElevatedTaskResult,
) -> (r: ElevatedTaskRead)
    ensures
        r@ == interpret_spec(operation@, exit_code, result),
{
    match result {
        ElevatedTaskResult::Success { value } => match exit_code {
            Some(code) => {
                if code != 0 {
                    let digits = decimal_string(code as u64);
                    let mut m = concat3(operation, "进程异常退出（退出代码 ", digits.as_str());
                    m.append("）");
                    ElevatedTaskRead::Error(m)
                } else {
                    ElevatedTaskRead::Success(value)
                }
            },
            None => ElevatedTaskRead::Success(value),
        },
        ElevatedTaskResult::Error { message } => {
            if str_eq(message.as_str(), ELEVATED_TASK_PENDING_MESSAGE) {
                ElevatedTaskRead::Pending
            } else {
                ElevatedTaskRead::Error(message)
            }
        },
    }
}

pub open spec fn timeout_message(
    operation: Seq<char>,
    cause: Seq<char>,
    last_error: Option<Seq<char>>,
) -> Seq<char> {
    operation + "已启动，但无法确认管理员进程是否结束："@ + cause + match last_error {
        Some(m) => "；最后一次读取结果失败："@ + m,
        None => Seq::<char>::empty(),
    }
}

pub open spec fn opt_text_view(o: Option<String>) -> Option<Seq<char>> {
    match o {
        Some(s) => Some(s@),
        None => None,
    }
}

pub open spec fn outcome_view(r: Result<String, String>) -> Result<Seq<char>, Seq<char>> {
    match r {
        Ok(v) => Ok(v@),
        Err(m) => Err(m@),
    }
}

/// The error remembered after one poll: a failed read replaces it.
pub open spec fn poll_last_error(
    read: Result<ElevatedTaskRead, String>,
    last_error: Option<Seq<char>>,
) -> Option<Seq<char>> {
    match read {
        Err(m) => Some(m@),
        Ok(_) => last_error,
    }
}

/// One poll of the record while the helper's state is unknown: a final
/// record ends the wait with its outcome; otherwise the wait goes on until
/// the deadline and then ends in an error that names the last failed read.
pub open spec fn poll_spec(
    operation: Seq<char>,
    cause: Seq<char>,
    read: Result<ElevatedTaskRead, String>,
    last_error: Option<Seq<char>>,
    before_deadline: bool,
) -> Option<Result<Seq<char>, Seq<char>>> {
    match read {
        Ok(ElevatedTaskRead::Success(v)) => Some(Ok(v@)),
        Ok(ElevatedTaskRead::Error(m)) => Some(Err(m@)),
        _ => if before_deadline {
            None
        } else {
            Some(Err(timeout_message(operation, cause, poll_last_error(read, last_error))))
        },
    }
}

/// One poll of the result record; `last_error` carries the most recent
/// failed read from poll to poll.
pub fn poll_elevated_result(
    operation: &str,
    cause: &str,
    read: Result<ElevatedTaskRead, String>,
    last_error: &mut Option<String>,
    before_deadline: bool,
) -> (r: Option<Result<String, String>>)
    ensures
        opt_text_view(*final(last_error)) == poll_last_error(read, opt_text_view(*old(last_error))),
        match r {
            Some(o) => poll_spec(operation@, cause@, read, opt_text_view(*old(last_error)), before_deadline)
                == Some(outcome_view(o)),
            None => poll_spec(operation@, cause@, read, opt_text_view(*old(last_error)), before_deadline)
                is None,
        },
{
    match read {
        Ok(ElevatedTaskRead::Success(v)) => {
            return Some(Ok(v));
        },
        Ok(ElevatedTaskRead::Error(m)) => {
            return Some(Err(m));
        },
        Ok(ElevatedTaskRead::Pending) => {},
        Err(m) => {
            *last_error = Some(m);
        },
    }
    if before_deadline {
        return None;
    }
    let mut message = concat3(operation, "已启动，但无法确认管理员进程是否结束：", cause);
    match last_error {
        Some(m) => {
            let ghost before = message@;
            message.append("；最后一次读取结果失败：");
            message.append(m.as_str());
            assert(message@ =~= before + ("；最后一次读取结果失败："@ + m@));
        },
        None => {
            assert(message@ + Seq::<char>::empty() =~= message@);
        },
    }
    Some(Err(message))
}

pub open spec fn final_spec(operation: Seq<char>, read: TaskReadView) -> Result<Seq<char>, Seq<char>> {
    match read {
        TaskReadView::Success(v) => Ok(v),
        TaskReadView::Error(m) => Err(m),
        TaskReadView::Pending => Err(operation + "进程结束，但仍只返回了未完成占位结果"@),
    }
}

/// The outcome once the helper has exited and its record was read: a
/// record still holding the placeholder is an error.
pub fn final_elevated_result(operation: &str, read: ElevatedTaskRead) -> (r: Result<String, String>)
    ensures
        outcome_view(r) == final_spec(operation@, read@),
{
    match read {
        ElevatedTaskRead::Success(v) => Ok(v),
        ElevatedTaskRead::Error(m) => Err(m),
        ElevatedTaskRead::Pending => {
            let mut m = owned(operation);
            m.append("进程结束，但仍只返回了未完成占位结果");
            Err(m)
        },
    }
}

pub open spec fn read_failure_spec(operation: Seq<char>, exit_code: Option<u32>, cause: Seq<char>) -> Seq<
    char,
> {
    match exit_code {
        Some(c) => operation + "进程未返回结果（退出代码 "@ + u32_text(c) + "）："@ + cause,
        None => operation + "进程未返回结果："@ + cause,
    }
}

/// The error when the result record could not be read.
pub fn read_failure_message(operation: &str, exit_code: Option<u32>, cause: &str) -> (r: String)
    ensures
        r@ == read_failure_spec(operation@, exit_code, cause@),
{
    match exit_code {
        Some(c) => {
            let digits = decimal_string(c as u64);
            let mut m = concat3(operation, "进程未返回结果（退出代码 ", digits.as_str());
            m.append("）：");
            m.append(cause);
            m
        },
        None => concat3(operation, "进程未返回结果：", cause),
    }
}

pub open spec fn parse_failure_spec(operation: Seq<char>, exit_code: Option<u32>, cause: Seq<char>) -> Seq<
    char,
> {
    match exit_code {
        Some(c) => operation + "结果无效（退出代码 "@ + u32_text(c) + "）："@ + cause,
        None => operation + "结果无效："@ + cause,
    }
}

/// The error when the result record is not a valid record.
pub fn parse_failure_message(operation: &str, exit_code: Option<u32>, cause: &str) -> (r: String)
    ensures
        r@ == parse_failure_spec(operation@, exit_code, cause@),
{
    match exit_code {
        Some(c) => {
            let digits = decimal_string(c as u64);
            let mut m = concat3(operation, "结果无效（退出代码 ", digits.as_str());
            m.append("）：");
            m.append(cause);
            m
        },
        None => concat3(operation, "结果无效：", cause),
    }
}

pub open spec fn record_spec(outcome: Result<Seq<char>, Seq<char>>) -> (bool, Seq<char>) {
    match outcome {
        Ok(v) => (true, v),
        Err(m) => (false, m),
    }
}

pub open spec fn record_view(r: ElevatedTaskResult) -> (bool, Seq<char>) {
    match r {
        ElevatedTaskResult::Success { value } => (true, value@),
        ElevatedTaskResult::Error { message } => (false, message@),
    }
}

/// The record a helper writes for its outcome.
pub fn elevated_task_record(outcome: Result<String, String>) -> (r: ElevatedTaskResult)
    ensures
        record_view(r) == record_spec(outcome_view(outcome)),
{
    match outcome {
        Ok(value) => ElevatedTaskResult::Success { value },
        Err(message) => ElevatedTaskResult::Error { message },
    }
}

/// The placeholder record written before the helper starts its work.
pub fn pending_record() -> (r: ElevatedTaskResult)
    ensures
        record_view(r) == (false, ELEVATED_TASK_PENDING_MESSAGE@),
{
    ElevatedTaskResult::Error { message: owned(ELEVATED_TASK_PENDING_MESSAGE) }
}

/// The helper's exit code: zero only when its outcome was a success and
/// the record could be written.
pub fn elevated_exit_code(succeeded: bool, record_written: bool) -> (code: i32)
    ensures
        code == (if succeeded && record_written {
            0i32
        } else {
            1i32
        }),
{
    if record_written && succeeded {
        0
    } else {
        1
    }
}

/// What a helper writes is what the launcher reads: a success record read
/// with exit code zero, or with no exit code, is that success; an error
/// record other than the placeholder is that error whatever the exit code;
/// the placeholder reads as still pending.
pub proof fn law_elevated_record_round_trip(
    operation: Seq<char>,
    outcome: Result<String, String>,
    written: ElevatedTaskResult,
    exit_code: Option<u32>,
)
    requires
        record_view(written) == record_spec(outcome_view(outcome)),
    ensures
        (outcome is Ok && (exit_code == Some(0u32) || exit_code is None)) ==> interpret_spec(
            operation,
            exit_code,
            written,
        ) == TaskReadView::Success(outcome->Ok_0@),
        (outcome is Err && outcome->Err_0@ != ELEVATED_TASK_PENDING_MESSAGE@) ==> interpret_spec(
            operation,
            exit_code,
            written,
        ) == TaskReadView::Error(outcome->Err_0@),
        (outcome is Err && outcome->Err_0@ == ELEVATED_TASK_PENDING_MESSAGE@) ==> interpret_spec(
            operation,
            exit_code,
            written,
        ) == TaskReadView::Pending,
{
}

} // verus!
