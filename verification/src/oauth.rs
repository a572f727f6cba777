//! Codex OAuth login flows (device code and PKCE): the decisions taken on each server
//! answer. The panel performs the requests and waits, these functions say what follows.

use vstd::prelude::*;
use vstd::string::StringExecFns;

use crate::text::{push_str, str_eq};

verus! {

/// State of a login flow as shown by the panel.
#[derive(Clone, Copy, PartialEq, Eq, Debug)]
pub enum FlowStatus {
    Idle,
    Starting,
    Polling,
    WaitingPaste,
    Exchanging,
    Completed,
    Failed,
    Expired,
}

impl FlowStatus {
    /// The status name used by the panel and the server.
    pub fn as_str(self) -> (s: &'static str)
        ensures
            s@ == match self {
                FlowStatus::Idle => "idle"@,
                FlowStatus::Starting => "starting"@,
                FlowStatus::Polling => "polling"@,
                FlowStatus::WaitingPaste => "waiting_paste"@,
                FlowStatus::Exchanging => "exchanging"@,
                FlowStatus::Completed => "completed"@,
                FlowStatus::Failed => "failed"@,
                FlowStatus::Expired => "expired"@,
            },
    {
        match self {
            FlowStatus::Idle => "idle",
            FlowStatus::Starting => "starting",
            FlowStatus::Polling => "polling",
            FlowStatus::WaitingPaste => "waiting_paste",
            FlowStatus::Exchanging => "exchanging",
            FlowStatus::Completed => "completed",
            FlowStatus::Failed => "failed",
            FlowStatus::Expired => "expired",
        }
    }
}

/// What the background poll loop does next.
#[derive(Clone, Copy, PartialEq, Eq, Debug)]
pub enum LoopStep {
    /// Sleep 500 ms and look again.
    Idle,
    /// Ask the server for the flow's status.
    Poll,
}

/// The poll loop only asks the server while the flow is polling and has a session.
pub fn poll_loop_step(status: FlowStatus, has_session: bool) -> (s: LoopStep)
    ensures
        s == if status == FlowStatus::Polling && has_session { LoopStep::Poll } else { LoopStep::Idle },
{
    match status {
        FlowStatus::Polling => if has_session { LoopStep::Poll } else { LoopStep::Idle },
        _ => LoopStep::Idle,
    }
}

/// What to do with one poll answer.
pub enum PollStep {
    /// Poll again after this many ms.
    Wait(u64),
    /// Login completed: record the account and refresh the key pool.
    Complete,
    /// The flow ended with this status; the error message replaces the shown one when given.
    Finish(FlowStatus, Option<String>),
}

/// Device-code flow: the step for a poll answer with `status` (and optional `error`),
/// polling every `interval_secs` seconds while pending.
pub fn device_poll_step(status: &str, error: Option<String>, interval_secs: u64) -> (s: PollStep)
    requires
        interval_secs * 1000 <= u64::MAX,
    ensures
        if status@ == "pending"@ {
            s == PollStep::Wait((interval_secs * 1000) as u64)
        } else if status@ == "completed"@ {
            s is Complete
        } else if status@ == "failed"@ {
            s == PollStep::Finish(FlowStatus::Failed, error)
        } else if status@ == "expired"@ {
            s == PollStep::Finish(FlowStatus::Expired, error)
        } else {
            s is Finish && s->Finish_0 == FlowStatus::Failed && s->Finish_1 is Some
                && s->Finish_1->0@ == "Unknown status: "@ + status@
        },
{
    if str_eq(status, "pending") {
        PollStep::Wait(interval_secs * 1000)
    } else if str_eq(status, "completed") {
        PollStep::Complete
    } else if str_eq(status, "failed") {
        PollStep::Finish(FlowStatus::Failed, error)
    } else if str_eq(status, "expired") {
        PollStep::Finish(FlowStatus::Expired, error)
    } else {
        let mut msg = String::from_str("Unknown status: ");
        push_str(&mut msg, status);
        PollStep::Finish(FlowStatus::Failed, Some(msg))
    }
}

/// Either flow: a poll request that failed (network or HTTP error) ends the flow as
/// failed, showing the request's error message.
pub fn poll_request_failed(error: String) -> (s: PollStep)
    ensures
        s == PollStep::Finish(FlowStatus::Failed, Some(error)),
{
    PollStep::Finish(FlowStatus::Failed, Some(error))
}

/// Device-code flow: the poll interval used for a flow whose start answer asked for
/// `poll_interval_secs` seconds (at least 3 s).
pub fn device_poll_interval(poll_interval_secs: u64) -> (secs: u64)
    ensures
        secs == if poll_interval_secs >= 3 { poll_interval_secs } else { 3 },
{
    if poll_interval_secs >= 3 {
        poll_interval_secs
    } else {
        3
    }
}

/// PKCE flow: the step for a poll answer; unknown states keep polling every 3 s, and a
/// failure without message reads `Login failed`.
pub fn pkce_poll_step(status: &str, error: Option<String>) -> (s: PollStep)
    ensures
        if status@ == "completed"@ {
            s is Complete
        } else if status@ == "failed"@ || status@ == "expired"@ {
            s is Finish && s->Finish_0 == (if status@ == "failed"@ {
                FlowStatus::Failed
            } else {
                FlowStatus::Expired
            }) && s->Finish_1 is Some && s->Finish_1->0@ == match error {
                Some(e) => e@,
                None => "Login failed"@,
            }
        } else {
            s == PollStep::Wait(3000)
        },
{
    if str_eq(status, "completed") {
        PollStep::Complete
    } else if str_eq(status, "failed") || str_eq(status, "expired") {
        let kind = if str_eq(status, "failed") { FlowStatus::Failed } else { FlowStatus::Expired };
        let msg = match error {
            Some(e) => e,
            None => String::from_str("Login failed"),
        };
        PollStep::Finish(kind, Some(msg))
    } else {
        PollStep::Wait(3000)
    }
}

/// PKCE flow: after a successful start, `auto` mode polls, any other mode waits for the
/// callback URL to be pasted.
pub fn pkce_started_status(mode: &str) -> (s: FlowStatus)
    ensures
        s == if mode@ == "auto"@ { FlowStatus::Polling } else { FlowStatus::WaitingPaste },
{
    if str_eq(mode, "auto") {
        FlowStatus::Polling
    } else {
        FlowStatus::WaitingPaste
    }
}

/// PKCE flow: confirming with a pasted callback URL. An empty URL is refused with a
/// message; otherwise the exchange starts.
pub fn pkce_confirm(callback_url: &str) -> (r: Result<FlowStatus, String>)
    ensures
        callback_url@.len() == 0 <==> r is Err,
        r is Err ==> r->Err_0@ == "Please paste the callback URL"@,
        r is Ok ==> r->Ok_0 == FlowStatus::Exchanging,
{
    if callback_url.is_empty() {
        Err(String::from_str("Please paste the callback URL"))
    } else {
        Ok(FlowStatus::Exchanging)
    }
}

/// PKCE flow: the result of the code exchange. `completed` completes the login; any
/// other answer fails with its error, or `Exchange failed` when it has none.
pub fn pkce_exchange_outcome(status: &str, error: Option<String>) -> (r: Result<(), String>)
    ensures
        status@ == "completed"@ <==> r is Ok,
        r is Err ==> r->Err_0@ == match error {
            Some(e) => e@,
            None => "Exchange failed"@,
        },
{
    if str_eq(status, "completed") {
        Ok(())
    } else {
        match error {
            Some(e) => Err(e),
            None => Err(String::from_str("Exchange failed")),
        }
    }
}

} // verus!
