use vstd::prelude::*;
use crate::handler::ReplyAction;

verus! {

/// What the SMTP connection loop does after the session answered a line.
pub struct ReplyStep {
    /// Whether the reply is written to the client.
    pub send: bool,
    /// Whether the connection is closed afterwards.
    pub close: bool,
}

/// A reply is written for `Reply` and `Close`; the connection closes after
/// `Close`; `NoReply` and `UpgradeTls` write nothing and keep reading.
pub open spec fn reply_step_of(action: ReplyAction) -> (bool, bool) {
    match action {
        ReplyAction::Reply => (true, false),
        ReplyAction::NoReply => (false, false),
        ReplyAction::Close => (true, true),
        ReplyAction::UpgradeTls => (false, false),
    }
}

/// What the connection loop does after the session answered a line.
pub fn reply_step(action: ReplyAction) -> (step: ReplyStep)
    ensures
        (step.send, step.close) == reply_step_of(action),
{
    match action {
        ReplyAction::Reply => ReplyStep { send: true, close: false },
        ReplyAction::NoReply => ReplyStep { send: false, close: false },
        ReplyAction::Close => ReplyStep { send: true, close: true },
        ReplyAction::UpgradeTls => ReplyStep { send: false, close: false },
    }
}

/// Whether the connection loop goes on after reading a line: it stops at the
/// end of the stream (nothing read) and on a read error (`None`).
pub fn keep_reading(bytes_read: Option<usize>) -> (go_on: bool)
    ensures
        go_on == (bytes_read matches Some(n) && n > 0),
{
    match bytes_read {
        Some(n) => n > 0,
        None => false,
    }
}

} // verus!
