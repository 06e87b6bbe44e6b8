//! What a registry operation reports: a tagged success or failure, and the
//! line of text that the host shows for it.

use crate::text::{decimal, push_decimal};
use vstd::prelude::*;

verus! {

/// A registry operation that went well.
#[derive(Debug, Clone, PartialEq, Eq)]
pub enum Success {
    /// A new process was spawned and is now tracked.
    Started { server_id: String, pid: u32 },
    /// Nothing was spawned: the identifier is tracked already.
    AlreadyRunning { server_id: String },
    /// The process was terminated and is no longer tracked.
    Stopped { server_id: String },
    /// There was nothing to stop under this identifier.
    WasNotRunning { server_id: String },
    /// Every tracked process was terminated.
    StoppedAll { stopped_count: usize },
    /// The message was written to the process and flushed.
    Sent { server_id: String },
}

/// One process that a bulk stop could not terminate.
#[derive(Debug, Clone, PartialEq, Eq)]
pub struct StopFailure {
    pub server_id: String,
    pub reason: String,
}

/// A registry operation that did not go through.
#[derive(Debug, Clone, PartialEq, Eq)]
pub enum Failure {
    /// The command line holds no executable.
    InvalidCommand { server_id: String },
    /// The operating system could not create the process.
    SpawnFailed { server_id: String, reason: String },
    /// No process is tracked under the identifier.
    NotRunning { server_id: String },
    /// The process is tracked but its standard input is closed or taken.
    StdinUnavailable { server_id: String },
    /// Writing or flushing the message failed.
    SendFailed { server_id: String, reason: String },
    /// The process could not be terminated and is still tracked.
    StopFailed { server_id: String, reason: String },
    /// A bulk stop terminated some processes but not all.
    PartialStopFailure { stopped_count: usize, total_count: usize, failed: Vec<StopFailure> },
}

/// The mathematical value of a [`Success`].
pub enum SuccessView {
    Started { server_id: Seq<char>, pid: nat },
    AlreadyRunning { server_id: Seq<char> },
    Stopped { server_id: Seq<char> },
    WasNotRunning { server_id: Seq<char> },
    StoppedAll { stopped_count: nat },
    Sent { server_id: Seq<char> },
}

/// The mathematical value of a [`StopFailure`].
pub struct StopFailureView {
    pub server_id: Seq<char>,
    pub reason: Seq<char>,
}

/// The mathematical value of a [`Failure`].
pub enum FailureView {
    InvalidCommand { server_id: Seq<char> },
    SpawnFailed { server_id: Seq<char>, reason: Seq<char> },
    NotRunning { server_id: Seq<char> },
    StdinUnavailable { server_id: Seq<char> },
    SendFailed { server_id: Seq<char>, reason: Seq<char> },
    StopFailed { server_id: Seq<char>, reason: Seq<char> },
    PartialStopFailure { stopped_count: nat, total_count: nat, failed: Seq<StopFailureView> },
}

/// The mathematical value of what an operation returns.
pub type OutcomeView = Result<SuccessView, FailureView>;

impl View for Success {
    type V = SuccessView;

    open spec fn view(&self) -> SuccessView {
        match *self {
            Success::Started { server_id, pid } => SuccessView::Started {
                server_id: server_id@,
                pid: pid as nat,
            },
            Success::AlreadyRunning { server_id } => SuccessView::AlreadyRunning {
                server_id: server_id@,
            },
            Success::Stopped { server_id } => SuccessView::Stopped { server_id: server_id@ },
            Success::WasNotRunning { server_id } => SuccessView::WasNotRunning {
                server_id: server_id@,
            },
            Success::StoppedAll { stopped_count } => SuccessView::StoppedAll {
                stopped_count: stopped_count as nat,
            },
            Success::Sent { server_id } => SuccessView::Sent { server_id: server_id@ },
        }
    }
}

impl View for StopFailure {
    type V = StopFailureView;

    open spec fn view(&self) -> StopFailureView {
        StopFailureView { server_id: self.server_id@, reason: self.reason@ }
    }
}

/// The values of a list of stop failures, in the list's order.
pub open spec fn stop_failure_views(failed: Seq<StopFailure>) -> Seq<StopFailureView> {
    failed.map_values(|f: StopFailure| f@)
}

impl View for Failure {
    type V = FailureView;

    open spec fn view(&self) -> FailureView {
        match *self {
            Failure::InvalidCommand { server_id } => FailureView::InvalidCommand {
                server_id: server_id@,
            },
            Failure::SpawnFailed { server_id, reason } => FailureView::SpawnFailed {
                server_id: server_id@,
                reason: reason@,
            },
            Failure::NotRunning { server_id } => FailureView::NotRunning { server_id: server_id@ },
            Failure::StdinUnavailable { server_id } => FailureView::StdinUnavailable {
                server_id: server_id@,
            },
            Failure::SendFailed { server_id, reason } => FailureView::SendFailed {
                server_id: server_id@,
                reason: reason@,
            },
            Failure::StopFailed { server_id, reason } => FailureView::StopFailed {
                server_id: server_id@,
                reason: reason@,
            },
            Failure::PartialStopFailure {
                stopped_count,
                total_count,
                failed,
            } => FailureView::PartialStopFailure {
                stopped_count: stopped_count as nat,
                total_count: total_count as nat,
                failed: stop_failure_views(failed@),
            },
        }
    }
}

/// The value of an operation's result.
pub open spec fn outcome_view(outcome: Result<Success, Failure>) -> OutcomeView {
    match outcome {
        Ok(success) => Ok(success@),
        Err(failure) => Err(failure@),
    }
}

impl SuccessView {
    /// The line of text shown for this success.
    pub open spec fn text(self) -> Seq<char> {
        match self {
            SuccessView::Started { server_id, pid } => "MCP server '"@ + server_id
                + "' started with PID: "@ + decimal(pid),
            SuccessView::AlreadyRunning { server_id } => "MCP server '"@ + server_id
                + "' is already running"@,
            SuccessView::Stopped { server_id } => "MCP server '"@ + server_id + "' stopped"@,
            SuccessView::WasNotRunning { server_id } => "MCP server '"@ + server_id
                + "' was not running"@,
            SuccessView::StoppedAll { stopped_count } => "Stopped "@ + decimal(stopped_count)
                + " MCP servers"@,
            SuccessView::Sent { server_id } => "Message sent to MCP server '"@ + server_id + "'"@,
        }
    }
}

impl StopFailureView {
    /// The identifier, a colon and the reason.
    pub open spec fn text(self) -> Seq<char> {
        self.server_id + ": "@ + self.reason
    }
}

/// The stop failures' texts in order, separated by a comma and a space.
pub open spec fn failure_list_text(failed: Seq<StopFailureView>) -> Seq<char>
    decreases failed.len(),
{
    if failed.len() == 0 {
        Seq::empty()
    } else if failed.len() == 1 {
        failed[0].text()
    } else {
        failure_list_text(failed.drop_last()) + ", "@ + failed.last().text()
    }
}

impl FailureView {
    /// The line of text shown for this failure.
    pub open spec fn text(self) -> Seq<char> {
        match self {
            FailureView::InvalidCommand { server_id } => "Failed to start MCP server '"@
                + server_id + "': command is empty"@,
            FailureView::SpawnFailed { server_id, reason } => "Failed to start MCP server '"@
                + server_id + "': "@ + reason,
            FailureView::NotRunning { server_id } => "MCP server '"@ + server_id
                + "' not running"@,
            FailureView::StdinUnavailable { server_id } => "Failed to get stdin of MCP server '"@
                + server_id + "'"@,
            FailureView::SendFailed {
                server_id,
                reason,
            } => "Failed to send message to MCP server '"@ + server_id + "': "@ + reason,
            FailureView::StopFailed { server_id, reason } => "Failed to stop MCP server '"@
                + server_id + "': "@ + reason,
            FailureView::PartialStopFailure { stopped_count, total_count, failed } => "Stopped "@
                + decimal(stopped_count) + "/"@ + decimal(total_count)
                + " servers. Failed to stop: "@ + failure_list_text(failed),
        }
    }
}

/// The text of an outcome, on the side on which the outcome stands.
pub open spec fn outcome_text(outcome: OutcomeView) -> Result<Seq<char>, Seq<char>> {
    match outcome {
        Ok(success) => Ok(success.text()),
        Err(failure) => Err(failure.text()),
    }
}

/// The value of a rendered result: the text on either side.
pub open spec fn rendered_view(rendered: Result<String, String>) -> Result<Seq<char>, Seq<char>> {
    match rendered {
        Ok(text) => Ok(text@),
        Err(text) => Err(text@),
    }
}

impl Success {
    /// The line of text shown for this success.
    pub fn message(&self) -> (text: String)
        ensures
            text@ == self@.text(),
    {
        match self {
            Success::Started { server_id, pid } => {
                let mut text = String::from_str("MCP server '");
                text.append(server_id.as_str());
                text.append("' started with PID: ");
                push_decimal(&mut text, *pid as u64);
                text
            },
            Success::AlreadyRunning { server_id } => {
                let mut text = String::from_str("MCP server '");
                text.append(server_id.as_str());
                text.append("' is already running");
                text
            },
            Success::Stopped { server_id } => {
                let mut text = String::from_str("MCP server '");
                text.append(server_id.as_str());
                text.append("' stopped");
                text
            },
            Success::WasNotRunning { server_id } => {
                let mut text = String::from_str("MCP server '");
                text.append(server_id.as_str());
                text.append("' was not running");
                text
            },
            Success::StoppedAll { stopped_count } => {
                let mut text = String::from_str("Stopped ");
                push_decimal(&mut text, *stopped_count as u64);
                text.append(" MCP servers");
                text
            },
            Success::Sent { server_id } => {
                let mut text = String::from_str("Message sent to MCP server '");
                text.append(server_id.as_str());
                text.append("'");
                text
            },
        }
    }
}

/// Appends the stop failures' texts to `out`, separated by a comma and a space.
fn push_failure_list(out: &mut String, failed: &Vec<StopFailure>)
    ensures
        final(out)@ == old(out)@ + failure_list_text(stop_failure_views(failed@)),
{
    let ghost views = stop_failure_views(failed@);
    let mut i: usize = 0;
    assert(views.take(0) =~= Seq::empty());
    assert(out@ =~= old(out)@ + failure_list_text(views.take(0)));
    while i < failed.len()
        invariant
            i <= failed.len(),
            views == stop_failure_views(failed@),
            views.len() == failed.len(),
            out@ == old(out)@ + failure_list_text(views.take(i as int)),
        decreases failed.len() - i,
    {
        let ghost before = out@;
        let ghost done = views.take(i as int);
        let ghost next = views.take(i + 1);
        assert(next.drop_last() =~= done);
        assert(next.last() == failed@[i as int]@);
        if i > 0 {
            out.append(", ");
        }
        out.append(failed[i].server_id.as_str());
        out.append(": ");
        out.append(failed[i].reason.as_str());
        proof {
            let entry = failed@[i as int]@;
            if i > 0 {
                assert(out@ =~= before + (", "@ + entry.text()));
                assert(failure_list_text(next) =~= failure_list_text(done) + ", "@ + entry.text());
                assert(out@ =~= old(out)@ + failure_list_text(next));
            } else {
                assert(done.len() == 0);
                assert(failure_list_text(done) =~= Seq::<char>::empty());
                assert(failure_list_text(next) == entry.text());
                assert(out@ =~= old(out)@ + failure_list_text(next));
            }
        }
        i = i + 1;
    }
    assert(views.take(failed.len() as int) =~= views);
}

impl Failure {
    /// The line of text shown for this failure.
    pub fn message(&self) -> (text: String)
        ensures
            text@ == self@.text(),
    {
        match self {
            Failure::InvalidCommand { server_id } => {
                let mut text = String::from_str("Failed to start MCP server '");
                text.append(server_id.as_str());
                text.append("': command is empty");
                text
            },
            Failure::SpawnFailed { server_id, reason } => {
                let mut text = String::from_str("Failed to start MCP server '");
                text.append(server_id.as_str());
                text.append("': ");
                text.append(reason.as_str());
                text
            },
            Failure::NotRunning { server_id } => {
                let mut text = String::from_str("MCP server '");
                text.append(server_id.as_str());
                text.append("' not running");
                text
            },
            Failure::StdinUnavailable { server_id } => {
                let mut text = String::from_str("Failed to get stdin of MCP server '");
                text.append(server_id.as_str());
                text.append("'");
                text
            },
            Failure::SendFailed { server_id, reason } => {
                let mut text = String::from_str("Failed to send message to MCP server '");
                text.append(server_id.as_str());
                text.append("': ");
                text.append(reason.as_str());
                text
            },
            Failure::StopFailed { server_id, reason } => {
                let mut text = String::from_str("Failed to stop MCP server '");
                text.append(server_id.as_str());
                text.append("': ");
                text.append(reason.as_str());
                text
            },
            Failure::PartialStopFailure { stopped_count, total_count, failed } => {
                let mut text = String::from_str("Stopped ");
                push_decimal(&mut text, *stopped_count as u64);
                text.append("/");
                push_decimal(&mut text, *total_count as u64);
                text.append(" servers. Failed to stop: ");
                push_failure_list(&mut text, failed);
                text
            },
        }
    }
}

/// Renders an outcome as the host shows it: the text of the success or of
/// the failure, on the same side of the `Result`.
pub fn render(outcome: &Result<Success, Failure>) -> (rendered: Result<String, String>)
    ensures
        rendered_view(rendered) == outcome_text(outcome_view(*outcome)),
{
    match outcome {
        Ok(success) => Ok(success.message()),
        Err(failure) => Err(failure.message()),
    }
}

} // verus!
