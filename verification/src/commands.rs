//! The five operations of the registry: start, stop, stop all, list and send.
//!
//! Spawning, killing and writing are the host's work. Each operation comes
//! in two layers. The functions that end in `_mcp_server` or `_mcp_servers`
//! run a whole operation and take the host's work as a function value. The
//! functions that begin with `plan_`, `conclude_` or `summarize_` hold the
//! decisions alone: they take what the host's work returned as a plain value
//! and say what becomes of the registry and what is reported.

use crate::outcome::{
    outcome_text, outcome_view, render, rendered_view, stop_failure_views, Failure, FailureView,
    OutcomeView, StopFailure, StopFailureView, Success, SuccessView,
};
use crate::registry::{
    entry_views, ids, is_tracked, position, texts, without, Entries, McpServerState, ProcessEntry,
};
use crate::text::{normalize_message, normalized};
use std::collections::HashMap;
use vstd::prelude::*;

verus! {

/// What the host is asked to spawn.
pub struct SpawnRequest {
    /// The executable: the first element of the command line.
    pub program: String,
    /// The arguments: the rest of the command line, in order.
    pub args: Vec<String>,
    /// Variables to lay over the inherited environment, as the caller gave them.
    pub environment: Option<HashMap<String, String>>,
    /// The directory to run in, as the caller gave it; `None` is the host's own.
    pub working_directory: Option<String>,
}

/// A process that the host spawned.
pub struct Spawned<H> {
    pub handle: H,
    pub pid: u32,
}

/// What has to happen after a start was asked for.
pub enum StartPlan {
    /// Nothing is spawned; this is the operation's result.
    Finished(Result<Success, Failure>),
    /// The host spawns this and reports back.
    Spawn(SpawnRequest),
}

/// What the host found when it tried to write a message to a process.
pub enum SendReport {
    /// Every byte was written and flushed.
    Delivered,
    /// The standard input of the process is closed or was taken.
    StdinUnavailable,
    /// Writing or flushing failed, for this reason.
    Failed(String),
}

/// What became of one process in a bulk stop.
pub struct KillReport {
    pub server_id: String,
    /// The reason why the process could not be terminated, if it could not.
    pub failure: Option<String>,
}

/// Whether `request` is what a start with these arguments hands to the host.
pub open spec fn request_matches(
    request: SpawnRequest,
    command: Seq<Seq<char>>,
    environment: Option<HashMap<String, String>>,
    working_directory: Option<String>,
) -> bool {
    &&& command.len() > 0
    &&& request.program@ == command[0]
    &&& texts(request.args@) == command.skip(1)
    &&& request.environment == environment
    &&& request.working_directory == working_directory
}

/// The result of a start that spawns nothing, if there is one: the
/// identifier is tracked already, or else the command line is empty.
pub open spec fn start_refusal<H>(
    entries: Entries<H>,
    server_id: Seq<char>,
    command: Seq<Seq<char>>,
) -> Option<OutcomeView> {
    if is_tracked(entries, server_id) {
        Some(Ok(SuccessView::AlreadyRunning { server_id }))
    } else if command.len() == 0 {
        Some(Err(FailureView::InvalidCommand { server_id }))
    } else {
        None
    }
}

/// The registry and the result after the host reported on a spawn.
pub open spec fn start_concluded<H>(
    entries: Entries<H>,
    server_id: Seq<char>,
    spawned: Result<Spawned<H>, String>,
) -> (Entries<H>, OutcomeView) {
    match spawned {
        Err(reason) => (entries, Err(FailureView::SpawnFailed { server_id, reason: reason@ })),
        Ok(process) => if is_tracked(entries, server_id) {
            (entries, Ok(SuccessView::AlreadyRunning { server_id }))
        } else {
            (
                entries.push((server_id, process.handle)),
                Ok(SuccessView::Started { server_id, pid: process.pid as nat }),
            )
        },
    }
}

/// The registry and the result after the host reported on a kill.
/// `remaining` is the registry without the process that was to be killed.
pub open spec fn stop_concluded<H>(
    remaining: Entries<H>,
    server_id: Seq<char>,
    killed: Result<(), (H, String)>,
) -> (Entries<H>, OutcomeView) {
    match killed {
        Ok(_) => (remaining, Ok(SuccessView::Stopped { server_id })),
        Err(kept) => (
            if is_tracked(remaining, server_id) {
                remaining
            } else {
                remaining.push((server_id, kept.0))
            },
            Err(FailureView::StopFailed { server_id, reason: kept.1@ }),
        ),
    }
}

/// The value of a kill report: the identifier and the reason of the failure.
pub open spec fn kill_report_view(report: KillReport) -> (Seq<char>, Option<Seq<char>>) {
    (
        report.server_id@,
        match report.failure {
            Some(reason) => Some(reason@),
            None => None,
        },
    )
}

/// The values of a list of kill reports, in order.
pub open spec fn kill_report_views(reports: Seq<KillReport>) -> Seq<
    (Seq<char>, Option<Seq<char>>),
> {
    reports.map_values(|report: KillReport| kill_report_view(report))
}

/// The failures among the reports, in the reports' order.
pub open spec fn failures(reports: Seq<(Seq<char>, Option<Seq<char>>)>) -> Seq<StopFailureView>
    decreases reports.len(),
{
    if reports.len() == 0 {
        Seq::empty()
    } else {
        let earlier = failures(reports.drop_last());
        match reports.last().1 {
            Some(reason) => earlier.push(
                StopFailureView { server_id: reports.last().0, reason },
            ),
            None => earlier,
        }
    }
}

/// The result of a bulk stop, given what became of each process.
pub open spec fn stop_all_outcome(reports: Seq<(Seq<char>, Option<Seq<char>>)>) -> OutcomeView {
    let failed = failures(reports);
    if failed.len() == 0 {
        Ok(SuccessView::StoppedAll { stopped_count: reports.len() })
    } else {
        Err(
            FailureView::PartialStopFailure {
                stopped_count: (reports.len() - failed.len()) as nat,
                total_count: reports.len(),
                failed,
            },
        )
    }
}

/// What a kill's result says of the process `server_id`.
pub open spec fn kill_outcome<H>(server_id: Seq<char>, killed: Result<(), (H, String)>) -> (
    Seq<char>,
    Option<Seq<char>>,
) {
    (
        server_id,
        match killed {
            Ok(_) => None,
            Err(kept) => Some(kept.1@),
        },
    )
}

/// What the kills' results say of the entries, one by one.
pub open spec fn kill_outcomes<H>(
    entries: Entries<H>,
    killed: Seq<Result<(), (H, String)>>,
) -> Seq<(Seq<char>, Option<Seq<char>>)> {
    Seq::new(entries.len(), |i: int| kill_outcome(entries[i].0, killed[i]))
}

/// The result of a send, given what the host found.
pub open spec fn send_concluded(server_id: Seq<char>, report: SendReport) -> OutcomeView {
    match report {
        SendReport::Delivered => Ok(SuccessView::Sent { server_id }),
        SendReport::StdinUnavailable => Err(FailureView::StdinUnavailable { server_id }),
        SendReport::Failed(reason) => Err(FailureView::SendFailed { server_id, reason: reason@ }),
    }
}

/// Decides what a start has to do, before anything is spawned.
///
/// A tracked identifier ends the start at once, as a success; otherwise an
/// empty command line ends it as a failure; otherwise the host is asked to
/// spawn the first element of the command line with the rest as arguments.
pub fn plan_start<H>(
    state: &McpServerState<H>,
    server_id: &str,
    command: Vec<String>,
    environment: Option<HashMap<String, String>>,
    working_directory: Option<String>,
) -> (plan: StartPlan)
    ensures
        match plan {
            StartPlan::Finished(outcome) => start_refusal(state@, server_id@, texts(command@))
                == Some(outcome_view(outcome)),
            StartPlan::Spawn(request) => start_refusal(state@, server_id@, texts(command@))
                is None && request_matches(
                request,
                texts(command@),
                environment,
                working_directory,
            ),
        },
{
    if state.is_running(server_id) {
        return StartPlan::Finished(
            Ok(Success::AlreadyRunning { server_id: String::from_str(server_id) }),
        );
    }
    if command.len() == 0 {
        return StartPlan::Finished(
            Err(Failure::InvalidCommand { server_id: String::from_str(server_id) }),
        );
    }
    let ghost whole = texts(command@);
    let mut args = command;
    let program = args.remove(0);
    assert(texts(args@) =~= whole.skip(1));
    StartPlan::Spawn(SpawnRequest { program, args, environment, working_directory })
}

/// Takes the host's report on a spawn into the registry.
///
/// A spawned process is tracked under `server_id`, unless the identifier is
/// tracked already: then the registry stays as it is. A failed spawn leaves
/// the registry untouched.
pub fn conclude_start<H>(
    state: &mut McpServerState<H>,
    server_id: String,
    spawned: Result<Spawned<H>, String>,
) -> (outcome: Result<Success, Failure>)
    ensures
        final(state)@ == start_concluded(old(state)@, server_id@, spawned).0,
        outcome_view(outcome) == start_concluded(old(state)@, server_id@, spawned).1,
{
    match spawned {
        Err(reason) => Err(Failure::SpawnFailed { server_id, reason }),
        Ok(process) => {
            let pid = process.pid;
            let named = server_id.clone();
            match state.register(server_id, process.handle) {
                Some(_) => Ok(Success::AlreadyRunning { server_id: named }),
                None => Ok(Success::Started { server_id: named, pid }),
            }
        },
    }
}

/// Starts a process under `server_id`, unless one is tracked already.
///
/// `spawn` is called at most once, and only when the identifier is free and
/// the command line is not empty; what it returns decides the rest.
pub fn start_mcp_server<H, S>(
    server_id: String,
    command: Vec<String>,
    environment: Option<HashMap<String, String>>,
    working_directory: Option<String>,
    state: &mut McpServerState<H>,
    spawn: S,
) -> (rendered: Result<String, String>) where S: FnOnce(SpawnRequest) -> Result<Spawned<H>, String>
    requires
        forall|request: SpawnRequest|
            request_matches(request, texts(command@), environment, working_directory)
                ==> call_requires(spawn, (request,)),
    ensures
        match start_refusal(old(state)@, server_id@, texts(command@)) {
            Some(outcome) => final(state)@ == old(state)@ && rendered_view(rendered)
                == outcome_text(outcome),
            None => exists|request: SpawnRequest, spawned: Result<Spawned<H>, String>|
                {
                    &&& request_matches(request, texts(command@), environment, working_directory)
                    &&& #[trigger] call_ensures(spawn, (request,), spawned)
                    &&& final(state)@ == start_concluded(old(state)@, server_id@, spawned).0
                    &&& rendered_view(rendered) == outcome_text(
                        start_concluded(old(state)@, server_id@, spawned).1,
                    )
                },
        },
{
    match plan_start(state, server_id.as_str(), command, environment, working_directory) {
        StartPlan::Finished(outcome) => render(&outcome),
        StartPlan::Spawn(request) => {
            let ghost asked = request;
            let spawned = spawn(request);
            let ghost reported = spawned;
            let outcome = conclude_start(state, server_id, spawned);
            assert(call_ensures(spawn, (asked,), reported));
            render(&outcome)
        },
    }
}

/// Takes the host's report on a kill into the registry.
///
/// The process was taken out of the registry before the kill. A kill that
/// failed puts it back, so that the registry still shows a process that the
/// operating system still has; a kill that went through leaves it out.
pub fn conclude_stop<H>(
    state: &mut McpServerState<H>,
    server_id: String,
    killed: Result<(), (H, String)>,
) -> (outcome: Result<Success, Failure>)
    ensures
        final(state)@ == stop_concluded(old(state)@, server_id@, killed).0,
        outcome_view(outcome) == stop_concluded(old(state)@, server_id@, killed).1,
{
    match killed {
        Ok(_) => Ok(Success::Stopped { server_id }),
        Err(kept) => {
            let named = server_id.clone();
            let _ = state.register(server_id, kept.0);
            Err(Failure::StopFailed { server_id: named, reason: kept.1 })
        },
    }
}

/// Stops the process tracked under `server_id`.
///
/// Stopping what is not tracked is a success and calls nothing. Otherwise
/// the handle leaves the registry and goes to `kill`, once; what `kill`
/// returns decides the rest.
pub fn stop_mcp_server<H, K>(server_id: String, state: &mut McpServerState<H>, kill: K) -> (rendered:
    Result<String, String>) where K: FnOnce(H) -> Result<(), (H, String)>
    requires
        is_tracked(old(state)@, server_id@) ==> call_requires(
            kill,
            (old(state)@[position(old(state)@, server_id@)].1,),
        ),
    ensures
        !is_tracked(old(state)@, server_id@) ==> final(state)@ == old(state)@ && rendered_view(
            rendered,
        ) == outcome_text(Ok(SuccessView::WasNotRunning { server_id: server_id@ })),
        is_tracked(old(state)@, server_id@) ==> exists|killed: Result<(), (H, String)>|
            {
                &&& #[trigger] call_ensures(
                    kill,
                    (old(state)@[position(old(state)@, server_id@)].1,),
                    killed,
                )
                &&& final(state)@ == stop_concluded(
                    without(old(state)@, server_id@),
                    server_id@,
                    killed,
                ).0
                &&& rendered_view(rendered) == outcome_text(
                    stop_concluded(without(old(state)@, server_id@), server_id@, killed).1,
                )
            },
{
    match state.take(server_id.as_str()) {
        None => render(&Ok(Success::WasNotRunning { server_id })),
        Some(handle) => {
            let killed = kill(handle);
            let ghost reported = killed;
            let outcome = conclude_stop(state, server_id, killed);
            assert(call_ensures(
                kill,
                (old(state)@[position(old(state)@, server_id@)].1,),
                reported,
            ));
            render(&outcome)
        },
    }
}

/// Sums up a bulk stop: how many processes were terminated, out of how
/// many, and which were not, with the reasons, in the order of the reports.
pub fn summarize_stop_all(reports: Vec<KillReport>) -> (outcome: Result<Success, Failure>)
    ensures
        outcome_view(outcome) == stop_all_outcome(kill_report_views(reports@)),
{
    let ghost views = kill_report_views(reports@);
    let total_count: usize = reports.len();
    let mut stopped_count: usize = 0;
    let mut failed: Vec<StopFailure> = Vec::new();
    let mut i: usize = 0;
    assert(views.take(0) =~= Seq::empty());
    while i < reports.len()
        invariant
            i <= reports.len(),
            views == kill_report_views(reports@),
            views.len() == reports.len(),
            stop_failure_views(failed@) == failures(views.take(i as int)),
            stopped_count + failed.len() == i,
        decreases reports.len() - i,
    {
        let ghost done = views.take(i as int);
        let ghost next = views.take(i + 1);
        let ghost listed = stop_failure_views(failed@);
        assert(next.drop_last() =~= done);
        assert(next.last() == kill_report_view(reports@[i as int]));
        match &reports[i].failure {
            None => {
                stopped_count = stopped_count + 1;
            },
            Some(reason) => {
                let failure = StopFailure {
                    server_id: reports[i].server_id.clone(),
                    reason: reason.clone(),
                };
                failed.push(failure);
                assert(stop_failure_views(failed@) =~= listed.push(failure@));
            },
        }
        i = i + 1;
    }
    assert(views.take(reports.len() as int) =~= views);
    if failed.len() == 0 {
        Ok(Success::StoppedAll { stopped_count })
    } else {
        Err(Failure::PartialStopFailure { stopped_count, total_count, failed })
    }
}

/// Stops every tracked process.
///
/// The registry is emptied first. Then `kill` is called once for each
/// handle, in the registry's order. A process that could not be terminated
/// is reported and not put back.
pub fn stop_all_mcp_servers<H, K>(state: &mut McpServerState<H>, kill: K) -> (rendered: Result<
    String,
    String,
>) where K: Fn(H) -> Result<(), (H, String)>
    requires
        forall|i: int|
            0 <= i < old(state)@.len() ==> call_requires(kill, (#[trigger] old(state)@[i].1,)),
    ensures
        final(state)@.len() == 0,
        exists|killed: Seq<Result<(), (H, String)>>|
            {
                &&& killed.len() == old(state)@.len()
                &&& forall|i: int|
                    0 <= i < killed.len() ==> call_ensures(
                        kill,
                        (old(state)@[i].1,),
                        #[trigger] killed[i],
                    )
                &&& rendered_view(rendered) == outcome_text(
                    stop_all_outcome(kill_outcomes(old(state)@, killed)),
                )
            },
{
    let mut waiting = state.drain();
    let ghost entries = old(state)@;
    let ghost mut killed: Seq<Result<(), (H, String)>> = Seq::empty();
    let mut reports: Vec<KillReport> = Vec::new();
    // The last entry is popped first, so the entries are turned round once.
    let mut reversed: Vec<ProcessEntry<H>> = Vec::new();
    while waiting.len() > 0
        invariant
            entry_views(waiting@) + entry_views(reversed@).reverse() == entries,
        decreases waiting.len(),
    {
        let ghost before = entry_views(waiting@);
        let ghost turned = entry_views(reversed@);
        let entry = waiting.pop().unwrap();
        reversed.push(entry);
        assert(entry_views(waiting@) =~= before.drop_last());
        assert(entry_views(reversed@) =~= turned.push(entry@));
        assert(entry_views(waiting@) + entry_views(reversed@).reverse() =~= before
            + turned.reverse());
    }
    assert(entry_views(reversed@).reverse() =~= entries);
    assert(kill_report_views(reports@) =~= kill_outcomes(entries, killed).take(0));
    while reversed.len() > 0
        invariant
            entries == old(state)@,
            entries.len() == reversed.len() + killed.len(),
            reports.len() == killed.len(),
            forall|i: int|
                0 <= i < entries.len() ==> call_requires(kill, (#[trigger] entries[i].1,)),
            forall|i: int|
                0 <= i < reversed.len() ==> (#[trigger] reversed@[i])@ == entries[entries.len() - 1
                    - i],
            forall|i: int|
                0 <= i < killed.len() ==> call_ensures(
                    kill,
                    (entries[i].1,),
                    #[trigger] killed[i],
                ),
            forall|i: int|
                0 <= i < killed.len() ==> (#[trigger] kill_report_views(reports@)[i])
                    == kill_outcome(entries[i].0, killed[i]),
        decreases reversed.len(),
    {
        let ghost done = killed.len() as int;
        let ghost told = kill_report_views(reports@);
        let entry = reversed.pop().unwrap();
        assert(entry@ == entries[done]);
        assert(call_requires(kill, (entries[done].1,)));
        let result = kill(entry.handle);
        proof {
            killed = killed.push(result);
        }
        let failure = match result {
            Ok(_) => None,
            Err(kept) => Some(kept.1),
        };
        let report = KillReport { server_id: entry.server_id, failure };
        reports.push(report);
        assert(kill_report_views(reports@) =~= told.push(kill_report_view(report)));
    }
    assert(kill_report_views(reports@) =~= kill_outcomes(entries, killed));
    let outcome = summarize_stop_all(reports);
    render(&outcome)
}

/// The identifiers of all tracked processes, in order of registration.
pub fn list_mcp_servers<H>(state: &McpServerState<H>) -> (listed: Result<Vec<String>, String>)
    ensures
        listed is Ok,
        texts(listed->Ok_0@) == ids(state@),
{
    Ok(state.list())
}

/// Turns the host's report on a write into the operation's result.
pub fn conclude_send(server_id: String, report: SendReport) -> (outcome: Result<Success, Failure>)
    ensures
        outcome_view(outcome) == send_concluded(server_id@, report),
{
    match report {
        SendReport::Delivered => Ok(Success::Sent { server_id }),
        SendReport::StdinUnavailable => Err(Failure::StdinUnavailable { server_id }),
        SendReport::Failed(reason) => Err(Failure::SendFailed { server_id, reason }),
    }
}

/// Sends `message` to the process tracked under `server_id`, as one line.
///
/// An identifier that is not tracked fails and calls nothing. Otherwise
/// `write` is called once, with the handle and the message made a complete
/// line; what it returns decides the rest. The registry does not change.
pub fn send_to_mcp_server<H, W>(
    server_id: String,
    message: String,
    state: &McpServerState<H>,
    write: W,
) -> (rendered: Result<String, String>) where W: FnOnce(&H, String) -> SendReport
    requires
        is_tracked(state@, server_id@) ==> forall|payload: String|
            payload@ == normalized(message@) ==> call_requires(
                write,
                (&state@[position(state@, server_id@)].1, payload),
            ),
    ensures
        !is_tracked(state@, server_id@) ==> rendered_view(rendered) == outcome_text(
            Err(FailureView::NotRunning { server_id: server_id@ }),
        ),
        is_tracked(state@, server_id@) ==> exists|payload: String, report: SendReport|
            {
                &&& payload@ == normalized(message@)
                &&& #[trigger] call_ensures(
                    write,
                    (&state@[position(state@, server_id@)].1, payload),
                    report,
                )
                &&& rendered_view(rendered) == outcome_text(send_concluded(server_id@, report))
            },
{
    match state.handle(server_id.as_str()) {
        None => render(&Err(Failure::NotRunning { server_id })),
        Some(handle) => {
            let payload = normalize_message(message.as_str());
            let ghost written = payload;
            let report = write(handle, payload);
            let ghost found = report;
            let outcome = conclude_send(server_id, report);
            assert(call_ensures(write, (&state@[position(state@, server_id@)].1, written), found));
            render(&outcome)
        },
    }
}

} // verus!
