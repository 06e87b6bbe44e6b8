use mcp_registry::commands::{
    conclude_send, conclude_start, conclude_stop, list_mcp_servers, plan_start,
    send_to_mcp_server, start_mcp_server, stop_all_mcp_servers, stop_mcp_server,
    summarize_stop_all, KillReport, SendReport, SpawnRequest, Spawned, StartPlan,
};
use mcp_registry::outcome::{Failure, StopFailure, Success};
use mcp_registry::registry::McpServerState;
use std::cell::{Cell, RefCell};
use std::collections::HashMap;

/// A handle that stands for a process in these tests.
#[derive(Debug, Clone, PartialEq, Eq)]
struct Fake {
    pid: u32,
    killable: bool,
}

fn command(words: &[&str]) -> Vec<String> {
    words.iter().map(|w| String::from(*w)).collect()
}

fn spawn_ok(pid: u32) -> impl FnOnce(SpawnRequest) -> Result<Spawned<Fake>, String> {
    move |_request| Ok(Spawned { handle: Fake { pid, killable: true }, pid })
}

fn spawn_never(_request: SpawnRequest) -> Result<Spawned<Fake>, String> {
    panic!("nothing may be spawned here")
}

fn kill(handle: Fake) -> Result<(), (Fake, String)> {
    if handle.killable {
        Ok(())
    } else {
        Err((handle, String::from("Operation not permitted")))
    }
}

fn kill_never(_handle: Fake) -> Result<(), (Fake, String)> {
    panic!("nothing may be killed here")
}

fn registry_with(entries: &[(&str, u32, bool)]) -> McpServerState<Fake> {
    let mut state = McpServerState::new();
    for (id, pid, killable) in entries {
        let rejected = state.register(String::from(*id), Fake { pid: *pid, killable: *killable });
        assert_eq!(rejected, None);
    }
    state
}

#[test]
fn start_spawns_and_tracks() {
    let mut state: McpServerState<Fake> = McpServerState::new();
    let result = start_mcp_server(
        String::from("a"),
        command(&["node", "server.js"]),
        None,
        None,
        &mut state,
        spawn_ok(4021),
    );
    assert_eq!(result, Ok(String::from("MCP server 'a' started with PID: 4021")));
    assert_eq!(state.list(), vec![String::from("a")]);
    assert_eq!(state.handle("a"), Some(&Fake { pid: 4021, killable: true }));
}

#[test]
fn start_hands_the_command_line_to_the_spawn() {
    let mut state: McpServerState<Fake> = McpServerState::new();
    let mut environment = HashMap::new();
    environment.insert(String::from("TOKEN"), String::from("t0"));
    let seen: RefCell<Option<SpawnRequest>> = RefCell::new(None);
    let result = start_mcp_server(
        String::from("a"),
        command(&["npx", "-y", "some-server", "--stdio"]),
        Some(environment.clone()),
        Some(String::from("/srv/work")),
        &mut state,
        |request| {
            *seen.borrow_mut() = Some(request);
            Ok(Spawned { handle: Fake { pid: 1, killable: true }, pid: 1 })
        },
    );
    assert!(result.is_ok());
    let request = seen.into_inner().unwrap();
    assert_eq!(request.program, "npx");
    assert_eq!(request.args, command(&["-y", "some-server", "--stdio"]));
    assert_eq!(request.environment, Some(environment));
    assert_eq!(request.working_directory, Some(String::from("/srv/work")));
}

#[test]
fn start_with_a_bare_executable_has_no_arguments() {
    let state: McpServerState<Fake> = McpServerState::new();
    match plan_start(&state, "a", command(&["server"]), None, None) {
        StartPlan::Spawn(request) => {
            assert_eq!(request.program, "server");
            assert!(request.args.is_empty());
            assert_eq!(request.environment, None);
            assert_eq!(request.working_directory, None);
        }
        StartPlan::Finished(outcome) => panic!("finished with {:?}", outcome),
    }
}

#[test]
fn start_twice_is_already_running_and_spawns_once() {
    let mut state: McpServerState<Fake> = McpServerState::new();
    let first = start_mcp_server(
        String::from("a"),
        command(&["node", "server.js"]),
        None,
        None,
        &mut state,
        spawn_ok(7),
    );
    assert_eq!(first, Ok(String::from("MCP server 'a' started with PID: 7")));
    let second = start_mcp_server(
        String::from("a"),
        command(&["node", "other.js"]),
        None,
        None,
        &mut state,
        spawn_never,
    );
    assert_eq!(second, Ok(String::from("MCP server 'a' is already running")));
    assert_eq!(state.len(), 1);
    assert_eq!(state.list(), vec![String::from("a")]);
    assert_eq!(state.handle("a"), Some(&Fake { pid: 7, killable: true }));
}

#[test]
fn many_starts_of_one_identifier_spawn_once() {
    let mut state: McpServerState<Fake> = McpServerState::new();
    let spawned = Cell::new(0u32);
    let mut already = 0;
    for _ in 0..5 {
        let result = start_mcp_server(
            String::from("shared"),
            command(&["server"]),
            None,
            None,
            &mut state,
            |_request| {
                spawned.set(spawned.get() + 1);
                Ok(Spawned { handle: Fake { pid: 3, killable: true }, pid: 3 })
            },
        );
        if result == Ok(String::from("MCP server 'shared' is already running")) {
            already += 1;
        }
    }
    assert_eq!(spawned.get(), 1);
    assert_eq!(already, 4);
    assert_eq!(state.len(), 1);
}

#[test]
fn start_of_a_tracked_identifier_wins_over_an_empty_command() {
    let mut state = registry_with(&[("a", 1, true)]);
    let result =
        start_mcp_server(String::from("a"), Vec::new(), None, None, &mut state, spawn_never);
    assert_eq!(result, Ok(String::from("MCP server 'a' is already running")));
    assert_eq!(state.len(), 1);
}

#[test]
fn start_with_an_empty_command_is_invalid() {
    let mut state: McpServerState<Fake> = McpServerState::new();
    let result =
        start_mcp_server(String::from("a"), Vec::new(), None, None, &mut state, spawn_never);
    assert_eq!(result, Err(String::from("Failed to start MCP server 'a': command is empty")));
    assert!(state.is_empty());
    match plan_start(&state, "a", Vec::new(), None, None) {
        StartPlan::Finished(outcome) => {
            assert_eq!(outcome, Err(Failure::InvalidCommand { server_id: String::from("a") }))
        }
        StartPlan::Spawn(_) => panic!("nothing may be spawned here"),
    }
}

#[test]
fn failed_spawn_leaves_the_registry_untouched() {
    let mut state = registry_with(&[("other", 1, true)]);
    let result = start_mcp_server(
        String::from("a"),
        command(&["/no/such/binary"]),
        None,
        None,
        &mut state,
        |_request| Err(String::from("No such file or directory (os error 2)")),
    );
    assert_eq!(
        result,
        Err(String::from(
            "Failed to start MCP server 'a': No such file or directory (os error 2)"
        ))
    );
    assert_eq!(state.list(), vec![String::from("other")]);
    assert!(!state.is_running("a"));
}

#[test]
fn plan_start_of_tracked_identifier_is_finished() {
    let state = registry_with(&[("a", 1, true)]);
    match plan_start(&state, "a", command(&["server"]), None, None) {
        StartPlan::Finished(outcome) => {
            assert_eq!(outcome, Ok(Success::AlreadyRunning { server_id: String::from("a") }))
        }
        StartPlan::Spawn(_) => panic!("nothing may be spawned here"),
    }
}

#[test]
fn conclude_start_registers_the_spawned_process() {
    let mut state: McpServerState<Fake> = McpServerState::new();
    let outcome = conclude_start(
        &mut state,
        String::from("a"),
        Ok(Spawned { handle: Fake { pid: 9, killable: true }, pid: 9 }),
    );
    assert_eq!(outcome, Ok(Success::Started { server_id: String::from("a"), pid: 9 }));
    assert_eq!(state.handle("a"), Some(&Fake { pid: 9, killable: true }));
}

#[test]
fn conclude_start_never_overwrites() {
    let mut state = registry_with(&[("a", 1, true)]);
    let outcome = conclude_start(
        &mut state,
        String::from("a"),
        Ok(Spawned { handle: Fake { pid: 2, killable: true }, pid: 2 }),
    );
    assert_eq!(outcome, Ok(Success::AlreadyRunning { server_id: String::from("a") }));
    assert_eq!(state.handle("a"), Some(&Fake { pid: 1, killable: true }));
    assert_eq!(state.len(), 1);
}

#[test]
fn conclude_start_reports_a_failed_spawn() {
    let mut state: McpServerState<Fake> = McpServerState::new();
    let outcome = conclude_start(&mut state, String::from("a"), Err(String::from("denied")));
    assert_eq!(
        outcome,
        Err(Failure::SpawnFailed { server_id: String::from("a"), reason: String::from("denied") })
    );
    assert!(state.is_empty());
}

#[test]
fn stop_of_unknown_is_a_success() {
    let mut state = registry_with(&[("a", 1, true)]);
    let result = stop_mcp_server(String::from("ghost"), &mut state, kill_never);
    assert_eq!(result, Ok(String::from("MCP server 'ghost' was not running")));
    assert_eq!(state.list(), vec![String::from("a")]);
}

#[test]
fn stop_on_empty_registry_is_a_success() {
    let mut state: McpServerState<Fake> = McpServerState::new();
    let result = stop_mcp_server(String::from("a"), &mut state, kill_never);
    assert_eq!(result, Ok(String::from("MCP server 'a' was not running")));
    assert!(state.is_empty());
}

#[test]
fn stop_kills_and_forgets() {
    let mut state = registry_with(&[("a", 1, true), ("b", 2, true), ("c", 3, true)]);
    let killed: RefCell<Vec<u32>> = RefCell::new(Vec::new());
    let result = stop_mcp_server(String::from("b"), &mut state, |handle: Fake| {
        killed.borrow_mut().push(handle.pid);
        Ok(())
    });
    assert_eq!(result, Ok(String::from("MCP server 'b' stopped")));
    assert_eq!(killed.into_inner(), vec![2]);
    assert_eq!(state.list(), vec![String::from("a"), String::from("c")]);
    assert!(!list_mcp_servers(&state).unwrap().contains(&String::from("b")));
}

#[test]
fn stopped_identifier_is_not_running_afterwards() {
    let mut state = registry_with(&[("a", 1, true)]);
    assert_eq!(
        stop_mcp_server(String::from("a"), &mut state, kill),
        Ok(String::from("MCP server 'a' stopped"))
    );
    assert_eq!(
        stop_mcp_server(String::from("a"), &mut state, kill_never),
        Ok(String::from("MCP server 'a' was not running"))
    );
    assert_eq!(list_mcp_servers(&state), Ok(Vec::new()));
}

#[test]
fn failed_stop_keeps_the_process_tracked() {
    let mut state = registry_with(&[("a", 1, true), ("b", 2, false), ("c", 3, true)]);
    let result = stop_mcp_server(String::from("b"), &mut state, kill);
    assert_eq!(
        result,
        Err(String::from("Failed to stop MCP server 'b': Operation not permitted"))
    );
    assert!(state.is_running("b"));
    assert_eq!(state.handle("b"), Some(&Fake { pid: 2, killable: false }));
    assert_eq!(state.len(), 3);
    assert_eq!(
        state.list(),
        vec![String::from("a"), String::from("c"), String::from("b")]
    );
}

#[test]
fn conclude_stop_after_a_kill() {
    let mut state = registry_with(&[("a", 1, true)]);
    let outcome = conclude_stop(&mut state, String::from("b"), Ok(()));
    assert_eq!(outcome, Ok(Success::Stopped { server_id: String::from("b") }));
    assert_eq!(state.list(), vec![String::from("a")]);
}

#[test]
fn conclude_stop_puts_the_handle_back() {
    let mut state = registry_with(&[("a", 1, true)]);
    let outcome = conclude_stop(
        &mut state,
        String::from("b"),
        Err((Fake { pid: 2, killable: false }, String::from("denied"))),
    );
    assert_eq!(
        outcome,
        Err(Failure::StopFailed { server_id: String::from("b"), reason: String::from("denied") })
    );
    assert_eq!(state.list(), vec![String::from("a"), String::from("b")]);
    assert_eq!(state.handle("b"), Some(&Fake { pid: 2, killable: false }));
}

#[test]
fn conclude_stop_never_overwrites() {
    let mut state = registry_with(&[("b", 7, true)]);
    let outcome = conclude_stop(
        &mut state,
        String::from("b"),
        Err((Fake { pid: 2, killable: false }, String::from("denied"))),
    );
    assert_eq!(
        outcome,
        Err(Failure::StopFailed { server_id: String::from("b"), reason: String::from("denied") })
    );
    assert_eq!(state.len(), 1);
    assert_eq!(state.handle("b"), Some(&Fake { pid: 7, killable: true }));
}

#[test]
fn stop_all_on_empty_registry() {
    let mut state: McpServerState<Fake> = McpServerState::new();
    let result = stop_all_mcp_servers(&mut state, kill_never);
    assert_eq!(result, Ok(String::from("Stopped 0 MCP servers")));
    assert!(state.is_empty());
    assert_eq!(summarize_stop_all(Vec::new()), Ok(Success::StoppedAll { stopped_count: 0 }));
}

#[test]
fn stop_all_kills_everything_in_order() {
    let mut state = registry_with(&[("a", 1, true), ("b", 2, true), ("c", 3, true)]);
    let killed: RefCell<Vec<u32>> = RefCell::new(Vec::new());
    let result = stop_all_mcp_servers(&mut state, |handle: Fake| {
        killed.borrow_mut().push(handle.pid);
        Ok(())
    });
    assert_eq!(result, Ok(String::from("Stopped 3 MCP servers")));
    assert_eq!(killed.into_inner(), vec![1, 2, 3]);
    assert!(state.is_empty());
}

#[test]
fn stop_all_with_one_failure_names_it() {
    let mut state = registry_with(&[("a", 1, true), ("b", 2, false), ("c", 3, true)]);
    let result = stop_all_mcp_servers(&mut state, kill);
    assert_eq!(
        result,
        Err(String::from(
            "Stopped 2/3 servers. Failed to stop: b: Operation not permitted"
        ))
    );
    assert!(state.is_empty());
    assert!(!state.is_running("b"));
}

#[test]
fn stop_all_with_several_failures_lists_them_in_order() {
    let mut state =
        registry_with(&[("a", 1, false), ("b", 2, true), ("c", 3, false), ("d", 4, false)]);
    let result = stop_all_mcp_servers(&mut state, |handle: Fake| {
        if handle.killable {
            Ok(())
        } else {
            let reason = format!("error {}", handle.pid);
            Err((handle, reason))
        }
    });
    assert_eq!(
        result,
        Err(String::from(
            "Stopped 1/4 servers. Failed to stop: a: error 1, c: error 3, d: error 4"
        ))
    );
    assert!(state.is_empty());
}

#[test]
fn stop_all_where_everything_fails() {
    let mut state = registry_with(&[("a", 1, false)]);
    let result = stop_all_mcp_servers(&mut state, kill);
    assert_eq!(
        result,
        Err(String::from(
            "Stopped 0/1 servers. Failed to stop: a: Operation not permitted"
        ))
    );
    assert!(state.is_empty());
}

#[test]
fn summarize_counts_and_names() {
    let reports = vec![
        KillReport { server_id: String::from("a"), failure: None },
        KillReport { server_id: String::from("b"), failure: Some(String::from("denied")) },
        KillReport { server_id: String::from("c"), failure: None },
    ];
    assert_eq!(
        summarize_stop_all(reports),
        Err(Failure::PartialStopFailure {
            stopped_count: 2,
            total_count: 3,
            failed: vec![StopFailure {
                server_id: String::from("b"),
                reason: String::from("denied"),
            }],
        })
    );
}

#[test]
fn summarize_without_failure_counts_all() {
    let reports = vec![
        KillReport { server_id: String::from("a"), failure: None },
        KillReport { server_id: String::from("b"), failure: None },
    ];
    assert_eq!(summarize_stop_all(reports), Ok(Success::StoppedAll { stopped_count: 2 }));
}

#[test]
fn list_gives_the_tracked_identifiers() {
    let state = registry_with(&[("b", 2, true), ("a", 1, true)]);
    assert_eq!(list_mcp_servers(&state), Ok(vec![String::from("b"), String::from("a")]));
    let empty: McpServerState<Fake> = McpServerState::new();
    assert_eq!(list_mcp_servers(&empty), Ok(Vec::new()));
}

#[test]
fn send_to_unknown_is_not_running() {
    let state = registry_with(&[("a", 1, true)]);
    let result = send_to_mcp_server(
        String::from("ghost"),
        String::from("ping"),
        &state,
        |_handle: &Fake, _payload: String| -> SendReport { panic!("nothing may be written") },
    );
    assert_eq!(result, Err(String::from("MCP server 'ghost' not running")));
}

#[test]
fn send_appends_the_missing_terminator() {
    let state = registry_with(&[("a", 1, true), ("b", 2, true)]);
    let written: RefCell<Vec<(u32, Vec<u8>)>> = RefCell::new(Vec::new());
    let result = send_to_mcp_server(
        String::from("b"),
        String::from("ping"),
        &state,
        |handle: &Fake, payload: String| {
            written.borrow_mut().push((handle.pid, payload.into_bytes()));
            SendReport::Delivered
        },
    );
    assert_eq!(result, Ok(String::from("Message sent to MCP server 'b'")));
    assert_eq!(written.into_inner(), vec![(2, b"ping\n".to_vec())]);
    assert_eq!(state.len(), 2);
}

#[test]
fn send_does_not_double_the_terminator() {
    let state = registry_with(&[("a", 1, true)]);
    let written: RefCell<Vec<Vec<u8>>> = RefCell::new(Vec::new());
    let result = send_to_mcp_server(
        String::from("a"),
        String::from("ping\n"),
        &state,
        |_handle: &Fake, payload: String| {
            written.borrow_mut().push(payload.into_bytes());
            SendReport::Delivered
        },
    );
    assert_eq!(result, Ok(String::from("Message sent to MCP server 'a'")));
    assert_eq!(written.into_inner(), vec![b"ping\n".to_vec()]);
}

#[test]
fn send_with_stdin_gone() {
    let state = registry_with(&[("a", 1, true)]);
    let result = send_to_mcp_server(
        String::from("a"),
        String::from("ping"),
        &state,
        |_handle: &Fake, _payload: String| SendReport::StdinUnavailable,
    );
    assert_eq!(result, Err(String::from("Failed to get stdin of MCP server 'a'")));
    assert!(state.is_running("a"));
}

#[test]
fn send_that_fails_keeps_the_process_tracked() {
    let state = registry_with(&[("a", 1, true)]);
    let result = send_to_mcp_server(
        String::from("a"),
        String::from("ping"),
        &state,
        |_handle: &Fake, _payload: String| {
            SendReport::Failed(String::from("Broken pipe (os error 32)"))
        },
    );
    assert_eq!(
        result,
        Err(String::from(
            "Failed to send message to MCP server 'a': Broken pipe (os error 32)"
        ))
    );
    assert!(state.is_running("a"));
}

#[test]
fn conclude_send_maps_each_report() {
    assert_eq!(
        conclude_send(String::from("a"), SendReport::Delivered),
        Ok(Success::Sent { server_id: String::from("a") })
    );
    assert_eq!(
        conclude_send(String::from("a"), SendReport::StdinUnavailable),
        Err(Failure::StdinUnavailable { server_id: String::from("a") })
    );
    assert_eq!(
        conclude_send(String::from("a"), SendReport::Failed(String::from("EPIPE"))),
        Err(Failure::SendFailed { server_id: String::from("a"), reason: String::from("EPIPE") })
    );
}
