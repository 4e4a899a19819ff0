use tive::host::{
    bus_event, create_file_if_not_exists, httpd_config, may_continue, provisioning_result,
    BusRead, ChildStatus, CommandOutcome, ConfigFile, HostEvent, HostMessage, HostProcess,
    HostState, HostStep, TeardownAction, HTTPD_CONFIG_HEAD, HTTPD_CONFIG_MIDDLE,
    HTTPD_CONFIG_TAIL,
    COMMAND_ALIAS_FILE, CUSTOM_RULES_FILE, EVENT_CAPACITY, GRACE_PERIOD_MS, HOST_REPOSITORY,
    HOST_REVISION, HTTPD_CONFIG_FILE, MCP_CONFIG_FILE, MODEL_CONFIG_FILE, PARSE_FAILED,
    READ_FAILED,
};
use tive::session::StartupError;
use tive::shared::Dirs;

const DONE: CommandOutcome = CommandOutcome::Exited { success: true };
const FAILED: CommandOutcome = CommandOutcome::Exited { success: false };

fn provisioned_host() -> HostProcess {
    let mut host = HostProcess::new("/tmp");
    assert!(host.advance(HostStep::DirectoriesCreated));
    assert_eq!(host.provisioned(true, &vec![DONE]), Ok(()));
    host
}

const STATUS_UP: &str = "{\"timestamp\":\"2025-04-01T10:00:00Z\",\"status\":{\"state\":\"UP\",\"last_error\":null,\"error_code\":null},\"server\":{\"listen\":{\"ip\":\"127.0.0.1\",\"port\":61990}}}";

fn contents(text: &str) -> BusRead {
    BusRead::Contents(text.as_bytes().to_vec())
}

fn strings(items: &[&str]) -> Vec<String> {
    items.iter().map(|item| item.to_string()).collect()
}

#[test]
fn truncated_write_gives_an_error_and_the_next_write_a_message() {
    let truncated = &STATUS_UP[..40];
    match bus_event(false, &contents(truncated)) {
        Some(HostEvent::Error(reason)) => assert_eq!(reason, "Failed to parse host message"),
        other => panic!("unexpected {:?}", other),
    }
    match bus_event(false, &contents(STATUS_UP)) {
        Some(HostEvent::BusMessage(message)) => {
            assert_eq!(message.timestamp, "2025-04-01T10:00:00Z");
            assert_eq!(message.status.state, "UP");
            assert!(message.status.last_error.is_none());
            assert!(message.status.error_code.is_none());
            assert_eq!(message.endpoint(), Some(("127.0.0.1".to_string(), 61990)));
        }
        other => panic!("unexpected {:?}", other),
    }
}

#[test]
fn directory_events_and_empty_files_give_no_event() {
    assert!(bus_event(true, &contents(STATUS_UP)).is_none());
    assert!(bus_event(true, &BusRead::ReadFailed).is_none());
    assert!(bus_event(true, &BusRead::OpenFailed).is_none());
    assert!(bus_event(false, &contents("")).is_none());
}

#[test]
fn unreadable_bus_file_gives_an_error_event() {
    assert_eq!(READ_FAILED, "Failed to read host message");
    assert_eq!(PARSE_FAILED, "Failed to parse host message");
    match bus_event(false, &BusRead::ReadFailed) {
        Some(HostEvent::Error(reason)) => assert_eq!(reason, READ_FAILED),
        other => panic!("unexpected {:?}", other),
    }
    match bus_event(false, &BusRead::OpenFailed) {
        Some(HostEvent::Error(reason)) => assert_eq!(reason, READ_FAILED),
        other => panic!("unexpected {:?}", other),
    }
}

#[test]
fn status_record_without_server_has_no_endpoint() {
    let text = "{\"timestamp\":\"t\",\"status\":{\"state\":\"INIT\"}}";
    let message = HostMessage::parse(text.as_bytes()).unwrap();
    assert_eq!(message.status.state, "INIT");
    assert!(message.server.is_none());
    assert!(message.endpoint().is_none());
    let text = "{\"timestamp\":\"t\",\"status\":{\"state\":\"INIT\"},\"server\":null}";
    assert!(HostMessage::parse(text.as_bytes()).unwrap().server.is_none());
    let text = "{\"timestamp\":\"t\",\"status\":{\"state\":\"INIT\"},\"server\":{}}";
    let message = HostMessage::parse(text.as_bytes()).unwrap();
    assert!(message.server.unwrap().listen.is_none());
    let text = "{\"timestamp\":\"t\",\"status\":{\"state\":\"INIT\"},\"server\":{\"listen\":null}}";
    let message = HostMessage::parse(text.as_bytes()).unwrap();
    assert!(message.endpoint().is_none());
}

#[test]
fn status_record_keeps_its_errors() {
    let text = "{\"timestamp\":\"t\",\"status\":{\"state\":\"FAILED\",\"last_error\":\"boom\",\"error_code\":\"E1\"}}";
    let message = HostMessage::parse(text.as_bytes()).unwrap();
    assert_eq!(message.status.last_error.as_deref(), Some("boom"));
    assert_eq!(message.status.error_code.as_deref(), Some("E1"));
}

#[test]
fn status_record_must_follow_the_schema() {
    let wrong = [
        "",
        "null",
        "[]",
        "{}",
        "{\"timestamp\":\"t\"}",
        "{\"status\":{\"state\":\"UP\"}}",
        "{\"timestamp\":5,\"status\":{\"state\":\"UP\"}}",
        "{\"timestamp\":\"t\",\"status\":{}}",
        "{\"timestamp\":\"t\",\"status\":{\"state\":1}}",
        "{\"timestamp\":\"t\",\"status\":{\"state\":\"UP\",\"last_error\":7}}",
        "{\"timestamp\":\"t\",\"status\":{\"state\":\"UP\",\"error_code\":[]}}",
        "{\"timestamp\":\"t\",\"status\":{\"state\":\"UP\"},\"server\":{\"listen\":{}}}",
        "{\"timestamp\":\"t\",\"status\":{\"state\":\"UP\"},\"server\":{\"listen\":{\"ip\":\"h\"}}}",
        "{\"timestamp\":\"t\",\"status\":{\"state\":\"UP\"},\"server\":{\"listen\":{\"port\":1}}}",
        "{\"timestamp\":\"t\",\"status\":{\"state\":\"UP\"},\"server\":{\"listen\":{\"ip\":\"h\",\"port\":65536}}}",
        "{\"timestamp\":\"t\",\"status\":{\"state\":\"UP\"},\"server\":{\"listen\":{\"ip\":\"h\",\"port\":-1}}}",
        "{\"timestamp\":\"t\",\"status\":{\"state\":\"UP\"},\"server\":{\"listen\":{\"ip\":\"h\",\"port\":1.5}}}",
        "{\"timestamp\":\"t\",\"status\":{\"state\":\"UP\"},\"server\":{\"listen\":{\"ip\":\"h\",\"port\":\"1\"}}}",
    ];
    for text in wrong {
        assert!(HostMessage::parse(text.as_bytes()).is_none(), "accepted {}", text);
    }
}

#[test]
fn port_takes_the_whole_range() {
    for (text, port) in [("0", 0u16), ("80", 80), ("65535", 65535)] {
        let record = format!(
            "{{\"timestamp\":\"t\",\"status\":{{\"state\":\"UP\"}},\"server\":{{\"listen\":{{\"ip\":\"h\",\"port\":{}}}}}}}",
            text
        );
        let message = HostMessage::parse(record.as_bytes()).unwrap();
        assert_eq!(message.endpoint(), Some(("h".to_string(), port)));
    }
}

#[test]
fn file_names_of_the_configuration() {
    assert_eq!(COMMAND_ALIAS_FILE, "command_alias.json");
    assert_eq!(CUSTOM_RULES_FILE, "customrules");
    assert_eq!(MCP_CONFIG_FILE, "mcp_config.json");
    assert_eq!(MODEL_CONFIG_FILE, "model_config.json");
    assert_eq!(HTTPD_CONFIG_FILE, "dive_httpd.json");
}

#[test]
fn default_configuration_files_have_their_literal_contents() {
    let files = HostProcess::init_host_config("/cfg/host", "/data/host");
    let listed: Vec<(&str, &str)> =
        files.iter().map(|file| (file.path.as_str(), file.content.as_str())).collect();
    let httpd = "{\n    \"db\": {\n        \"uri\": \"sqlite:////data/host/dived.sqlite\",\n        \"pool_size\": 5,\n        \"pool_recycle\": 60,\n        \"max_overflow\": 10,\n        \"echo\": false,\n        \"pool_pre_ping\": true,\n        \"migrate\": true\n        },\n    \"checkpointer\": {\n        \"uri\": \"sqlite:////data/host/dived.sqlite\"\n    }\n}";
    assert_eq!(
        listed,
        vec![
            ("/cfg/host/command_alias.json", "{}"),
            ("/cfg/host/customrules", ""),
            ("/cfg/host/mcp_config.json", "{\"mcpServers\":{}}"),
            (
                "/cfg/host/model_config.json",
                "{\"activeProvider\":\"fake\",\"enableTools\":true,\"disableDiveSystemPrompt\":false}"
            ),
            ("/cfg/host/dive_httpd.json", httpd),
        ]
    );
    assert_eq!(httpd_config("/data/host"), httpd);
    assert_eq!(
        httpd_config("/d"),
        format!("{}/d{}/d{}", HTTPD_CONFIG_HEAD, HTTPD_CONFIG_MIDDLE, HTTPD_CONFIG_TAIL)
    );
}

#[test]
fn server_configuration_is_valid_json() {
    let text = httpd_config("/d");
    let value: serde_json::Value = serde_json::from_str(&text).unwrap();
    assert_eq!(value["db"]["uri"].as_str(), Some("sqlite:////d/dived.sqlite"));
    assert_eq!(value["db"]["pool_size"].as_u64(), Some(5));
    assert_eq!(value["checkpointer"]["uri"].as_str(), Some("sqlite:////d/dived.sqlite"));
}

#[test]
fn setup_names_three_directories_and_five_files() {
    let dirs = Dirs {
        config: "/home/u/.config/tive".to_string(),
        data: "/home/u/.local/share/tive".to_string(),
        cache: "/home/u/.cache/tive".to_string(),
    };
    let setup = HostProcess::initialize(&dirs, true);
    assert_eq!(
        setup.directories,
        strings(&[
            "/home/u/.config/tive/host",
            "/home/u/.local/share/tive/host",
            "/home/u/.cache/tive/host",
        ])
    );
    let fresh = HostProcess::initialize(&dirs, false);
    assert_eq!(
        fresh.directories,
        strings(&["/home/u/.config/tive/host", "/home/u/.cache/tive/host"])
    );
    assert_eq!(fresh.files.len(), 5);
    assert_eq!(fresh.files[4].path, "/home/u/.config/tive/host/dive_httpd.json");
    assert_eq!(setup.files.len(), 5);
    assert_eq!(setup.files[0].path, "/home/u/.config/tive/host/command_alias.json");
    assert_eq!(setup.files[4].path, "/home/u/.config/tive/host/dive_httpd.json");
    assert!(setup.files[4].content.contains("sqlite:////home/u/.local/share/tive/host/dived.sqlite"));
}

#[test]
fn existing_file_is_never_written() {
    let file = ConfigFile { path: "/cfg/mcp_config.json".to_string(), content: "{}".to_string() };
    assert!(create_file_if_not_exists(file, true).is_none());
    let file = ConfigFile { path: "/cfg/mcp_config.json".to_string(), content: "{}".to_string() };
    let write = create_file_if_not_exists(file, false).unwrap();
    assert_eq!(write.path, "/cfg/mcp_config.json");
    assert_eq!(write.content, "{}");
}

#[test]
fn initializing_twice_keeps_what_the_user_wrote() {
    let mut disk: std::collections::BTreeMap<String, String> = std::collections::BTreeMap::new();
    disk.insert("/cfg/mcp_config.json".to_string(), "{\"mcpServers\":{\"mine\":{}}}".to_string());
    for _ in 0..2 {
        for file in HostProcess::init_host_config("/cfg", "/data") {
            let exists = disk.contains_key(&file.path);
            if let Some(write) = create_file_if_not_exists(file, exists) {
                disk.insert(write.path, write.content);
            }
        }
        assert_eq!(disk.len(), 5);
        assert_eq!(disk["/cfg/mcp_config.json"], "{\"mcpServers\":{\"mine\":{}}}");
        assert_eq!(disk["/cfg/command_alias.json"], "{}");
    }
    disk.insert("/cfg/command_alias.json".to_string(), "{\"x\":\"y\"}".to_string());
    for file in HostProcess::init_host_config("/cfg", "/data") {
        let exists = disk.contains_key(&file.path);
        assert!(create_file_if_not_exists(file, exists).is_none());
    }
    assert_eq!(disk["/cfg/command_alias.json"], "{\"x\":\"y\"}");
}

#[test]
fn provisioning_clones_only_what_is_missing() {
    assert_eq!(HOST_REPOSITORY, "https://github.com/OpenAgentPlatform/dive-mcp-host.git");
    assert_eq!(HOST_REVISION, "v0.1.5");
    let fresh = HostProcess::clone_host("/data/host", false, "/usr/bin");
    assert_eq!(fresh.len(), 2);
    assert_eq!(fresh[0].program, "git");
    assert_eq!(fresh[0].args, strings(&["clone", HOST_REPOSITORY, "/data/host"]));
    assert_eq!(fresh[0].envs, vec![("PATH".to_string(), "/usr/bin".to_string())]);
    assert_eq!(fresh[0].current_dir, None);
    assert_eq!(fresh[1].program, "git");
    assert_eq!(fresh[1].args, strings(&["switch", "v0.1.5"]));
    assert_eq!(fresh[1].envs, vec![("PATH".to_string(), "/usr/bin".to_string())]);
    assert_eq!(fresh[1].current_dir.as_deref(), Some("/data/host"));
    let again = HostProcess::clone_host("/data/host", true, "/usr/bin");
    assert_eq!(again.len(), 1);
    assert_eq!(again[0].args, strings(&["switch", "v0.1.5"]));
    assert_eq!(again[0].current_dir.as_deref(), Some("/data/host"));
}

#[test]
fn host_is_launched_with_the_bus_file_and_its_directories() {
    let host = provisioned_host();
    assert_eq!(host.file_path(), "/tmp/tive/bus");
    assert_eq!(HostProcess::new("/tmp/").file_path(), "/tmp/tive/bus");
    let command = host.spawn("/cfg/host", "/cache/host", "/data/host", "/bin:/usr/bin").unwrap();
    assert_eq!(command.program, "uv");
    assert_eq!(
        command.args,
        strings(&["run", "dive_httpd", "--port", "0", "--report_status_file", "/tmp/tive/bus"])
    );
    assert_eq!(
        command.envs,
        vec![
            ("PATH".to_string(), "/bin:/usr/bin".to_string()),
            ("DIVE_CONFIG_DIR".to_string(), "/cfg/host".to_string()),
            ("RESOURCE_DIR".to_string(), "/cache/host".to_string()),
        ]
    );
    assert_eq!(command.current_dir.as_deref(), Some("/data/host"));
}

#[test]
fn supervisor_walks_through_its_states() {
    let mut host = HostProcess::new("/tmp");
    assert_eq!(host.current_state(), HostState::Uninitialized);
    assert!(!host.advance(HostStep::SourceProvisioned));
    assert!(!host.advance(HostStep::ChildSpawned(Some(1))));
    assert!(!host.advance(HostStep::StatusReceived));
    assert!(!host.advance(HostStep::ChildGone));
    assert_eq!(host.current_state(), HostState::Uninitialized);
    assert!(host.advance(HostStep::DirectoriesCreated));
    assert_eq!(host.current_state(), HostState::DirectoriesReady);
    assert!(!host.advance(HostStep::DirectoriesCreated));
    assert!(host.advance(HostStep::SourceProvisioned));
    assert_eq!(host.current_state(), HostState::SourceProvisioned);
    assert!(host.advance(HostStep::ChildSpawned(Some(4242))));
    assert_eq!(host.current_state(), HostState::ChildSpawned);
    assert!(host.advance(HostStep::StatusReceived));
    assert_eq!(host.current_state(), HostState::Running);
    assert!(host.advance(HostStep::StatusReceived));
    assert_eq!(host.current_state(), HostState::Running);
    assert!(host.advance(HostStep::TeardownStarted));
    assert_eq!(host.current_state(), HostState::Terminating);
    assert!(!host.advance(HostStep::TeardownStarted));
    assert!(host.advance(HostStep::ChildGone));
    assert_eq!(host.current_state(), HostState::Terminated);
    assert!(!host.advance(HostStep::DirectoriesCreated));
    assert!(!host.advance(HostStep::TeardownStarted));
    assert_eq!(host.current_state(), HostState::Terminated);
}

#[test]
fn teardown_without_a_host_only_stops_the_watcher() {
    let mut host = HostProcess::new("/tmp");
    assert_eq!(host.teardown(), vec![TeardownAction::AbortWatcher]);
    assert_eq!(host.current_state(), HostState::Terminated);
    let mut host = HostProcess::new("/tmp");
    host.advance(HostStep::DirectoriesCreated);
    host.advance(HostStep::SourceProvisioned);
    assert_eq!(host.teardown(), vec![TeardownAction::AbortWatcher]);
    assert_eq!(host.current_state(), HostState::Terminated);
}

#[test]
fn teardown_asks_waits_and_kills() {
    assert_eq!(GRACE_PERIOD_MS, 300);
    assert_eq!(EVENT_CAPACITY, 1);
    let mut host = HostProcess::new("/tmp");
    host.advance(HostStep::DirectoriesCreated);
    host.advance(HostStep::SourceProvisioned);
    host.advance(HostStep::ChildSpawned(Some(4242)));
    assert_eq!(
        host.teardown(),
        vec![
            TeardownAction::AbortWatcher,
            TeardownAction::Terminate(4242),
            TeardownAction::Wait(300),
            TeardownAction::KillIfRunning,
        ]
    );
    assert_eq!(host.current_state(), HostState::Terminating);
    assert!(host.after_grace(ChildStatus::Running));
    assert_eq!(host.current_state(), HostState::Terminated);
}

#[test]
fn teardown_without_a_process_id_sends_no_signal() {
    let mut host = HostProcess::new("/tmp");
    host.advance(HostStep::DirectoriesCreated);
    host.advance(HostStep::SourceProvisioned);
    host.advance(HostStep::ChildSpawned(None));
    host.advance(HostStep::StatusReceived);
    assert_eq!(
        host.teardown(),
        vec![
            TeardownAction::AbortWatcher,
            TeardownAction::Wait(300),
            TeardownAction::KillIfRunning,
        ]
    );
    assert!(!host.after_grace(ChildStatus::Exited));
    assert_eq!(host.current_state(), HostState::Terminated);
}

#[test]
fn only_a_running_host_is_killed_after_the_grace_period() {
    for (status, kill) in [
        (ChildStatus::Running, true),
        (ChildStatus::Exited, false),
        (ChildStatus::Unknown, false),
    ] {
        let mut host = HostProcess::new("/tmp");
        host.advance(HostStep::DirectoriesCreated);
        host.advance(HostStep::SourceProvisioned);
        host.advance(HostStep::ChildSpawned(Some(7)));
        host.teardown();
        assert_eq!(host.after_grace(status), kill);
    }
}

#[test]
fn teardown_twice_gives_the_same_steps() {
    let mut host = HostProcess::new("/tmp");
    host.advance(HostStep::DirectoriesCreated);
    host.advance(HostStep::SourceProvisioned);
    host.advance(HostStep::ChildSpawned(Some(9)));
    let first = host.teardown();
    let second = host.teardown();
    assert_eq!(first, second);
    assert_eq!(host.current_state(), HostState::Terminating);
}

#[test]
fn provisioning_needs_every_command_to_succeed() {
    assert_eq!(provisioning_result(true, &vec![DONE]), Ok(()));
    assert_eq!(provisioning_result(false, &vec![DONE, DONE]), Ok(()));
    let failures: Vec<(bool, Vec<CommandOutcome>)> = vec![
        (true, vec![]),
        (true, vec![FAILED]),
        (true, vec![CommandOutcome::NotStarted]),
        (true, vec![DONE, DONE]),
        (false, vec![]),
        (false, vec![DONE]),
        (false, vec![FAILED, CommandOutcome::NotStarted]),
        (false, vec![CommandOutcome::NotStarted, CommandOutcome::NotStarted]),
        (false, vec![DONE, FAILED]),
        (false, vec![DONE, CommandOutcome::NotStarted]),
        (false, vec![DONE, DONE, DONE]),
    ];
    for (present, outcomes) in failures {
        assert_eq!(
            provisioning_result(present, &outcomes),
            Err(StartupError::Provisioning),
            "accepted {:?}",
            outcomes
        );
    }
}

#[test]
fn a_failed_command_stops_the_plan() {
    assert!(may_continue(&vec![]));
    assert!(may_continue(&vec![DONE]));
    assert!(may_continue(&vec![DONE, DONE]));
    assert!(!may_continue(&vec![FAILED]));
    assert!(!may_continue(&vec![CommandOutcome::NotStarted]));
    assert!(!may_continue(&vec![DONE, FAILED]));
    assert!(!may_continue(&vec![FAILED, DONE]));
}

#[test]
fn failed_provisioning_keeps_the_host_from_being_launched() {
    let mut host = HostProcess::new("/tmp");
    assert!(matches!(host.spawn("c", "k", "d", "p"), Err(StartupError::Directories)));
    assert!(host.advance(HostStep::DirectoriesCreated));
    assert!(matches!(host.spawn("c", "k", "d", "p"), Err(StartupError::Provisioning)));
    for outcomes in [
        vec![FAILED, CommandOutcome::NotStarted],
        vec![DONE, FAILED],
        vec![CommandOutcome::NotStarted, CommandOutcome::NotStarted],
        vec![DONE],
    ] {
        assert_eq!(host.provisioned(false, &outcomes), Err(StartupError::Provisioning));
        assert_eq!(host.current_state(), HostState::DirectoriesReady);
        assert!(matches!(host.spawn("c", "k", "d", "p"), Err(StartupError::Provisioning)));
    }
    assert_eq!(host.provisioned(false, &vec![DONE, DONE]), Ok(()));
    assert_eq!(host.current_state(), HostState::SourceProvisioned);
    assert!(host.spawn("c", "k", "d", "p").is_ok());
}

#[test]
fn host_is_launched_once() {
    let mut host = provisioned_host();
    assert!(host.spawn("c", "k", "d", "p").is_ok());
    assert!(host.advance(HostStep::ChildSpawned(Some(5))));
    assert!(matches!(host.spawn("c", "k", "d", "p"), Err(StartupError::Spawn)));
    host.advance(HostStep::StatusReceived);
    assert!(matches!(host.spawn("c", "k", "d", "p"), Err(StartupError::Spawn)));
    host.teardown();
    assert!(matches!(host.spawn("c", "k", "d", "p"), Err(StartupError::Spawn)));
    host.after_grace(ChildStatus::Exited);
    assert!(matches!(host.spawn("c", "k", "d", "p"), Err(StartupError::Spawn)));
}

#[test]
fn provisioning_out_of_step_is_judged_but_not_recorded() {
    let mut host = HostProcess::new("/tmp");
    assert_eq!(host.provisioned(true, &vec![DONE]), Ok(()));
    assert_eq!(host.current_state(), HostState::Uninitialized);
    assert!(matches!(host.spawn("c", "k", "d", "p"), Err(StartupError::Directories)));
}
