//! The agent host seen from its supervisor: the status records that it writes
//! to the bus file, the files and commands that bring it up, and the steps
//! that take it down.

use vstd::prelude::*;
use vstd::string::StringExecFns;

use crate::session::StartupError;
use crate::shared::{Dirs, DirsView};
use crate::text::{join_path, joined};

use crate::json::{
    json_document, json_member, json_member_port, json_member_text, json_optional_member,
    json_optional_text, member, member_port, member_text, optional_member, optional_text,
    parse_document,
};

verus! {

pub const COMMAND_ALIAS_FILE: &'static str = "command_alias.json";

pub const CUSTOM_RULES_FILE: &'static str = "customrules";

pub const MCP_CONFIG_FILE: &'static str = "mcp_config.json";

pub const MODEL_CONFIG_FILE: &'static str = "model_config.json";

pub const HTTPD_CONFIG_FILE: &'static str = "dive_httpd.json";

/// The state that the host reports of itself.
#[derive(Debug, Clone)]
pub struct HostStatus {
    pub state: String,
    pub last_error: Option<String>,
    pub error_code: Option<String>,
}

pub struct HostStatusView {
    pub state: Seq<char>,
    pub last_error: Option<Seq<char>>,
    pub error_code: Option<Seq<char>>,
}

/// What stands for an optional string in contracts.
pub open spec fn text_view(text: Option<String>) -> Option<Seq<char>> {
    match text {
        Some(text) => Some(text@),
        None => None,
    }
}

impl View for HostStatus {
    type V = HostStatusView;

    open spec fn view(&self) -> HostStatusView {
        HostStatusView {
            state: self.state@,
            last_error: text_view(self.last_error),
            error_code: text_view(self.error_code),
        }
    }
}

/// Where the host listens.
#[derive(Debug, Clone)]
pub struct HostListen {
    pub ip: Option<String>,
    pub port: Option<u16>,
}

pub struct HostListenView {
    pub ip: Option<Seq<char>>,
    pub port: Option<u16>,
}

impl View for HostListen {
    type V = HostListenView;

    open spec fn view(&self) -> HostListenView {
        HostListenView { ip: text_view(self.ip), port: self.port }
    }
}

/// The server part of a status record.
#[derive(Debug, Clone)]
pub struct HostServer {
    pub listen: Option<HostListen>,
}

pub struct HostServerView {
    pub listen: Option<HostListenView>,
}

impl View for HostServer {
    type V = HostServerView;

    open spec fn view(&self) -> HostServerView {
        HostServerView {
            listen: match self.listen {
                Some(listen) => Some(listen@),
                None => None,
            },
        }
    }
}

/// One status record of the bus file.
#[derive(Debug, Clone)]
pub struct HostMessage {
    pub timestamp: String,
    pub status: HostStatus,
    pub server: Option<HostServer>,
}

pub struct HostMessageView {
    pub timestamp: Seq<char>,
    pub status: HostStatusView,
    pub server: Option<HostServerView>,
}

impl View for HostMessage {
    type V = HostMessageView;

    open spec fn view(&self) -> HostMessageView {
        HostMessageView {
            timestamp: self.timestamp@,
            status: self.status@,
            server: match self.server {
                Some(server) => Some(server@),
                None => None,
            },
        }
    }
}

/// What the supervisor reports of the bus file.
#[derive(Debug, Clone)]
pub enum HostEvent {
    BusMessage(HostMessage),
    Error(&'static str),
}

pub enum HostEventView {
    BusMessage(HostMessageView),
    Error(Seq<char>),
}

impl View for HostEvent {
    type V = HostEventView;

    open spec fn view(&self) -> HostEventView {
        match *self {
            HostEvent::BusMessage(message) => HostEventView::BusMessage(message@),
            HostEvent::Error(reason) => HostEventView::Error(reason@),
        }
    }
}

/// The event text for a bus file that could not be opened or read.
pub const READ_FAILED: &'static str = "Failed to read host message";

/// The event text for a bus file that does not hold a status record.
pub const PARSE_FAILED: &'static str = "Failed to parse host message";

/// The status that an object stands for: `state` is a string, `last_error`
/// and `error_code` are strings where they are there at all.
pub open spec fn spec_status(value: serde_json::Value) -> Option<HostStatusView> {
    match (
        json_member_text(value, "state"@),
        json_optional_text(value, "last_error"@),
        json_optional_text(value, "error_code"@),
    ) {
        (Some(state), Some(last_error), Some(error_code)) => Some(
            HostStatusView { state, last_error, error_code },
        ),
        _ => None,
    }
}

/// The listen address that an object stands for: `ip` is a string and `port`
/// an integer from 0 to 65535.
pub open spec fn spec_listen(value: serde_json::Value) -> Option<HostListenView> {
    match (json_member_text(value, "ip"@), json_member_port(value, "port"@)) {
        (Some(ip), Some(port)) => Some(HostListenView { ip: Some(ip), port: Some(port) }),
        _ => None,
    }
}

/// The server part that an object stands for: `listen`, where it is there, is
/// a listen address.
pub open spec fn spec_server(value: serde_json::Value) -> Option<HostServerView> {
    match json_optional_member(value, "listen"@) {
        None => Some(HostServerView { listen: None }),
        Some(listen) => match spec_listen(listen) {
            Some(listen) => Some(HostServerView { listen: Some(listen) }),
            None => None,
        },
    }
}

/// The status record that a JSON value stands for: `timestamp` is a string,
/// `status` a status, and `server`, where it is there, a server part.
pub open spec fn spec_message(value: serde_json::Value) -> Option<HostMessageView> {
    match (json_member_text(value, "timestamp"@), json_member(value, "status"@)) {
        (Some(timestamp), Some(status)) => match spec_status(status) {
            Some(status) => match json_optional_member(value, "server"@) {
                None => Some(HostMessageView { timestamp, status, server: None }),
                Some(server) => match spec_server(server) {
                    Some(server) => Some(
                        HostMessageView { timestamp, status, server: Some(server) },
                    ),
                    None => None,
                },
            },
            None => None,
        },
        _ => None,
    }
}

/// The status record that the bytes of a bus file hold.
pub open spec fn spec_record(contents: Seq<u8>) -> Option<HostMessageView> {
    match json_document(contents) {
        Some(value) => spec_message(value),
        None => None,
    }
}

impl HostStatus {
    /// Reads a status from a parsed JSON value.
    pub fn from_json(value: &serde_json::Value) -> (status: Option<Self>)
        ensures
            match status {
                Some(status) => spec_status(*value) == Some(status@),
                None => spec_status(*value) is None,
            },
    {
        let state = member_text(value, "state");
        let last_error = optional_text(value, "last_error");
        let error_code = optional_text(value, "error_code");
        match (state, last_error, error_code) {
            (Some(state), Some(last_error), Some(error_code)) => Some(
                HostStatus { state: String::from_str(state), last_error, error_code },
            ),
            _ => None,
        }
    }
}

impl HostListen {
    /// Reads a listen address from a parsed JSON value.
    pub fn from_json(value: &serde_json::Value) -> (listen: Option<Self>)
        ensures
            match listen {
                Some(listen) => spec_listen(*value) == Some(listen@),
                None => spec_listen(*value) is None,
            },
    {
        match (member_text(value, "ip"), member_port(value, "port")) {
            (Some(ip), Some(port)) => Some(
                HostListen { ip: Some(String::from_str(ip)), port: Some(port) },
            ),
            _ => None,
        }
    }
}

impl HostServer {
    /// Reads the server part from a parsed JSON value.
    pub fn from_json(value: &serde_json::Value) -> (server: Option<Self>)
        ensures
            match server {
                Some(server) => spec_server(*value) == Some(server@),
                None => spec_server(*value) is None,
            },
    {
        match optional_member(value, "listen") {
            None => Some(HostServer { listen: None }),
            Some(listen) => match HostListen::from_json(listen) {
                Some(listen) => Some(HostServer { listen: Some(listen) }),
                None => None,
            },
        }
    }
}

impl HostMessage {
    /// Reads a status record from a parsed JSON value.
    pub fn from_json(value: &serde_json::Value) -> (message: Option<Self>)
        ensures
            match message {
                Some(message) => spec_message(*value) == Some(message@),
                None => spec_message(*value) is None,
            },
    {
        let (timestamp, status) = match (member_text(value, "timestamp"), member(value, "status")) {
            (Some(timestamp), Some(status)) => (timestamp, status),
            _ => {
                return None;
            },
        };
        let status = match HostStatus::from_json(status) {
            Some(status) => status,
            None => {
                return None;
            },
        };
        match optional_member(value, "server") {
            None => Some(
                HostMessage { timestamp: String::from_str(timestamp), status, server: None },
            ),
            Some(server) => match HostServer::from_json(server) {
                Some(server) => Some(
                    HostMessage {
                        timestamp: String::from_str(timestamp),
                        status,
                        server: Some(server),
                    },
                ),
                None => None,
            },
        }
    }

    /// Reads the status record that the bytes of a bus file hold.
    pub fn parse(contents: &[u8]) -> (message: Option<Self>)
        ensures
            match message {
                Some(message) => spec_record(contents@) == Some(message@),
                None => spec_record(contents@) is None,
            },
    {
        match parse_document(contents) {
            Ok(value) => HostMessage::from_json(&value),
            Err(_) => None,
        }
    }

    /// Where the host listens, where the record names both address and port.
    pub open spec fn spec_endpoint(message: HostMessageView) -> Option<(Seq<char>, u16)> {
        match message.server {
            Some(server) => match server.listen {
                Some(HostListenView { ip: Some(ip), port: Some(port) }) => Some((ip, port)),
                _ => None,
            },
            None => None,
        }
    }

    /// The address and port under which the host can be reached, where the
    /// record names both.
    pub fn endpoint(&self) -> (endpoint: Option<(String, u16)>)
        ensures
            match endpoint {
                Some((ip, port)) => Self::spec_endpoint(self@) == Some((ip@, port)),
                None => Self::spec_endpoint(self@) is None,
            },
    {
        match &self.server {
            Some(server) => match &server.listen {
                Some(listen) => match (&listen.ip, listen.port) {
                    (Some(ip), Some(port)) => Some((ip.clone(), port)),
                    _ => None,
                },
                None => None,
            },
            None => None,
        }
    }
}

/// What came of reading the bus file after a change.
#[derive(Debug)]
pub enum BusRead {
    /// The file could not be opened.
    OpenFailed,
    /// The file was opened and could not be read.
    ReadFailed,
    /// The whole contents of the file.
    Contents(Vec<u8>),
}

pub enum BusReadView {
    OpenFailed,
    ReadFailed,
    Contents(Seq<u8>),
}

impl View for BusRead {
    type V = BusReadView;

    open spec fn view(&self) -> BusReadView {
        match *self {
            BusRead::OpenFailed => BusReadView::OpenFailed,
            BusRead::ReadFailed => BusReadView::ReadFailed,
            BusRead::Contents(bytes) => BusReadView::Contents(bytes@),
        }
    }
}

/// The event that a change notification leads to. A notification about a
/// directory leads to none, nor does an empty file. A file that cannot be
/// opened or read, or that holds no status record, leads to an error event;
/// a status record leads to a bus message.
pub open spec fn spec_bus_event(is_dir: bool, read: BusReadView) -> Option<HostEventView> {
    if is_dir {
        None
    } else {
        match read {
            BusReadView::OpenFailed => Some(HostEventView::Error(READ_FAILED@)),
            BusReadView::ReadFailed => Some(HostEventView::Error(READ_FAILED@)),
            BusReadView::Contents(contents) => if contents.len() == 0 {
                None
            } else {
                match spec_record(contents) {
                    Some(message) => Some(HostEventView::BusMessage(message)),
                    None => Some(HostEventView::Error(PARSE_FAILED@)),
                }
            },
        }
    }
}

/// Turns one change notification on the bus file into the event to deliver, if
/// any. Nothing is kept from one notification to the next.
pub fn bus_event(is_dir: bool, read: &BusRead) -> (event: Option<HostEvent>)
    ensures
        match event {
            Some(event) => spec_bus_event(is_dir, read@) == Some(event@),
            None => spec_bus_event(is_dir, read@) is None,
        },
{
    if is_dir {
        return None;
    }
    match read {
        BusRead::OpenFailed => Some(HostEvent::Error(READ_FAILED)),
        BusRead::ReadFailed => Some(HostEvent::Error(READ_FAILED)),
        BusRead::Contents(contents) => {
            if contents.len() == 0 {
                None
            } else {
                match HostMessage::parse(contents.as_slice()) {
                    Some(message) => Some(HostEvent::BusMessage(message)),
                    None => Some(HostEvent::Error(PARSE_FAILED)),
                }
            }
        },
    }
}

/// A file of the host's configuration and the text it is created with.
#[derive(Debug)]
pub struct ConfigFile {
    pub path: String,
    pub content: String,
}

pub struct ConfigFileView {
    pub path: Seq<char>,
    pub content: Seq<char>,
}

impl View for ConfigFile {
    type V = ConfigFileView;

    open spec fn view(&self) -> ConfigFileView {
        ConfigFileView { path: self.path@, content: self.content@ }
    }
}

pub const COMMAND_ALIAS_DEFAULT: &'static str = "{}";

pub const CUSTOM_RULES_DEFAULT: &'static str = "";

pub const MCP_CONFIG_DEFAULT: &'static str = "{\"mcpServers\":{}}";

pub const MODEL_CONFIG_DEFAULT: &'static str =
    "{\"activeProvider\":\"fake\",\"enableTools\":true,\"disableDiveSystemPrompt\":false}";

/// The text of the server configuration up to the path of the database.
pub const HTTPD_CONFIG_HEAD: &'static str = "{\n    \"db\": {\n        \"uri\": \"sqlite:///";

/// The text of the server configuration between the two paths.
pub const HTTPD_CONFIG_MIDDLE: &'static str =
    "/dived.sqlite\",\n        \"pool_size\": 5,\n        \"pool_recycle\": 60,\n        \"max_overflow\": 10,\n        \"echo\": false,\n        \"pool_pre_ping\": true,\n        \"migrate\": true\n        },\n    \"checkpointer\": {\n        \"uri\": \"sqlite:///";

/// The text of the server configuration behind the path of the checkpointer.
pub const HTTPD_CONFIG_TAIL: &'static str = "/dived.sqlite\"\n    }\n}";

/// The configuration of the host's server: its database and its checkpointer
/// both in `dived.sqlite` under `db_dir`.
pub open spec fn spec_httpd_config(db_dir: Seq<char>) -> Seq<char> {
    HTTPD_CONFIG_HEAD@ + db_dir + HTTPD_CONFIG_MIDDLE@ + db_dir + HTTPD_CONFIG_TAIL@
}

/// Writes the configuration of the host's server for a database under
/// `db_dir`.
pub fn httpd_config(db_dir: &str) -> (content: String)
    ensures
        content@ == spec_httpd_config(db_dir@),
{
    let mut content = String::from_str(HTTPD_CONFIG_HEAD);
    content.append(db_dir);
    content.append(HTTPD_CONFIG_MIDDLE);
    content.append(db_dir);
    content.append(HTTPD_CONFIG_TAIL);
    content
}

/// The files that the host expects in its configuration directory, each with
/// the text it starts with.
pub open spec fn spec_config_files(config_dir: Seq<char>, db_dir: Seq<char>) -> Seq<ConfigFileView> {
    seq![
        ConfigFileView {
            path: joined(config_dir, COMMAND_ALIAS_FILE@),
            content: COMMAND_ALIAS_DEFAULT@,
        },
        ConfigFileView {
            path: joined(config_dir, CUSTOM_RULES_FILE@),
            content: CUSTOM_RULES_DEFAULT@,
        },
        ConfigFileView { path: joined(config_dir, MCP_CONFIG_FILE@), content: MCP_CONFIG_DEFAULT@ },
        ConfigFileView {
            path: joined(config_dir, MODEL_CONFIG_FILE@),
            content: MODEL_CONFIG_DEFAULT@,
        },
        ConfigFileView {
            path: joined(config_dir, HTTPD_CONFIG_FILE@),
            content: spec_httpd_config(db_dir),
        },
    ]
}

/// What stands for a list of files in contracts.
pub open spec fn files_view(files: Seq<ConfigFile>) -> Seq<ConfigFileView> {
    files.map_values(|file: ConfigFile| file@)
}

fn config_file(config_dir: &str, name: &str, content: String) -> (file: ConfigFile)
    ensures
        file@ == (ConfigFileView { path: joined(config_dir@, name@), content: content@ }),
{
    ConfigFile { path: join_path(config_dir, name), content }
}

/// The files on disk, as the supervisor's rules see them: the text of each
/// file by its path.
pub type Files = Map<Seq<char>, Seq<char>>;

/// The files after one of them was created unless it was there: a file that
/// exists is left as it is.
pub open spec fn spec_create(files: Files, file: ConfigFileView) -> Files {
    if files.dom().contains(file.path) {
        files
    } else {
        files.insert(file.path, file.content)
    }
}

/// The files after each of `defaults` was created unless it was there, in
/// order.
pub open spec fn spec_create_all(files: Files, defaults: Seq<ConfigFileView>) -> Files
    decreases defaults.len(),
{
    if defaults.len() == 0 {
        files
    } else {
        spec_create(spec_create_all(files, defaults.drop_last()), defaults.last())
    }
}

/// The files after a write, or after none.
pub open spec fn spec_written(files: Files, write: Option<ConfigFile>) -> Files {
    match write {
        Some(file) => files.insert(file.path@, file.content@),
        None => files,
    }
}

/// Decides the write for one file of the configuration: the file with its
/// text where nothing exists under its path, and no write where something
/// does.
pub fn create_file_if_not_exists(file: ConfigFile, exists: bool) -> (write: Option<ConfigFile>)
    ensures
        write == (if exists {
            None
        } else {
            Some(file)
        }),
        forall|files: Files|
            (files.dom().contains(file.path@) == exists) ==> (#[trigger] spec_written(files, write)
                == spec_create(files, file@)),
{
    if exists {
        None
    } else {
        Some(file)
    }
}

/// A file that exists keeps its text when the configuration is initialised.
pub proof fn lemma_existing_file_is_kept(
    files: Files,
    defaults: Seq<ConfigFileView>,
    path: Seq<char>,
)
    requires
        files.dom().contains(path),
    ensures
        spec_create_all(files, defaults).dom().contains(path),
        spec_create_all(files, defaults)[path] == files[path],
    decreases defaults.len(),
{
    if defaults.len() > 0 {
        lemma_existing_file_is_kept(files, defaults.drop_last(), path);
    }
}

/// After the configuration was initialised every one of its files exists.
pub proof fn lemma_every_file_exists(files: Files, defaults: Seq<ConfigFileView>, i: int)
    requires
        0 <= i < defaults.len(),
    ensures
        spec_create_all(files, defaults).dom().contains(defaults[i].path),
    decreases defaults.len(),
{
    if i < defaults.len() - 1 {
        lemma_every_file_exists(files, defaults.drop_last(), i);
    }
}

/// Where every file of the configuration exists, initialising it changes
/// nothing.
pub proof fn lemma_nothing_to_create(files: Files, defaults: Seq<ConfigFileView>)
    requires
        forall|i: int| 0 <= i < defaults.len() ==> files.dom().contains(#[trigger] defaults[i].path),
    ensures
        spec_create_all(files, defaults) == files,
    decreases defaults.len(),
{
    if defaults.len() > 0 {
        let earlier = defaults.drop_last();
        assert forall|i: int| 0 <= i < earlier.len() implies files.dom().contains(
            #[trigger] earlier[i].path,
        ) by {
            assert(earlier[i] == defaults[i]);
        }
        lemma_nothing_to_create(files, earlier);
        assert(files.dom().contains(defaults[defaults.len() - 1].path));
    }
}

/// Initialising the configuration a second time changes nothing: whatever the
/// files hold after the first time, edited by the user or created then, they
/// hold after the second.
pub proof fn lemma_initialize_twice(files: Files, defaults: Seq<ConfigFileView>)
    ensures
        spec_create_all(spec_create_all(files, defaults), defaults) == spec_create_all(
            files,
            defaults,
        ),
{
    let once = spec_create_all(files, defaults);
    assert forall|i: int| 0 <= i < defaults.len() implies once.dom().contains(
        #[trigger] defaults[i].path,
    ) by {
        lemma_every_file_exists(files, defaults, i);
    }
    lemma_nothing_to_create(once, defaults);
}

/// A program to run, with its arguments, the environment variables set for it
/// and the directory it runs in. Its output is discarded.
#[derive(Debug)]
pub struct Command {
    pub program: String,
    pub args: Vec<String>,
    pub envs: Vec<(String, String)>,
    pub current_dir: Option<String>,
}

pub struct CommandView {
    pub program: Seq<char>,
    pub args: Seq<Seq<char>>,
    pub envs: Seq<(Seq<char>, Seq<char>)>,
    pub current_dir: Option<Seq<char>>,
}

impl View for Command {
    type V = CommandView;

    open spec fn view(&self) -> CommandView {
        CommandView {
            program: self.program@,
            args: self.args@.map_values(|arg: String| arg@),
            envs: self.envs@.map_values(|env: (String, String)| (env.0@, env.1@)),
            current_dir: text_view(self.current_dir),
        }
    }
}

/// What stands for a list of commands in contracts.
pub open spec fn commands_view(commands: Seq<Command>) -> Seq<CommandView> {
    commands.map_values(|command: Command| command@)
}

/// Where the code of the host comes from.
pub const HOST_REPOSITORY: &'static str = "https://github.com/OpenAgentPlatform/dive-mcp-host.git";

/// The revision of the host that this program runs.
pub const HOST_REVISION: &'static str = "v0.1.5";

/// The command that fetches the code of the host into `path`.
pub open spec fn spec_clone_command(path: Seq<char>, search_path: Seq<char>) -> CommandView {
    CommandView {
        program: "git"@,
        args: seq!["clone"@, HOST_REPOSITORY@, path],
        envs: seq![("PATH"@, search_path)],
        current_dir: None,
    }
}

/// The command that switches the code in `path` to the pinned revision.
pub open spec fn spec_switch_command(path: Seq<char>, search_path: Seq<char>) -> CommandView {
    CommandView {
        program: "git"@,
        args: seq!["switch"@, HOST_REVISION@],
        envs: seq![("PATH"@, search_path)],
        current_dir: Some(path),
    }
}

/// The commands that provision the code of the host: fetch it where `path`
/// does not exist, and switch to the pinned revision in any case.
pub open spec fn spec_clone_host(path: Seq<char>, present: bool, search_path: Seq<char>) -> Seq<
    CommandView,
> {
    if present {
        seq![spec_switch_command(path, search_path)]
    } else {
        seq![spec_clone_command(path, search_path), spec_switch_command(path, search_path)]
    }
}

/// The command that runs the host: it reports its status to `bus_file`, reads
/// its configuration from `config_dir`, keeps its resources in `cache_dir`
/// and runs in `data_dir`. The host chooses the port it listens on.
pub open spec fn spec_host_command(
    bus_file: Seq<char>,
    config_dir: Seq<char>,
    cache_dir: Seq<char>,
    data_dir: Seq<char>,
    search_path: Seq<char>,
) -> CommandView {
    CommandView {
        program: "uv"@,
        args: seq!["run"@, "dive_httpd"@, "--port"@, "0"@, "--report_status_file"@, bus_file],
        envs: seq![
            ("PATH"@, search_path),
            ("DIVE_CONFIG_DIR"@, config_dir),
            ("RESOURCE_DIR"@, cache_dir),
        ],
        current_dir: Some(data_dir),
    }
}

/// How long the host gets to end after it was asked to, in milliseconds.
pub const GRACE_PERIOD_MS: u64 = 300;

/// How many events may wait between the supervisor and its caller: only the
/// latest status matters.
pub const EVENT_CAPACITY: usize = 1;

/// Where the supervisor stands with its host.
#[derive(Debug, Clone, Copy, PartialEq, Eq, Structural)]
pub enum HostState {
    Uninitialized,
    DirectoriesReady,
    SourceProvisioned,
    ChildSpawned,
    Running,
    Terminating,
    Terminated,
}

/// What the supervisor has achieved or learnt.
#[derive(Debug, Clone, Copy, PartialEq, Eq, Structural)]
pub enum HostStep {
    /// The directories and the configuration files are there.
    DirectoriesCreated,
    /// The code of the host is there at the pinned revision.
    SourceProvisioned,
    /// The host was launched, under this process id where one is known.
    ChildSpawned(Option<u32>),
    /// The host reported its status.
    StatusReceived,
    /// The session ends.
    TeardownStarted,
    /// The host is gone, by itself or by force.
    ChildGone,
}

/// The state that a step leads to, or `None` where the step has no place in
/// the state.
pub open spec fn spec_advance(state: HostState, step: HostStep) -> Option<HostState> {
    match (state, step) {
        (HostState::Uninitialized, HostStep::DirectoriesCreated) => Some(HostState::DirectoriesReady),
        (HostState::DirectoriesReady, HostStep::SourceProvisioned) => Some(
            HostState::SourceProvisioned,
        ),
        (HostState::SourceProvisioned, HostStep::ChildSpawned(_)) => Some(HostState::ChildSpawned),
        (HostState::ChildSpawned, HostStep::StatusReceived) => Some(HostState::Running),
        (HostState::Running, HostStep::StatusReceived) => Some(HostState::Running),
        (HostState::ChildSpawned, HostStep::TeardownStarted) => Some(HostState::Terminating),
        (HostState::Running, HostStep::TeardownStarted) => Some(HostState::Terminating),
        (HostState::Uninitialized, HostStep::TeardownStarted) => Some(HostState::Terminated),
        (HostState::DirectoriesReady, HostStep::TeardownStarted) => Some(HostState::Terminated),
        (HostState::SourceProvisioned, HostStep::TeardownStarted) => Some(HostState::Terminated),
        (HostState::Terminating, HostStep::ChildGone) => Some(HostState::Terminated),
        _ => None,
    }
}

/// One thing to do while the host is taken down.
#[derive(Debug, Clone, Copy, PartialEq, Eq, Structural)]
pub enum TeardownAction {
    /// Stop watching the bus file, however far the watcher has come.
    AbortWatcher,
    /// Ask the process with this id to end.
    Terminate(u32),
    /// Wait this many milliseconds.
    Wait(u64),
    /// Kill the host if it still runs.
    KillIfRunning,
}

/// The steps that take the host down: the watcher is stopped in any case;
/// a host that was launched is asked to end where its process id is known,
/// given the grace period, and killed if it still runs after that.
pub open spec fn spec_teardown(child: Option<Option<u32>>) -> Seq<TeardownAction> {
    match child {
        None => seq![TeardownAction::AbortWatcher],
        Some(None) => seq![
            TeardownAction::AbortWatcher,
            TeardownAction::Wait(GRACE_PERIOD_MS),
            TeardownAction::KillIfRunning,
        ],
        Some(Some(pid)) => seq![
            TeardownAction::AbortWatcher,
            TeardownAction::Terminate(pid),
            TeardownAction::Wait(GRACE_PERIOD_MS),
            TeardownAction::KillIfRunning,
        ],
    }
}

/// What a look at the host after the grace period showed.
#[derive(Debug, Clone, Copy, PartialEq, Eq, Structural)]
pub enum ChildStatus {
    /// The host still runs.
    Running,
    /// The host has ended.
    Exited,
    /// The look itself failed.
    Unknown,
}

/// The directories of the host to create: configuration, data and cache, each
/// named `host` inside the directory of the program for that purpose. The data
/// directory is left out where it does not exist yet: it is to hold the code
/// of the host, and fetching the code creates it.
pub open spec fn spec_host_directories(dirs: DirsView, data_present: bool) -> Seq<Seq<char>> {
    if data_present {
        seq![joined(dirs.config, "host"@), joined(dirs.data, "host"@), joined(dirs.cache, "host"@)]
    } else {
        seq![joined(dirs.config, "host"@), joined(dirs.cache, "host"@)]
    }
}

/// What came of one command of a plan.
#[derive(Debug, Clone, Copy, PartialEq, Eq, Structural)]
pub enum CommandOutcome {
    /// The command was not run, or could not be started.
    NotStarted,
    /// The command ran to its end.
    Exited { success: bool },
}

/// Whether the code of the host is provisioned: every command of the plan ran
/// and ended with success.
pub open spec fn spec_provisioned(data_present: bool, outcomes: Seq<CommandOutcome>) -> bool {
    &&& outcomes.len() == (if data_present {
        1nat
    } else {
        2nat
    })
    &&& spec_all_succeeded(outcomes)
}

/// Whether every command so far ran and ended with success.
pub open spec fn spec_all_succeeded(outcomes: Seq<CommandOutcome>) -> bool {
    forall|i: int|
        0 <= i < outcomes.len() ==> #[trigger] outcomes[i] == (CommandOutcome::Exited {
            success: true,
        })
}

/// Tells whether the next command of a plan is to be run: only while every
/// command before it ran and ended with success.
pub fn may_continue(outcomes: &Vec<CommandOutcome>) -> (go_on: bool)
    ensures
        go_on == spec_all_succeeded(outcomes@),
{
    let mut i: usize = 0;
    while i < outcomes.len()
        invariant
            i <= outcomes@.len(),
            forall|k: int|
                0 <= k < i ==> #[trigger] outcomes@[k] == (CommandOutcome::Exited {
                    success: true,
                }),
        decreases outcomes@.len() - i,
    {
        match outcomes[i] {
            CommandOutcome::Exited { success: true } => {},
            _ => {
                return false;
            },
        }
        i += 1;
    }
    true
}

/// Judges the provisioning by the outcomes of its commands, given in the
/// order of the plan. A command that was not started or that failed makes the
/// provisioning fail, and so does a missing outcome.
pub fn provisioning_result(data_present: bool, outcomes: &Vec<CommandOutcome>) -> (result: Result<
    (),
    StartupError,
>)
    ensures
        result is Ok <==> spec_provisioned(data_present, outcomes@),
        result is Err ==> result->Err_0 == StartupError::Provisioning,
{
    let expected: usize = if data_present {
        1
    } else {
        2
    };
    if outcomes.len() == expected && may_continue(outcomes) {
        Ok(())
    } else {
        Err(StartupError::Provisioning)
    }
}

/// Whether the host may be launched in a state, and if not, which step is
/// missing: the launch needs the directories and the code, and happens once.
pub open spec fn spec_launchable(state: HostState) -> Result<(), StartupError> {
    match state {
        HostState::Uninitialized => Err(StartupError::Directories),
        HostState::DirectoriesReady => Err(StartupError::Provisioning),
        HostState::SourceProvisioned => Ok(()),
        _ => Err(StartupError::Spawn),
    }
}

/// What the supervisor sets up before it launches the host.
#[derive(Debug)]
pub struct HostSetup {
    /// The directories to create, with their parents, where they are missing.
    pub directories: Vec<String>,
    /// The files to create where nothing exists under their paths.
    pub files: Vec<ConfigFile>,
}

/// The supervisor of one host.
#[derive(Debug)]
pub struct HostProcess {
    state: HostState,
    file_path: String,
    child: Option<Option<u32>>,
}

impl HostProcess {
    /// Where the supervisor stands.
    pub closed spec fn state(&self) -> HostState {
        self.state
    }

    /// The path of the bus file.
    pub closed spec fn bus_file(&self) -> Seq<char> {
        self.file_path@
    }

    /// The host that was launched, with its process id where one is known.
    pub closed spec fn child(&self) -> Option<Option<u32>> {
        self.child
    }

    /// A supervisor that has done nothing yet. Its bus file is `tive/bus`
    /// under the directory for temporary files.
    pub fn new(temp_dir: &str) -> (host: Self)
        ensures
            host.state() == HostState::Uninitialized,
            host.child() is None,
            host.bus_file() == joined(joined(temp_dir@, "tive"@), "bus"@),
    {
        let dir = join_path(temp_dir, "tive");
        HostProcess {
            state: HostState::Uninitialized,
            file_path: join_path(dir.as_str(), "bus"),
            child: None,
        }
    }

    /// The path of the bus file.
    pub fn file_path(&self) -> (path: &str)
        ensures
            path@ == self.bus_file(),
    {
        self.file_path.as_str()
    }

    /// Where the supervisor stands.
    pub fn current_state(&self) -> (state: HostState)
        ensures
            state == self.state(),
    {
        self.state
    }

    /// Records a step. A step that has no place in the current state is
    /// refused and changes nothing.
    pub fn advance(&mut self, step: HostStep) -> (accepted: bool)
        ensures
            final(self).bus_file() == old(self).bus_file(),
            accepted == spec_advance(old(self).state(), step) is Some,
            final(self).state() == match spec_advance(old(self).state(), step) {
                Some(state) => state,
                None => old(self).state(),
            },
            final(self).child() == match (spec_advance(old(self).state(), step), step) {
                (Some(_), HostStep::ChildSpawned(pid)) => Some(pid),
                _ => old(self).child(),
            },
    {
        let next = match (self.state, step) {
            (HostState::Uninitialized, HostStep::DirectoriesCreated) => Some(
                HostState::DirectoriesReady,
            ),
            (HostState::DirectoriesReady, HostStep::SourceProvisioned) => Some(
                HostState::SourceProvisioned,
            ),
            (HostState::SourceProvisioned, HostStep::ChildSpawned(_)) => Some(
                HostState::ChildSpawned,
            ),
            (HostState::ChildSpawned, HostStep::StatusReceived) => Some(HostState::Running),
            (HostState::Running, HostStep::StatusReceived) => Some(HostState::Running),
            (HostState::ChildSpawned, HostStep::TeardownStarted) => Some(HostState::Terminating),
            (HostState::Running, HostStep::TeardownStarted) => Some(HostState::Terminating),
            (HostState::Uninitialized, HostStep::TeardownStarted) => Some(HostState::Terminated),
            (HostState::DirectoriesReady, HostStep::TeardownStarted) => Some(HostState::Terminated),
            (HostState::SourceProvisioned, HostStep::TeardownStarted) => Some(
                HostState::Terminated,
            ),
            (HostState::Terminating, HostStep::ChildGone) => Some(HostState::Terminated),
            _ => None,
        };
        match next {
            Some(state) => {
                self.state = state;
                if let HostStep::ChildSpawned(pid) = step {
                    self.child = Some(pid);
                }
                true
            },
            None => false,
        }
    }

    /// What has to be there before the host can run: its directories, and in
    /// the one for configuration its files, with the database under the one
    /// for data. `data_present` tells whether the data directory exists.
    pub fn initialize(dirs: &Dirs, data_present: bool) -> (setup: HostSetup)
        ensures
            setup.directories@.map_values(|dir: String| dir@) == spec_host_directories(
                dirs@,
                data_present,
            ),
            files_view(setup.files@) == spec_config_files(
                joined(dirs@.config, "host"@),
                joined(dirs@.data, "host"@),
            ),
    {
        let config_dir = dirs.host_config_dir();
        let data_dir = dirs.host_data_dir();
        let cache_dir = dirs.host_cache_dir();
        let files = Self::init_host_config(config_dir.as_str(), data_dir.as_str());
        let mut directories: Vec<String> = Vec::new();
        directories.push(config_dir);
        if data_present {
            directories.push(data_dir);
        }
        directories.push(cache_dir);
        assert(directories@.map_values(|dir: String| dir@) =~= spec_host_directories(
            dirs@,
            data_present,
        ));
        HostSetup { directories, files }
    }

    /// The files of the host's configuration with the text each starts with.
    /// Each is to be created only where nothing exists under its path.
    pub fn init_host_config(config_dir: &str, db_dir: &str) -> (files: Vec<ConfigFile>)
        ensures
            files_view(files@) == spec_config_files(config_dir@, db_dir@),
    {
        let mut files: Vec<ConfigFile> = Vec::new();
        files.push(
            config_file(config_dir, COMMAND_ALIAS_FILE, String::from_str(COMMAND_ALIAS_DEFAULT)),
        );
        files.push(
            config_file(config_dir, CUSTOM_RULES_FILE, String::from_str(CUSTOM_RULES_DEFAULT)),
        );
        files.push(config_file(config_dir, MCP_CONFIG_FILE, String::from_str(MCP_CONFIG_DEFAULT)));
        files.push(
            config_file(config_dir, MODEL_CONFIG_FILE, String::from_str(MODEL_CONFIG_DEFAULT)),
        );
        files.push(config_file(config_dir, HTTPD_CONFIG_FILE, httpd_config(db_dir)));
        assert(files_view(files@) =~= spec_config_files(config_dir@, db_dir@));
        files
    }

    /// The commands that provision the code of the host in `path`, to be run
    /// in order. `present` tells whether `path` exists.
    pub fn clone_host(path: &str, present: bool, search_path: &str) -> (commands: Vec<Command>)
        ensures
            commands_view(commands@) == spec_clone_host(path@, present, search_path@),
    {
        let mut commands: Vec<Command> = Vec::new();
        if !present {
            let mut args: Vec<String> = Vec::new();
            args.push(String::from_str("clone"));
            args.push(String::from_str(HOST_REPOSITORY));
            args.push(String::from_str(path));
            let mut envs: Vec<(String, String)> = Vec::new();
            envs.push((String::from_str("PATH"), String::from_str(search_path)));
            let command = Command {
                program: String::from_str("git"),
                args,
                envs,
                current_dir: None,
            };
            assert(command@.args =~= spec_clone_command(path@, search_path@).args);
            assert(command@.envs =~= spec_clone_command(path@, search_path@).envs);
            commands.push(command);
        }
        let mut args: Vec<String> = Vec::new();
        args.push(String::from_str("switch"));
        args.push(String::from_str(HOST_REVISION));
        let mut envs: Vec<(String, String)> = Vec::new();
        envs.push((String::from_str("PATH"), String::from_str(search_path)));
        let command = Command {
            program: String::from_str("git"),
            args,
            envs,
            current_dir: Some(String::from_str(path)),
        };
        assert(command@.args =~= spec_switch_command(path@, search_path@).args);
        assert(command@.envs =~= spec_switch_command(path@, search_path@).envs);
        commands.push(command);
        assert(commands_view(commands@) =~= spec_clone_host(path@, present, search_path@));
        commands
    }

    /// Records how the provisioning went. Where it succeeded the supervisor
    /// moves on; where it failed nothing changes, and the host cannot be
    /// launched.
    pub fn provisioned(&mut self, data_present: bool, outcomes: &Vec<CommandOutcome>) -> (result:
        Result<(), StartupError>)
        ensures
            result is Ok <==> spec_provisioned(data_present, outcomes@),
            result is Err ==> result->Err_0 == StartupError::Provisioning,
            final(self).bus_file() == old(self).bus_file(),
            final(self).child() == old(self).child(),
            final(self).state() == match (
                result,
                spec_advance(old(self).state(), HostStep::SourceProvisioned),
            ) {
                (Ok(_), Some(state)) => state,
                _ => old(self).state(),
            },
    {
        let result = provisioning_result(data_present, outcomes);
        if result.is_ok() {
            let _ = self.advance(HostStep::SourceProvisioned);
        }
        result
    }

    /// The command that launches the host, wired to the bus file of this
    /// supervisor. It is given out only once the directories are there and
    /// the code is provisioned; before that, and after the launch, the answer
    /// is the error that names what is missing.
    pub fn spawn(
        &self,
        config_dir: &str,
        cache_dir: &str,
        data_dir: &str,
        search_path: &str,
    ) -> (command: Result<Command, StartupError>)
        ensures
            match command {
                Ok(command) => {
                    &&& spec_launchable(self.state()) is Ok
                    &&& command@ == spec_host_command(
                        self.bus_file(),
                        config_dir@,
                        cache_dir@,
                        data_dir@,
                        search_path@,
                    )
                },
                Err(error) => spec_launchable(self.state()) == Err::<(), StartupError>(error),
            },
    {
        match self.state {
            HostState::Uninitialized => {
                return Err(StartupError::Directories);
            },
            HostState::DirectoriesReady => {
                return Err(StartupError::Provisioning);
            },
            HostState::SourceProvisioned => {},
            _ => {
                return Err(StartupError::Spawn);
            },
        }
        let mut args: Vec<String> = Vec::new();
        args.push(String::from_str("run"));
        args.push(String::from_str("dive_httpd"));
        args.push(String::from_str("--port"));
        args.push(String::from_str("0"));
        args.push(String::from_str("--report_status_file"));
        args.push(self.file_path.clone());
        let mut envs: Vec<(String, String)> = Vec::new();
        envs.push((String::from_str("PATH"), String::from_str(search_path)));
        envs.push((String::from_str("DIVE_CONFIG_DIR"), String::from_str(config_dir)));
        envs.push((String::from_str("RESOURCE_DIR"), String::from_str(cache_dir)));
        let command = Command {
            program: String::from_str("uv"),
            args,
            envs,
            current_dir: Some(String::from_str(data_dir)),
        };
        assert(command@.args =~= spec_host_command(
            self.bus_file(),
            config_dir@,
            cache_dir@,
            data_dir@,
            search_path@,
        ).args);
        assert(command@.envs =~= spec_host_command(
            self.bus_file(),
            config_dir@,
            cache_dir@,
            data_dir@,
            search_path@,
        ).envs);
        Ok(command)
    }

    /// Starts the teardown and says what to do, in order. It can be asked in
    /// any state and always answers.
    pub fn teardown(&mut self) -> (actions: Vec<TeardownAction>)
        ensures
            actions@ == spec_teardown(old(self).child()),
            final(self).child() == old(self).child(),
            final(self).bus_file() == old(self).bus_file(),
            final(self).state() == match spec_advance(old(self).state(), HostStep::TeardownStarted) {
                Some(state) => state,
                None => old(self).state(),
            },
    {
        let _ = self.advance(HostStep::TeardownStarted);
        let mut actions: Vec<TeardownAction> = Vec::new();
        actions.push(TeardownAction::AbortWatcher);
        match self.child {
            None => {},
            Some(pid) => {
                match pid {
                    Some(pid) => {
                        actions.push(TeardownAction::Terminate(pid));
                    },
                    None => {},
                }
                actions.push(TeardownAction::Wait(GRACE_PERIOD_MS));
                actions.push(TeardownAction::KillIfRunning);
            },
        }
        assert(actions@ =~= spec_teardown(self.child()));
        actions
    }

    /// Ends the teardown with what a look at the host after the grace period
    /// showed, and says whether the host is to be killed: only where it was
    /// seen running.
    pub fn after_grace(&mut self, status: ChildStatus) -> (kill: bool)
        ensures
            kill == (status == ChildStatus::Running),
            final(self).child() == old(self).child(),
            final(self).bus_file() == old(self).bus_file(),
            final(self).state() == match spec_advance(old(self).state(), HostStep::ChildGone) {
                Some(state) => state,
                None => old(self).state(),
            },
    {
        let _ = self.advance(HostStep::ChildGone);
        match status {
            ChildStatus::Running => true,
            _ => false,
        }
    }
}

} // verus!
