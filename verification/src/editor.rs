//! The host editor's side of the connection: what it shows and what it
//! starts in reaction to the user and to the outcome of what it started.
//!
//! The editor talks to the device through operations that take time:
//! connecting, reading and writing the configuration, reconnecting,
//! disconnecting. This module holds the shared state and decides, for every
//! message from the user interface and for every outcome of an operation,
//! how the state changes and which operation comes next. It starts nothing
//! itself.

use vstd::prelude::*;
use crate::config::AppConfig;
use crate::presets::bars2_preset;
use crate::wire::config_bytes;
use crate::wire::parse_config;
use crate::wire::ConfigError;

verus! {

/// Milliseconds between two heartbeats.
pub const HEARTBEAT_INTERVAL_MS: u32 = 5000;

/// Number of attempts to reconnect after a heartbeat failed.
pub const RECONNECT_ATTEMPTS: u32 = 3;

/// Milliseconds to wait before each attempt to reconnect.
pub const RECONNECT_DELAY_MS: u32 = 1000;

/// Largest serialized configuration that the editor sends.
pub const WRITE_BUFFER_BYTES: usize = 1024;

/// How the editor is connected to the device. A broken connection keeps the
/// configuration that was last known.
#[derive(Clone, Copy, Debug, PartialEq, Eq)]
pub enum ConnectionStatus {
    Disconnected,
    Connecting,
    Connected(AppConfig),
    Broken(AppConfig),
}

/// What the status line says. The text of an error that came from outside
/// is shown behind it by the caller.
#[derive(Clone, Copy, Debug, PartialEq, Eq, Structural)]
pub enum Status {
    Idle,
    Connecting,
    Connected,
    DecodeError,
    ReadError,
    ConnectError,
    Disconnected,
    Reconnecting,
    ReconnectError,
    Reloading,
    ReloadOk,
    ReloadError,
    Writing,
    WriteOk,
    WriteError,
    SerializeError,
    Reconnected,
    ConnectionBroken,
    LoadedPreset,
}

impl Status {
    /// The text of the status line.
    pub fn text(&self) -> (t: &'static str)
        ensures
            t@ == match *self {
                Status::Idle => "Idle"@,
                Status::Connecting => "Connecting..."@,
                Status::Connected => "Connected"@,
                Status::DecodeError => "Decode error"@,
                Status::ReadError => "Read error"@,
                Status::ConnectError => "Connect error"@,
                Status::Disconnected => "Disconnected"@,
                Status::Reconnecting => "Reconnecting..."@,
                Status::ReconnectError => "Reconnect error"@,
                Status::Reloading => "Reloading..."@,
                Status::ReloadOk => "Reload OK"@,
                Status::ReloadError => "Reload error"@,
                Status::Writing => "Writing..."@,
                Status::WriteOk => "Write OK"@,
                Status::WriteError => "Write error"@,
                Status::SerializeError => "Serialize error"@,
                Status::Reconnected => "Reconnected"@,
                Status::ConnectionBroken => "Connection broken"@,
                Status::LoadedPreset => "Loaded preset"@,
            },
    {
        match self {
            Status::Idle => "Idle",
            Status::Connecting => "Connecting...",
            Status::Connected => "Connected",
            Status::DecodeError => "Decode error",
            Status::ReadError => "Read error",
            Status::ConnectError => "Connect error",
            Status::Disconnected => "Disconnected",
            Status::Reconnecting => "Reconnecting...",
            Status::ReconnectError => "Reconnect error",
            Status::Reloading => "Reloading...",
            Status::ReloadOk => "Reload OK",
            Status::ReloadError => "Reload error",
            Status::Writing => "Writing...",
            Status::WriteOk => "Write OK",
            Status::WriteError => "Write error",
            Status::SerializeError => "Serialize error",
            Status::Reconnected => "Reconnected",
            Status::ConnectionBroken => "Connection broken",
            Status::LoadedPreset => "Loaded preset",
        }
    }
}

/// What the user interface shows.
#[derive(Clone, Copy, Debug, PartialEq, Eq)]
pub struct AppState {
    /// The configuration that is being edited, once one was loaded.
    pub config: Option<AppConfig>,
    pub last_status: Status,
    /// An operation is running; the buttons are disabled meanwhile.
    pub busy: bool,
    pub conn: ConnectionStatus,
}

/// A message from the user interface.
#[derive(Clone, Copy, Debug, PartialEq, Eq)]
pub enum HandlerMessage {
    Connect,
    Disconnect,
    Reconnect,
    Reload,
    Write(AppConfig),
    SetBusy(bool),
    SetStatus(Status),
    SetConnected(AppConfig),
    SetBroken(AppConfig),
    SetConfig(AppConfig),
    Heartbeat,
    StopHeartbeat,
}

/// Why the configuration is read from the device.
#[derive(Clone, Copy, Debug, PartialEq, Eq, Structural)]
pub enum ReadReason {
    /// A connection was just made.
    Connect,
    /// A connection was made again and no configuration is loaded.
    Reconnect,
    /// The user asked for it.
    Reload,
}

/// The operation that the caller starts next.
#[derive(Clone, Copy, Debug, PartialEq, Eq, Structural)]
pub enum Operation {
    /// Nothing is to be started.
    Nothing,
    Connect,
    Disconnect,
    Reconnect,
    /// Read the configuration characteristic.
    Read(ReadReason),
    /// Write the serialized configuration that comes with this answer.
    Write,
    /// Send a heartbeat every `HEARTBEAT_INTERVAL_MS`.
    Heartbeat,
}

/// The state of the handler: what is shown, and whether heartbeats are sent.
#[derive(Clone, Copy, Debug, PartialEq, Eq)]
pub struct Handler {
    pub state: AppState,
    pub heartbeat_running: bool,
}

impl AppState {
    /// The state before anything happened.
    pub open spec fn initial() -> Self {
        AppState {
            config: None,
            last_status: Status::Idle,
            busy: false,
            conn: ConnectionStatus::Disconnected,
        }
    }

    /// The configuration that a broken connection keeps: the loaded one, or
    /// the built-in default when none is loaded.
    pub open spec fn kept_config(self) -> AppConfig {
        match self.config {
            Some(c) => c,
            None => bars2_preset(),
        }
    }

    /// The state after an operation failed: the connection is broken.
    pub open spec fn broken(self, status: Status) -> Self {
        AppState {
            last_status: status,
            conn: ConnectionStatus::Broken(self.kept_config()),
            busy: false,
            ..self
        }
    }

    /// The state after a configuration was read on a fresh or renewed connection.
    pub open spec fn connected(self, config: AppConfig) -> Self {
        AppState {
            config: Some(config),
            last_status: Status::Connected,
            conn: ConnectionStatus::Connected(config),
            busy: false,
        }
    }
}

impl Handler {
    /// The handler before anything happened.
    pub open spec fn initial() -> Self {
        Handler { state: AppState::initial(), heartbeat_running: false }
    }

    /// With the shown state replaced.
    pub open spec fn showing(self, state: AppState) -> Self {
        Handler { state, ..self }
    }

    /// The handler after a message.
    pub open spec fn after_message(self, message: HandlerMessage) -> Self {
        let s = self.state;
        match message {
            HandlerMessage::SetBusy(busy) => self.showing(AppState { busy, ..s }),
            HandlerMessage::SetStatus(status) => self.showing(AppState { last_status: status, ..s }),
            HandlerMessage::SetConfig(config) => self.showing(
                AppState { config: Some(config), ..s },
            ),
            HandlerMessage::SetConnected(config) => self.showing(
                AppState { conn: ConnectionStatus::Connected(config), ..s },
            ),
            HandlerMessage::SetBroken(config) => self.showing(
                AppState { conn: ConnectionStatus::Broken(config), ..s },
            ),
            HandlerMessage::Connect => self.showing(
                AppState {
                    conn: ConnectionStatus::Connecting,
                    last_status: Status::Connecting,
                    busy: true,
                    ..s
                },
            ),
            HandlerMessage::Disconnect => Handler { heartbeat_running: false, ..self },
            HandlerMessage::Reconnect => self.showing(
                AppState { busy: true, last_status: Status::Reconnecting, ..s },
            ),
            HandlerMessage::Reload => self.showing(
                AppState { busy: true, last_status: Status::Reloading, ..s },
            ),
            HandlerMessage::Write(config) => if config_bytes(config).len() <= WRITE_BUFFER_BYTES {
                self.showing(AppState { busy: true, last_status: Status::Writing, ..s })
            } else {
                self.showing(AppState { busy: false, last_status: Status::SerializeError, ..s })
            },
            HandlerMessage::Heartbeat => Handler { heartbeat_running: true, ..self },
            HandlerMessage::StopHeartbeat => Handler { heartbeat_running: false, ..self },
        }
    }

    /// The operation that a message starts.
    pub open spec fn operation_for(self, message: HandlerMessage) -> Operation {
        match message {
            HandlerMessage::Connect => Operation::Connect,
            HandlerMessage::Disconnect => Operation::Disconnect,
            HandlerMessage::Reconnect => Operation::Reconnect,
            HandlerMessage::Reload => Operation::Read(ReadReason::Reload),
            HandlerMessage::Write(config) => if config_bytes(config).len() <= WRITE_BUFFER_BYTES {
                Operation::Write
            } else {
                Operation::Nothing
            },
            HandlerMessage::Heartbeat => if self.heartbeat_running {
                Operation::Nothing
            } else {
                Operation::Heartbeat
            },
            _ => Operation::Nothing,
        }
    }

    /// The state after an attempt to connect ended.
    pub open spec fn after_connect(self, ok: bool) -> Self {
        if ok {
            self
        } else {
            self.showing(
                AppState {
                    last_status: Status::ConnectError,
                    conn: ConnectionStatus::Broken(bars2_preset()),
                    busy: false,
                    ..self.state
                },
            )
        }
    }

    /// The state after an attempt to reconnect ended. With a configuration
    /// loaded the editor is connected again at once; without one the
    /// configuration is read first.
    pub open spec fn after_reconnect(self, ok: bool) -> Self {
        if !ok {
            self.showing(self.state.broken(Status::ReconnectError))
        } else {
            match self.state.config {
                Some(config) => self.showing(self.state.connected(config)),
                None => self,
            }
        }
    }

    /// The state after a read ended with the bytes `data`.
    pub open spec fn after_read(self, reason: ReadReason, data: Seq<u8>) -> Self {
        let s = self.state;
        match (reason, parse_config(data)) {
            (ReadReason::Connect, Ok(config)) => self.showing(s.connected(config)),
            (ReadReason::Connect, Err(_)) => self.showing(
                AppState {
                    last_status: Status::DecodeError,
                    conn: ConnectionStatus::Broken(bars2_preset()),
                    busy: false,
                    ..s
                },
            ),
            (ReadReason::Reconnect, Ok(config)) => self.showing(s.connected(config)),
            (ReadReason::Reconnect, Err(_)) => self,
            (ReadReason::Reload, Ok(config)) => self.showing(
                AppState {
                    config: Some(config),
                    last_status: Status::ReloadOk,
                    busy: false,
                    ..s
                },
            ),
            (ReadReason::Reload, Err(_)) => self.showing(s.broken(Status::DecodeError)),
        }
    }

    /// The state after a read failed.
    pub open spec fn after_read_failure(self, reason: ReadReason) -> Self {
        let s = self.state;
        match reason {
            ReadReason::Connect => self.showing(
                AppState {
                    last_status: Status::ReadError,
                    conn: ConnectionStatus::Broken(bars2_preset()),
                    busy: false,
                    ..s
                },
            ),
            ReadReason::Reconnect => self.showing(s.broken(Status::ReadError)),
            ReadReason::Reload => self.showing(s.broken(Status::ReloadError)),
        }
    }

    /// The state after a write ended.
    pub open spec fn after_write(self, ok: bool) -> Self {
        if ok {
            self.showing(AppState { last_status: Status::WriteOk, busy: false, ..self.state })
        } else {
            self.showing(self.state.broken(Status::WriteError))
        }
    }

    /// The state after the connection was closed.
    pub open spec fn after_disconnect(self) -> Self {
        self.showing(
            AppState {
                conn: ConnectionStatus::Disconnected,
                config: None,
                last_status: Status::Disconnected,
                ..self.state
            },
        )
    }

    /// Heartbeats go on while the editor is connected.
    pub open spec fn heartbeat_continues(self) -> bool {
        self.state.conn is Connected
    }

    /// The state after a heartbeat failed and the attempts to reconnect ended.
    pub open spec fn after_heartbeat_failure(self, reconnected: bool) -> Self {
        if reconnected {
            self.showing(AppState { last_status: Status::Reconnected, ..self.state })
        } else {
            self.showing(
                AppState {
                    last_status: Status::ConnectionBroken,
                    conn: ConnectionStatus::Broken(self.state.kept_config()),
                    ..self.state
                },
            )
        }
    }
}

impl AppState {
    fn new_kept_config(&self) -> (c: AppConfig)
        ensures
            c == self.kept_config(),
    {
        match self.config {
            Some(c) => c,
            None => AppConfig::bars2(),
        }
    }

    fn mark_broken(&mut self, status: Status)
        ensures
            *final(self) == old(self).broken(status),
    {
        let kept = self.new_kept_config();
        self.last_status = status;
        self.conn = ConnectionStatus::Broken(kept);
        self.busy = false;
    }

    fn mark_connected(&mut self, config: AppConfig)
        ensures
            *final(self) == old(self).connected(config),
    {
        self.config = Some(config);
        self.last_status = Status::Connected;
        self.conn = ConnectionStatus::Connected(config);
        self.busy = false;
    }
}

impl Default for AppState {
    fn default() -> (s: Self)
        ensures
            s == AppState::initial(),
    {
        AppState {
            config: None,
            last_status: Status::Idle,
            busy: false,
            conn: ConnectionStatus::Disconnected,
        }
    }
}

impl Handler {
    /// A handler that shows the idle state and sends no heartbeats.
    pub fn new() -> (h: Self)
        ensures
            h == Handler::initial(),
    {
        Handler {
            state: AppState {
                config: None,
                last_status: Status::Idle,
                busy: false,
                conn: ConnectionStatus::Disconnected,
            },
            heartbeat_running: false,
        }
    }

    /// Reacts to a message from the user interface and names the operation
    /// to start. For a write that is started, the serialized configuration
    /// comes along.
    pub fn handle(&mut self, message: HandlerMessage) -> (r: (Operation, Option<Vec<u8>>))
        ensures
            *final(self) == old(self).after_message(message),
            r.0 == old(self).operation_for(message),
            r.1 is Some == (r.0 == Operation::Write),
            message matches HandlerMessage::Write(config) ==> (r.1 matches Some(bytes) ==> bytes@
                == config_bytes(config)),
    {
        match message {
            HandlerMessage::SetBusy(busy) => {
                self.state.busy = busy;
                (Operation::Nothing, None)
            },
            HandlerMessage::SetStatus(status) => {
                self.state.last_status = status;
                (Operation::Nothing, None)
            },
            HandlerMessage::SetConfig(config) => {
                self.state.config = Some(config);
                (Operation::Nothing, None)
            },
            HandlerMessage::SetConnected(config) => {
                self.state.conn = ConnectionStatus::Connected(config);
                (Operation::Nothing, None)
            },
            HandlerMessage::SetBroken(config) => {
                self.state.conn = ConnectionStatus::Broken(config);
                (Operation::Nothing, None)
            },
            HandlerMessage::Connect => {
                self.state.conn = ConnectionStatus::Connecting;
                self.state.last_status = Status::Connecting;
                self.state.busy = true;
                (Operation::Connect, None)
            },
            HandlerMessage::Disconnect => {
                self.heartbeat_running = false;
                (Operation::Disconnect, None)
            },
            HandlerMessage::Reconnect => {
                self.state.busy = true;
                self.state.last_status = Status::Reconnecting;
                (Operation::Reconnect, None)
            },
            HandlerMessage::Reload => {
                self.state.busy = true;
                self.state.last_status = Status::Reloading;
                (Operation::Read(ReadReason::Reload), None)
            },
            HandlerMessage::Write(config) => {
                match config.to_bytes::<1024>() {
                    Ok(bytes) => {
                        self.state.busy = true;
                        self.state.last_status = Status::Writing;
                        (Operation::Write, Some(bytes))
                    },
                    Err(_) => {
                        self.state.busy = false;
                        self.state.last_status = Status::SerializeError;
                        (Operation::Nothing, None)
                    },
                }
            },
            HandlerMessage::Heartbeat => {
                if !self.heartbeat_running {
                    self.heartbeat_running = true;
                    (Operation::Heartbeat, None)
                } else {
                    (Operation::Nothing, None)
                }
            },
            HandlerMessage::StopHeartbeat => {
                self.heartbeat_running = false;
                (Operation::Nothing, None)
            },
        }
    }

    /// Reacts to the end of an attempt to connect: a connection that was
    /// made is followed by a read of the configuration.
    pub fn connect_done(&mut self, ok: bool) -> (next: Operation)
        ensures
            *final(self) == old(self).after_connect(ok),
            next == if ok { Operation::Read(ReadReason::Connect) } else { Operation::Nothing },
    {
        if ok {
            Operation::Read(ReadReason::Connect)
        } else {
            self.state.last_status = Status::ConnectError;
            self.state.conn = ConnectionStatus::Broken(AppConfig::bars2());
            self.state.busy = false;
            Operation::Nothing
        }
    }

    /// Reacts to the end of an attempt to reconnect.
    pub fn reconnect_done(&mut self, ok: bool) -> (next: Operation)
        ensures
            *final(self) == old(self).after_reconnect(ok),
            next == if ok && old(self).state.config is None {
                Operation::Read(ReadReason::Reconnect)
            } else {
                Operation::Nothing
            },
    {
        if !ok {
            self.state.mark_broken(Status::ReconnectError);
            return Operation::Nothing;
        }
        match self.state.config {
            Some(config) => {
                self.state.mark_connected(config);
                Operation::Nothing
            },
            None => Operation::Read(ReadReason::Reconnect),
        }
    }

    /// Reacts to the bytes that a read brought. After a fresh connection a
    /// configuration that can be read starts the heartbeats.
    pub fn read_done(&mut self, reason: ReadReason, data: &[u8]) -> (next: Option<HandlerMessage>)
        ensures
            *final(self) == old(self).after_read(reason, data@),
            next == if reason == ReadReason::Connect && parse_config(data@) is Ok {
                Some(HandlerMessage::Heartbeat)
            } else {
                None::<HandlerMessage>
            },
    {
        let decoded = AppConfig::from_bytes(data);
        match reason {
            ReadReason::Connect => match decoded {
                Ok(config) => {
                    self.state.mark_connected(config);
                    Some(HandlerMessage::Heartbeat)
                },
                Err(_) => {
                    self.state.last_status = Status::DecodeError;
                    self.state.conn = ConnectionStatus::Broken(AppConfig::bars2());
                    self.state.busy = false;
                    None
                },
            },
            ReadReason::Reconnect => match decoded {
                Ok(config) => {
                    self.state.mark_connected(config);
                    None
                },
                Err(_) => None,
            },
            ReadReason::Reload => match decoded {
                Ok(config) => {
                    self.state.config = Some(config);
                    self.state.last_status = Status::ReloadOk;
                    self.state.busy = false;
                    None
                },
                Err(_) => {
                    self.state.mark_broken(Status::DecodeError);
                    None
                },
            },
        }
    }

    /// Reacts to a read that failed.
    pub fn read_failed(&mut self, reason: ReadReason)
        ensures
            *final(self) == old(self).after_read_failure(reason),
    {
        match reason {
            ReadReason::Connect => {
                self.state.last_status = Status::ReadError;
                self.state.conn = ConnectionStatus::Broken(AppConfig::bars2());
                self.state.busy = false;
            },
            ReadReason::Reconnect => {
                self.state.mark_broken(Status::ReadError);
            },
            ReadReason::Reload => {
                self.state.mark_broken(Status::ReloadError);
            },
        }
    }

    /// Reacts to the end of a write.
    pub fn write_done(&mut self, ok: bool)
        ensures
            *final(self) == old(self).after_write(ok),
    {
        if ok {
            self.state.last_status = Status::WriteOk;
            self.state.busy = false;
        } else {
            self.state.mark_broken(Status::WriteError);
        }
    }

    /// Reacts to the connection being closed on the user's request.
    pub fn disconnect_done(&mut self)
        ensures
            *final(self) == old(self).after_disconnect(),
    {
        self.state.conn = ConnectionStatus::Disconnected;
        self.state.config = None;
        self.state.last_status = Status::Disconnected;
    }

    /// Whether another heartbeat is to be sent: only while connected.
    pub fn heartbeat_due(&self) -> (due: bool)
        ensures
            due == self.heartbeat_continues(),
    {
        match self.state.conn {
            ConnectionStatus::Connected(_) => true,
            _ => false,
        }
    }

    /// Whether another attempt to reconnect is made after `failed` attempts failed.
    pub fn retry_reconnect(failed: u32) -> (again: bool)
        ensures
            again == (failed < RECONNECT_ATTEMPTS),
    {
        failed < RECONNECT_ATTEMPTS
    }

    /// Reacts to a failed heartbeat once the attempts to reconnect are
    /// over. Returns whether heartbeats go on.
    pub fn heartbeat_failed(&mut self, reconnected: bool) -> (goes_on: bool)
        ensures
            *final(self) == old(self).after_heartbeat_failure(reconnected),
            goes_on == reconnected,
    {
        if reconnected {
            self.state.last_status = Status::Reconnected;
        } else {
            let kept = self.state.new_kept_config();
            self.state.last_status = Status::ConnectionBroken;
            self.state.conn = ConnectionStatus::Broken(kept);
        }
        reconnected
    }
}

/// No operation leaves the buttons disabled once it ended, with one
/// exception: a configuration that cannot be read after a reconnect.
pub proof fn lemma_operations_release_the_buttons(
    h: Handler,
    ok: bool,
    reason: ReadReason,
    data: Seq<u8>,
)
    ensures
        !ok ==> !h.after_connect(ok).state.busy,
        !ok || h.state.config is Some ==> !h.after_reconnect(ok).state.busy,
        !h.after_write(ok).state.busy,
        !h.after_read_failure(reason).state.busy,
        reason != ReadReason::Reconnect || parse_config(data) is Ok ==> !h.after_read(
            reason,
            data,
        ).state.busy,
{
}

/// A failure never loses the configuration that is being edited: the
/// broken connection keeps it.
pub proof fn lemma_failures_keep_the_config(h: Handler, reason: ReadReason, config: AppConfig)
    requires
        h.state.config == Some(config),
    ensures
        h.after_write(false).state.config == Some(config),
        h.after_write(false).state.conn == ConnectionStatus::Broken(config),
        h.after_reconnect(false).state.conn == ConnectionStatus::Broken(config),
        h.after_heartbeat_failure(false).state.conn == ConnectionStatus::Broken(config),
        h.after_heartbeat_failure(false).state.config == Some(config),
        reason != ReadReason::Connect ==> h.after_read_failure(reason).state.conn
            == ConnectionStatus::Broken(config),
{
}

/// What the editor reads back after it wrote a configuration is the
/// configuration it wrote.
pub proof fn lemma_written_config_reloads(h: Handler, config: AppConfig)
    ensures
        h.after_read(ReadReason::Reload, config_bytes(config)).state.config == Some(config),
        h.after_read(ReadReason::Reload, config_bytes(config)).state.last_status
            == Status::ReloadOk,
{
    crate::wire::lemma_config_round_trip(config, Seq::<u8>::empty());
    assert(config_bytes(config) + Seq::<u8>::empty() =~= config_bytes(config));
}

} // verus!
