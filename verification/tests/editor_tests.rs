use diskomator::config::AppConfig;
use diskomator::editor::{
    AppState, ConnectionStatus, Handler, HandlerMessage, Operation, ReadReason, Status,
    HEARTBEAT_INTERVAL_MS, RECONNECT_ATTEMPTS, RECONNECT_DELAY_MS,
};

fn connected(config: AppConfig) -> Handler {
    let mut h = Handler::new();
    assert_eq!(h.handle(HandlerMessage::Connect), (Operation::Connect, None));
    assert_eq!(h.connect_done(true), Operation::Read(ReadReason::Connect));
    let wire = config.to_bytes::<200>().unwrap();
    assert_eq!(h.read_done(ReadReason::Connect, &wire), Some(HandlerMessage::Heartbeat));
    assert_eq!(h.handle(HandlerMessage::Heartbeat), (Operation::Heartbeat, None));
    h
}

#[test]
fn starts_idle_and_disconnected() {
    let h = Handler::new();
    assert_eq!(h.state, AppState::default());
    assert_eq!(h.state.last_status, Status::Idle);
    assert_eq!(h.state.conn, ConnectionStatus::Disconnected);
    assert_eq!(h.state.config, None);
    assert!(!h.state.busy);
    assert!(!h.heartbeat_running);
    assert_eq!(h.state.last_status.text(), "Idle");
}

#[test]
fn connect_reads_the_config_and_starts_heartbeats() {
    let mut h = Handler::new();
    h.handle(HandlerMessage::Connect);
    assert_eq!(h.state.conn, ConnectionStatus::Connecting);
    assert_eq!(h.state.last_status.text(), "Connecting...");
    assert!(h.state.busy);
    assert_eq!(h.connect_done(true), Operation::Read(ReadReason::Connect));
    assert!(h.state.busy);
    let wire = AppConfig::stripes().to_bytes::<200>().unwrap();
    assert_eq!(h.read_done(ReadReason::Connect, &wire), Some(HandlerMessage::Heartbeat));
    assert_eq!(h.state.config, Some(AppConfig::stripes()));
    assert_eq!(h.state.conn, ConnectionStatus::Connected(AppConfig::stripes()));
    assert_eq!(h.state.last_status, Status::Connected);
    assert!(!h.state.busy);
    assert_eq!(h.handle(HandlerMessage::Heartbeat), (Operation::Heartbeat, None));
    assert!(h.heartbeat_running);
    // a second request starts no second heartbeat
    assert_eq!(h.handle(HandlerMessage::Heartbeat), (Operation::Nothing, None));
    assert!(h.heartbeat_due());
}

#[test]
fn failed_connect_breaks_with_the_default() {
    let mut h = Handler::new();
    h.handle(HandlerMessage::Connect);
    assert_eq!(h.connect_done(false), Operation::Nothing);
    assert_eq!(h.state.last_status.text(), "Connect error");
    assert_eq!(h.state.conn, ConnectionStatus::Broken(AppConfig::default()));
    assert!(!h.state.busy);
    assert_eq!(h.state.config, None);
}

#[test]
fn unreadable_config_after_connect_breaks() {
    let mut h = Handler::new();
    h.handle(HandlerMessage::Connect);
    h.connect_done(true);
    assert_eq!(h.read_done(ReadReason::Connect, &[1, 2, 3]), None);
    assert_eq!(h.state.last_status.text(), "Decode error");
    assert_eq!(h.state.conn, ConnectionStatus::Broken(AppConfig::default()));
    assert!(!h.state.busy);
    let mut h = Handler::new();
    h.handle(HandlerMessage::Connect);
    h.connect_done(true);
    h.read_failed(ReadReason::Connect);
    assert_eq!(h.state.last_status.text(), "Read error");
    assert_eq!(h.state.conn, ConnectionStatus::Broken(AppConfig::default()));
    assert!(!h.state.busy);
}

#[test]
fn write_sends_the_serialized_config() {
    let mut h = connected(AppConfig::bars());
    let (op, bytes) = h.handle(HandlerMessage::Write(AppConfig::quarters()));
    assert_eq!(op, Operation::Write);
    assert_eq!(bytes, Some(AppConfig::quarters().to_bytes::<200>().unwrap()));
    assert!(h.state.busy);
    assert_eq!(h.state.last_status.text(), "Writing...");
    h.write_done(true);
    assert_eq!(h.state.last_status.text(), "Write OK");
    assert!(!h.state.busy);
    assert_eq!(h.state.conn, ConnectionStatus::Connected(AppConfig::bars()));
}

#[test]
fn failed_write_breaks_and_keeps_the_config() {
    let mut h = connected(AppConfig::bars());
    h.handle(HandlerMessage::SetConfig(AppConfig::stripes()));
    h.handle(HandlerMessage::Write(AppConfig::stripes()));
    h.write_done(false);
    assert_eq!(h.state.last_status.text(), "Write error");
    assert_eq!(h.state.conn, ConnectionStatus::Broken(AppConfig::stripes()));
    assert_eq!(h.state.config, Some(AppConfig::stripes()));
    assert!(!h.state.busy);
    assert!(!h.heartbeat_due());
}

#[test]
fn reload_replaces_the_config() {
    let mut h = connected(AppConfig::bars());
    assert_eq!(h.handle(HandlerMessage::Reload), (Operation::Read(ReadReason::Reload), None));
    assert!(h.state.busy);
    assert_eq!(h.state.last_status.text(), "Reloading...");
    let wire = AppConfig::quarters().to_bytes::<200>().unwrap();
    assert_eq!(h.read_done(ReadReason::Reload, &wire), None);
    assert_eq!(h.state.config, Some(AppConfig::quarters()));
    assert_eq!(h.state.last_status.text(), "Reload OK");
    assert!(!h.state.busy);
    // the connection still names the configuration it was made with
    assert_eq!(h.state.conn, ConnectionStatus::Connected(AppConfig::bars()));
}

#[test]
fn failed_reload_breaks() {
    let mut h = connected(AppConfig::bars());
    h.handle(HandlerMessage::Reload);
    h.read_done(ReadReason::Reload, &[]);
    assert_eq!(h.state.last_status.text(), "Decode error");
    assert_eq!(h.state.conn, ConnectionStatus::Broken(AppConfig::bars()));
    assert!(!h.state.busy);
    let mut h = connected(AppConfig::bars());
    h.handle(HandlerMessage::Reload);
    h.read_failed(ReadReason::Reload);
    assert_eq!(h.state.last_status.text(), "Reload error");
    assert_eq!(h.state.conn, ConnectionStatus::Broken(AppConfig::bars()));
}

#[test]
fn reconnect_with_a_config_is_connected_at_once() {
    let mut h = connected(AppConfig::bars());
    h.write_done(false);
    assert_eq!(h.handle(HandlerMessage::Reconnect), (Operation::Reconnect, None));
    assert_eq!(h.state.last_status.text(), "Reconnecting...");
    assert!(h.state.busy);
    assert_eq!(h.reconnect_done(true), Operation::Nothing);
    assert_eq!(h.state.conn, ConnectionStatus::Connected(AppConfig::bars()));
    assert_eq!(h.state.last_status.text(), "Connected");
    assert!(!h.state.busy);
}

#[test]
fn reconnect_without_a_config_reads_one() {
    let mut h = Handler::new();
    h.handle(HandlerMessage::Connect);
    h.connect_done(false);
    h.handle(HandlerMessage::Reconnect);
    assert_eq!(h.reconnect_done(true), Operation::Read(ReadReason::Reconnect));
    let wire = AppConfig::stripes().to_bytes::<200>().unwrap();
    assert_eq!(h.read_done(ReadReason::Reconnect, &wire), None);
    assert_eq!(h.state.conn, ConnectionStatus::Connected(AppConfig::stripes()));
    assert!(!h.state.busy);
    // a configuration that cannot be read changes nothing
    let mut h = Handler::new();
    h.handle(HandlerMessage::Reconnect);
    h.reconnect_done(true);
    let before = h;
    assert_eq!(h.read_done(ReadReason::Reconnect, &[9]), None);
    assert_eq!(h, before);
    h.read_failed(ReadReason::Reconnect);
    assert_eq!(h.state.last_status.text(), "Read error");
    assert_eq!(h.state.conn, ConnectionStatus::Broken(AppConfig::default()));
}

#[test]
fn failed_reconnect_stays_broken() {
    let mut h = connected(AppConfig::bars());
    h.handle(HandlerMessage::Reconnect);
    assert_eq!(h.reconnect_done(false), Operation::Nothing);
    assert_eq!(h.state.last_status.text(), "Reconnect error");
    assert_eq!(h.state.conn, ConnectionStatus::Broken(AppConfig::bars()));
    assert!(!h.state.busy);
}

#[test]
fn disconnect_forgets_the_config_and_stops_heartbeats() {
    let mut h = connected(AppConfig::bars());
    assert_eq!(h.handle(HandlerMessage::StopHeartbeat), (Operation::Nothing, None));
    assert_eq!(h.handle(HandlerMessage::Disconnect), (Operation::Disconnect, None));
    assert!(!h.heartbeat_running);
    h.disconnect_done();
    assert_eq!(h.state.conn, ConnectionStatus::Disconnected);
    assert_eq!(h.state.config, None);
    assert_eq!(h.state.last_status.text(), "Disconnected");
    assert!(!h.heartbeat_due());
}

#[test]
fn heartbeat_failure_retries_three_times() {
    assert_eq!(HEARTBEAT_INTERVAL_MS, 5000);
    assert_eq!(RECONNECT_DELAY_MS, 1000);
    assert_eq!(RECONNECT_ATTEMPTS, 3);
    assert!(Handler::retry_reconnect(0));
    assert!(Handler::retry_reconnect(2));
    assert!(!Handler::retry_reconnect(3));
    let mut h = connected(AppConfig::bars());
    assert!(h.heartbeat_failed(true));
    assert_eq!(h.state.last_status.text(), "Reconnected");
    assert!(h.heartbeat_due());
    assert!(!h.heartbeat_failed(false));
    assert_eq!(h.state.last_status.text(), "Connection broken");
    assert_eq!(h.state.conn, ConnectionStatus::Broken(AppConfig::bars()));
    assert!(!h.heartbeat_due());
}

#[test]
fn plain_messages_set_one_field() {
    let mut h = Handler::new();
    h.handle(HandlerMessage::SetBusy(true));
    assert!(h.state.busy);
    h.handle(HandlerMessage::SetStatus(Status::LoadedPreset));
    assert_eq!(h.state.last_status.text(), "Loaded preset");
    h.handle(HandlerMessage::SetConfig(AppConfig::stripes()));
    assert_eq!(h.state.config, Some(AppConfig::stripes()));
    h.handle(HandlerMessage::SetConnected(AppConfig::bars()));
    assert_eq!(h.state.conn, ConnectionStatus::Connected(AppConfig::bars()));
    h.handle(HandlerMessage::SetBroken(AppConfig::quarters()));
    assert_eq!(h.state.conn, ConnectionStatus::Broken(AppConfig::quarters()));
    assert_eq!(h.state.config, Some(AppConfig::stripes()));
    assert!(h.state.busy);
}

#[test]
fn config_too_long_to_send_is_a_serialize_error() {
    let mut h = connected(AppConfig::bars());
    h.handle(HandlerMessage::SetBusy(true));
    // 1024 bytes hold every configuration, so the write is always started
    let mut big = AppConfig::bars2();
    big.sample_count = usize::MAX;
    big.config_version = u32::MAX;
    let (op, bytes) = h.handle(HandlerMessage::Write(big));
    assert_eq!(op, Operation::Write);
    assert!(bytes.unwrap().len() <= 1024);
}

#[test]
fn status_texts() {
    let all = [
        (Status::Idle, "Idle"),
        (Status::Connecting, "Connecting..."),
        (Status::Connected, "Connected"),
        (Status::DecodeError, "Decode error"),
        (Status::ReadError, "Read error"),
        (Status::ConnectError, "Connect error"),
        (Status::Disconnected, "Disconnected"),
        (Status::Reconnecting, "Reconnecting..."),
        (Status::ReconnectError, "Reconnect error"),
        (Status::Reloading, "Reloading..."),
        (Status::ReloadOk, "Reload OK"),
        (Status::ReloadError, "Reload error"),
        (Status::Writing, "Writing..."),
        (Status::WriteOk, "Write OK"),
        (Status::WriteError, "Write error"),
        (Status::SerializeError, "Serialize error"),
        (Status::Reconnected, "Reconnected"),
        (Status::ConnectionBroken, "Connection broken"),
        (Status::LoadedPreset, "Loaded preset"),
    ];
    for (status, text) in all {
        assert_eq!(status.text(), text);
    }
}
